//! Creating token accounts, with the extensions their mint calls for, and initializing them.

use vstd::prelude::*;

use crate::cpi::system_program::{
    create_account_data, system_program_id_bytes,
    failsafe_create_plan, try_failsafe_create_account, FailsafeCreateAccount,
};
use crate::cpi::token_program::create_mint::{optional_step, push_invocation};
use crate::cpi::token_program::extensions::{single_account_invocation, InitializeImmutableOwner};
use crate::cpi::token_program::{
    authority_data, error_expected_token_program, error_extensions_unsupported,
    is_any_token_program_id, serialize_authority_instruction_data, token_2022_program_id,
    token_2022_program_id_bytes, token_account_len, token_program_id_bytes,
};
use crate::cpi::{
    invocation_views, invoke_unsigned, unsigned_invocation, CpiAuthority, Invocation,
    InvocationView,
};
use crate::entrypoint::{data_borrowable, lamports_borrowable, NoStdAccountInfo};
use crate::error::SealevelToolsError;
use crate::program_error::ProgramError;
use crate::pubkey::Pubkey;
use spl_token_2022::extension::BaseStateWithExtensions;

verus! {

/// The `InitializeAccount3` invocation of `token_program_id`: `account` becomes a token account
/// of `mint` owned by `owner`.
pub open spec fn initialize_account3_invocation(
    token_program_id: Pubkey,
    account: &NoStdAccountInfo,
    mint: &NoStdAccountInfo,
    owner: Pubkey,
) -> InvocationView {
    unsigned_invocation(token_program_id@, seq![account, mint], authority_data(18, owner))
}

/// The `InitializeAccount3` invocation (selector 18).
pub fn invoke_initialize_account3<'s, 't>(
    token_program_id: &Pubkey,
    account: &NoStdAccountInfo,
    mint: &NoStdAccountInfo,
    owner: &Pubkey,
) -> (r: Invocation<'s, 't>)
    ensures
        r@ == initialize_account3_invocation(*token_program_id, account, mint, *owner),
{
    let instruction_data = serialize_authority_instruction_data(18, owner);
    let accounts = [account, mint];
    assert(accounts@ =~= seq![account, mint]);
    invoke_unsigned(token_program_id, &accounts, &instruction_data)
}

/// Arguments of `InitializeAccount3`, which initializes an account already created for a token
/// program as a token account. Prefer [CreateTokenAccount], which creates the account too.
pub struct InitializeAccount<'a> {
    pub token_program_id: &'a Pubkey,
    pub account: &'a NoStdAccountInfo,
    pub mint: &'a NoStdAccountInfo,
    pub owner: &'a Pubkey,
}

impl<'a> InitializeAccount<'a> {
    /// The `InitializeAccount3` invocation (selector 18).
    pub fn into_invoke<'s, 't>(self) -> (r: Invocation<'s, 't>)
        ensures
            r@ == initialize_account3_invocation(
                *self.token_program_id,
                self.account,
                self.mint,
                *self.owner,
            ),
    {
        invoke_initialize_account3(self.token_program_id, self.account, self.mint, self.owner)
    }
}

/// Arguments to create a token account: the account is created for the mint's token program,
/// with the extensions the mint calls for, and initialized as a token account.
pub struct CreateTokenAccount<'a, 'b: 'a> {
    pub payer: CpiAuthority<'a, 'b>,
    pub token_account: CpiAuthority<'a, 'b>,
    pub mint: &'b NoStdAccountInfo,
    pub token_account_owner: &'a Pubkey,
    /// Whether to add the immutable owner extension (Token Extensions only).
    pub immutable_owner: bool,
}

/// Which of the extensions that token accounts mirror a mint has.
#[derive(Clone, Copy, Debug, PartialEq, Eq, Structural)]
pub struct MintExtensionFlags {
    pub transfer_fee: bool,
    pub non_transferable: bool,
    pub transfer_hook: bool,
}

/// What unpacking mint data yields: whether the mint has the transfer fee, non-transferable and
/// transfer hook extensions, or the error that rejects the data.
pub uninterp spec fn mint_extension_scan(data: Seq<u8>) -> Result<MintExtensionFlags, ProgramError>;

/// Unpacks mint data and reports which of the transfer fee, non-transferable and transfer hook
/// extensions the mint has.
///
/// Calls `PodStateWithExtensions::<PodMint>::unpack` and `get_extension` of `spl_token_2022`.
/// The outcome is named, not stated: the contract claims only that it is a function of the data.
/// Unpacking fails with `InvalidAccountData`, `InvalidArgument` or `UninitializedAccount` (the
/// only errors its source produces); any other error would be reported as `InvalidAccountData`.
#[verifier::external_body]
fn unpack_mint_extensions(data: &[u8]) -> (r: Result<MintExtensionFlags, ProgramError>)
    ensures
        r == mint_extension_scan(data@),
{
    match spl_token_2022::extension::PodStateWithExtensions::<spl_token_2022::pod::PodMint>::unpack(
        data,
    ) {
        Ok(state) => Ok(MintExtensionFlags {
            transfer_fee: state.get_extension::<spl_token_2022::extension::transfer_fee::TransferFeeConfig>().is_ok(),
            non_transferable: state.get_extension::<spl_token_2022::extension::non_transferable::NonTransferable>().is_ok(),
            transfer_hook: state.get_extension::<spl_token_2022::extension::transfer_hook::TransferHook>().is_ok(),
        }),
        Err(solana_program_error::ProgramError::UninitializedAccount) => Err(ProgramError::UninitializedAccount),
        Err(solana_program_error::ProgramError::InvalidArgument) => Err(ProgramError::InvalidArgument),
        Err(_) => Err(ProgramError::InvalidAccountData),
    }
}

/// What reading the mint yields: the extension flags, or the error when its data cannot be
/// borrowed or unpacked.
pub open spec fn token_account_scan(mint: NoStdAccountInfo) -> Result<MintExtensionFlags, ProgramError> {
    if !data_borrowable(mint.borrow_state) {
        Err(ProgramError::AccountBorrowFailed)
    } else {
        mint_extension_scan(mint.data@)
    }
}

/// Whether the token account needs extensions: those mirroring the mint's, or the immutable
/// owner extension when asked for.
pub open spec fn needs_extensions(flags: MintExtensionFlags, immutable_owner: bool) -> bool {
    flags.transfer_fee || flags.non_transferable || flags.transfer_hook || immutable_owner
}

/// The size of the token account: the base size with extensions plus the transfer fee amount
/// (type, length and the withheld amount), the non-transferable and immutable owner markers
/// (both for a non-transferable mint, the latter alone when asked for), and the transfer hook
/// flag (type, length and a boolean); a plain token account when no extension is needed.
pub open spec fn token_account_space(flags: MintExtensionFlags, immutable_owner: bool) -> nat {
    if !needs_extensions(flags, immutable_owner) {
        165
    } else {
        166 + (if flags.transfer_fee {
            12nat
        } else {
            0nat
        }) + (if flags.non_transferable {
            8nat
        } else if immutable_owner {
            4nat
        } else {
            0nat
        }) + (if flags.transfer_hook {
            5nat
        } else {
            0nat
        })
    }
}

/// The token program (the mint's owner) is acceptable: Token Extensions when the account needs
/// extensions, either token program otherwise.
pub open spec fn token_program_accepted(token_program_id: Pubkey, flags: MintExtensionFlags, immutable_owner: bool) -> bool {
    if needs_extensions(flags, immutable_owner) {
        token_program_id@ == token_2022_program_id_bytes()
    } else {
        token_program_id@ == token_2022_program_id_bytes() || token_program_id@
            == token_program_id_bytes()
    }
}

/// The error for an unacceptable token program.
pub open spec fn token_program_rejection(e: SealevelToolsError, flags: MintExtensionFlags, immutable_owner: bool) -> bool {
    if needs_extensions(flags, immutable_owner) {
        e matches SealevelToolsError::Cpi(msgs) && msgs@.len() == 1 && msgs@[0]@
            == "Extensions only supported with SPL Token Extensions program"@
    } else {
        e matches SealevelToolsError::Cpi(msgs) && msgs@.len() == 1 && msgs@[0]@
            == "Expected legacy SPL Token or Token Extensions program as ID"@
    }
}

/// Reads which extensions the mint has.
fn read_mint_flags(mint: &NoStdAccountInfo) -> (r: Result<MintExtensionFlags, SealevelToolsError<'static>>)
    ensures
        token_account_scan(*mint) is Err ==> r == Err::<MintExtensionFlags, SealevelToolsError<'static>>(
            SealevelToolsError::PassThrough(token_account_scan(*mint)->Err_0),
        ),
        token_account_scan(*mint) is Ok ==> r == Ok::<MintExtensionFlags, SealevelToolsError<'static>>(
            token_account_scan(*mint)->Ok_0,
        ),
{
    let mint_data = match mint.try_borrow_data() {
        Ok(d) => d,
        Err(e) => {
            return Err(SealevelToolsError::PassThrough(e));
        },
    };
    match unpack_mint_extensions(mint_data) {
        Ok(f) => Ok(f),
        Err(e) => Err(SealevelToolsError::PassThrough(e)),
    }
}

/// The size of a token account of a mint with the given extensions under `token_program_id`,
/// or the error for a token program that cannot hold the needed extensions.
pub fn space_for_mint_flags(token_program_id: &Pubkey, flags: MintExtensionFlags, immutable_owner: bool) -> (r: Result<
    u64,
    SealevelToolsError<'static>,
>)
    ensures
        token_program_accepted(*token_program_id, flags, immutable_owner) ==> r == Ok::<
            u64,
            SealevelToolsError<'static>,
        >(token_account_space(flags, immutable_owner) as u64),
        !token_program_accepted(*token_program_id, flags, immutable_owner) ==> r is Err
            && token_program_rejection(r->Err_0, flags, immutable_owner),
{
    if flags.transfer_fee || flags.non_transferable || flags.transfer_hook || immutable_owner {
        if !(*token_program_id == token_2022_program_id()) {
            return Err(error_extensions_unsupported());
        }
        let mut total_space: usize = token_account_len() + 1;
        if flags.transfer_fee {
            total_space = total_space + 12;
        }
        if flags.non_transferable {
            total_space = total_space + 8;
        } else if immutable_owner {
            total_space = total_space + 4;
        }
        if flags.transfer_hook {
            total_space = total_space + 5;
        }
        Ok(total_space as u64)
    } else {
        if !is_any_token_program_id(token_program_id) {
            return Err(error_expected_token_program());
        }
        Ok(token_account_len() as u64)
    }
}

impl<'a, 'b: 'a> CreateTokenAccount<'a, 'b> {
    /// The invocations that create the token account for a mint with the given extension flags:
    /// the account is created (failsafe) with the needed space for the mint's token program; the
    /// immutable owner extension is initialized when asked for and not implied by a
    /// non-transferable mint; then the token account is initialized.
    pub open spec fn spec_plan(self, flags: MintExtensionFlags, rent_required: u64) -> Seq<
        InvocationView,
    > {
        failsafe_create_plan(
            self.payer,
            self.token_account,
            token_account_space(flags, self.immutable_owner) as u64,
            self.mint.owner,
            rent_required,
        ) + optional_step(
            !flags.non_transferable && self.immutable_owner,
            single_account_invocation(self.mint.owner, self.token_account.account, seq![22u8]),
        ) + seq![
            initialize_account3_invocation(
                self.mint.owner,
                self.token_account.account,
                self.mint,
                *self.token_account_owner,
            ),
        ]
    }

    /// The size of the token account, given the mint's extensions; or why it cannot be
    /// created: the mint's data cannot be read or unpacked, or its owner is not a token
    /// program that supports the needed extensions.
    pub fn try_account_space(&self) -> (r: Result<u64, SealevelToolsError<'static>>)
        ensures
            token_account_scan(*self.mint) is Err ==> r == Err::<u64, SealevelToolsError<'static>>(
                SealevelToolsError::PassThrough(token_account_scan(*self.mint)->Err_0),
            ),
            token_account_scan(*self.mint) matches Ok(flags) ==> {
                &&& token_program_accepted(self.mint.owner, flags, self.immutable_owner) ==> r
                    == Ok::<u64, SealevelToolsError<'static>>(
                    token_account_space(flags, self.immutable_owner) as u64,
                )
                &&& !token_program_accepted(self.mint.owner, flags, self.immutable_owner) ==> r is Err
                    && token_program_rejection(r->Err_0, flags, self.immutable_owner)
            },
    {
        let flags = read_mint_flags(self.mint)?;
        space_for_mint_flags(self.mint.owner(), flags, self.immutable_owner)
    }

    /// The invocations that create the token account: the account is created (or, if it
    /// already holds lamports, topped up, allocated and assigned) for the mint's token program
    /// with `rent_required` lamports, which must be the rent-exempt minimum for
    /// [CreateTokenAccount::try_account_space]; then the immutable owner extension is
    /// initialized when asked for and not already implied by a non-transferable mint; then the
    /// token account itself. Fails as [CreateTokenAccount::try_account_space] does, or when the
    /// token account's lamports cannot be read.
    pub fn try_into_invoke(self, rent_required: u64) -> (r: Result<
        Vec<Invocation<'a, 'b>>,
        SealevelToolsError<'static>,
    >)
        ensures
            token_account_scan(*self.mint) is Err ==> r is Err && r->Err_0
                == SealevelToolsError::PassThrough(token_account_scan(*self.mint)->Err_0),
            token_account_scan(*self.mint) matches Ok(flags) ==> {
                &&& !token_program_accepted(self.mint.owner, flags, self.immutable_owner) ==> r is Err
                    && token_program_rejection(r->Err_0, flags, self.immutable_owner)
                &&& token_program_accepted(self.mint.owner, flags, self.immutable_owner)
                    && !lamports_borrowable(self.token_account.account.borrow_state) ==> r is Err
                    && r->Err_0 == SealevelToolsError::PassThrough(ProgramError::AccountBorrowFailed)
                &&& token_program_accepted(self.mint.owner, flags, self.immutable_owner)
                    && lamports_borrowable(self.token_account.account.borrow_state) ==> r is Ok
                    && invocation_views(r->Ok_0@) == self.spec_plan(flags, rent_required)
            },
    {
        let Self { payer, token_account, mint, token_account_owner, immutable_owner } = self;
        let token_program_id = mint.owner();
        let flags = read_mint_flags(mint)?;
        let space = space_for_mint_flags(token_program_id, flags, immutable_owner)?;
        let mut invocations = match try_failsafe_create_account(
            FailsafeCreateAccount { payer, to: token_account, space, program_id: token_program_id },
            rent_required,
        ) {
            Ok(v) => v,
            Err(e) => {
                return Err(SealevelToolsError::PassThrough(e));
            },
        };
        let ghost created = invocation_views(invocations@);
        if !flags.non_transferable && immutable_owner {
            push_invocation(
                &mut invocations,
                InitializeImmutableOwner { token_program_id, account: token_account.account }.into_invoke(),
            );
        }
        assert(invocation_views(invocations@) =~= created + optional_step(
            !flags.non_transferable && immutable_owner,
            single_account_invocation(*token_program_id, token_account.account, seq![22u8]),
        ));
        push_invocation(
            &mut invocations,
            invoke_initialize_account3(
                token_program_id,
                token_account.account,
                mint,
                token_account_owner,
            ),
        );
        Ok(invocations)
    }
}

/// `InitializeAccount3` names the new token account (with its own privileges) then the mint,
/// infos likewise, without signers; its data is selector 18 then the owner.
pub proof fn lemma_initialize_account3_layout(
    token_program_id: Pubkey,
    account: &NoStdAccountInfo,
    mint: &NoStdAccountInfo,
    owner: Pubkey,
)
    ensures
        ({
            let inv = initialize_account3_invocation(token_program_id, account, mint, owner);
            &&& inv.program_id == token_program_id@
            &&& inv.accounts == seq![account.spec_meta(), mint.spec_meta()]
            &&& inv.infos == seq![account.spec_info(), mint.spec_info()]
            &&& inv.data.len() == 33
            &&& inv.data[0] == 18u8
            &&& inv.data.subrange(1, 33) == owner@
            &&& inv.signers_seeds.len() == 0
        }),
{
    let inv = initialize_account3_invocation(token_program_id, account, mint, owner);
    assert(inv.accounts =~= seq![account.spec_meta(), mint.spec_meta()]);
    assert(inv.infos =~= seq![account.spec_info(), mint.spec_info()]);
    assert(inv.data.subrange(1, 33) =~= owner@);
}

/// Creating a token account that holds no lamports takes one System `CreateAccount` of the
/// needed space for the mint's token program, signed by the payer and the new account; then the
/// immutable owner extension on the new account exactly when it is asked for and the mint is not
/// non-transferable; then, last, `InitializeAccount3` of the new account for the mint and owner.
pub proof fn lemma_create_token_account_plan<'a, 'b>(
    args: CreateTokenAccount<'a, 'b>,
    flags: MintExtensionFlags,
    rent_required: u64,
)
    requires
        args.token_account.account.lamports == 0,
    ensures
        ({
            let plan = args.spec_plan(flags, rent_required);
            let immutable_step = !flags.non_transferable && args.immutable_owner;
            &&& plan.len() == if immutable_step { 3nat } else { 2nat }
            &&& plan[0].program_id == system_program_id_bytes()
            &&& plan[0].data == create_account_data(
                rent_required,
                token_account_space(flags, args.immutable_owner) as u64,
                args.mint.owner,
            )
            &&& plan[0].accounts == seq![
                args.payer.account.spec_meta_signer(),
                args.token_account.account.spec_meta_signer(),
            ]
            &&& immutable_step ==> plan[1].program_id == args.mint.owner@ && plan[1].accounts
                == seq![args.token_account.account.spec_meta()] && plan[1].data == seq![22u8]
            &&& plan.last().program_id == args.mint.owner@
            &&& plan.last().accounts == seq![
                args.token_account.account.spec_meta(),
                args.mint.spec_meta(),
            ]
            &&& plan.last().data[0] == 18u8
            &&& plan.last().data.subrange(1, 33) == args.token_account_owner@
        }),
{
    lemma_initialize_account3_layout(
        args.mint.owner,
        args.token_account.account,
        args.mint,
        *args.token_account_owner,
    );
    crate::cpi::token_program::extensions::lemma_single_account_invocation_layout(
        args.mint.owner,
        args.token_account.account,
        seq![22u8],
    );
    let plan = args.spec_plan(flags, rent_required);
    let created = failsafe_create_plan(
        args.payer,
        args.token_account,
        token_account_space(flags, args.immutable_owner) as u64,
        args.mint.owner,
        rent_required,
    );
    assert(created.len() == 1);
    if !flags.non_transferable && args.immutable_owner {
        assert(plan[1] == single_account_invocation(
            args.mint.owner,
            args.token_account.account,
            seq![22u8],
        ));
    }
}

/// The token account's space: the 165-byte base account exactly when no extension is needed;
/// otherwise the base account, the account-type byte, and the mirrored extensions, each a 4-byte
/// type and length plus its value: the withheld transfer fee amount (8 bytes) for a transfer-fee
/// mint, the non-transferable marker and the implied immutable owner marker (no value each) for
/// a non-transferable mint or the immutable owner marker alone when asked for, and the transfer
/// hook flag (1 byte) for a transfer-hook mint.
pub proof fn lemma_token_account_space_sizes(flags: MintExtensionFlags, immutable_owner: bool)
    ensures
        token_account_space(flags, immutable_owner) == 165 <==> !(flags.transfer_fee
            || flags.non_transferable || flags.transfer_hook || immutable_owner),
        (flags.transfer_fee || flags.non_transferable || flags.transfer_hook || immutable_owner)
            ==> token_account_space(flags, immutable_owner) == 166 + (if flags.transfer_fee {
            4 + 8
        } else {
            0nat
        }) + (if flags.non_transferable {
            4 + 4
        } else if immutable_owner {
            4nat
        } else {
            0nat
        }) + (if flags.transfer_hook {
            4 + 1
        } else {
            0nat
        }),
{
}

} // verus!
