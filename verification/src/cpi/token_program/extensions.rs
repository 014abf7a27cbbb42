//! Invocations that initialize extensions of Token Extensions mints and accounts. Each
//! extension must be initialized after the account is created and before it is initialized as a
//! mint or token account.

use vstd::prelude::*;

use crate::bytes::{
    le_bytes_u16, le_bytes_u64, lemma_u16_le_roundtrip, lemma_u64_le_roundtrip, u16_from_le,
    u16_to_le_bytes, u64_from_le, u64_to_le_bytes, write_bytes, zeros,
};
use crate::cpi::token_program::{authority_data, coption_pubkey_data, serialize_authority_instruction_data, write_coption_pubkey};
use crate::cpi::{invoke_unsigned, unsigned_invocation, Invocation};
use crate::entrypoint::NoStdAccountInfo;
use crate::pubkey::Pubkey;

verus! {

/// An optional address, or 32 zero bytes when absent.
pub open spec fn key_or_zeros(key: Option<&Pubkey>) -> Seq<u8> {
    match key {
        Some(k) => k@,
        None => zeros(32),
    }
}

/// The address of an optional key, or the all-zero address.
pub fn unwrap_or_default_pubkey(key: Option<&Pubkey>) -> (r: Pubkey)
    ensures
        r@ == key_or_zeros(key),
{
    match key {
        Some(k) => *k,
        None => {
            let r = Pubkey([0u8; 32]);
            assert(r@ =~= zeros(32));
            r
        },
    }
}

/// Instruction data that initializes a pointer extension: the extension's selector, the
/// initialize selector 0, the authority (or zeros) and the pointer (or zeros).
pub open spec fn initialize_pointer_data(selector: u8, authority: Seq<u8>, pointer: Seq<u8>) -> Seq<u8> {
    seq![selector, 0u8] + authority + pointer
}

/// Serializes the data that initializes a pointer extension.
pub fn serialize_initialize_pointer_instruction_data(
    selector: u8,
    authority: &Pubkey,
    pointer: &Pubkey,
) -> (r: [u8; 66])
    ensures
        r@ == initialize_pointer_data(selector, authority@, pointer@),
{
    let mut instruction_data = [0u8; 66];
    instruction_data[0] = selector;
    let a = authority.to_bytes();
    write_bytes(&mut instruction_data, 2, &a);
    let p = pointer.to_bytes();
    write_bytes(&mut instruction_data, 34, &p);
    assert(instruction_data@ =~= initialize_pointer_data(selector, authority@, pointer@));
    instruction_data
}

/// The invocation of the token program on the single account `account` with `data`.
pub open spec fn single_account_invocation(
    token_program_id: Pubkey,
    account: &NoStdAccountInfo,
    data: Seq<u8>,
) -> crate::cpi::InvocationView {
    unsigned_invocation(token_program_id@, seq![account], data)
}

/// Invokes the token program on one account without signers.
fn invoke_on<'a, 'b>(token_program_id: &Pubkey, account: &NoStdAccountInfo, data: &[u8]) -> (r:
    Invocation<'a, 'b>)
    ensures
        r@ == single_account_invocation(*token_program_id, account, data@),
{
    let accounts = [account];
    assert(accounts@ =~= seq![account]);
    invoke_unsigned(token_program_id, &accounts, data)
}

/// Arguments to initialize the mint close authority extension.
pub struct InitializeMintCloseAuthority<'a> {
    pub token_program_id: &'a Pubkey,
    pub mint: &'a NoStdAccountInfo,
    pub authority: Option<&'a Pubkey>,
}

/// Instruction data of `InitializeMintCloseAuthority`: selector 25, then the optional authority.
pub open spec fn initialize_close_authority_data(authority: Option<&Pubkey>) -> Seq<u8> {
    seq![25u8] + coption_pubkey_data(authority)
}

impl<'a> InitializeMintCloseAuthority<'a> {
    /// The instruction data.
    pub open spec fn spec_data(self) -> Seq<u8> {
        initialize_close_authority_data(self.authority)
    }

    /// The `InitializeMintCloseAuthority` invocation (selector 25).
    pub fn into_invoke<'s, 't>(self) -> (r: Invocation<'s, 't>)
        ensures
            r@ == single_account_invocation(*self.token_program_id, self.mint, self.spec_data()),
    {
        let mut instruction_data = [0u8; 34];
        instruction_data[0] = 25;
        assert(instruction_data@.subrange(1, 34) =~= zeros(33));
        write_coption_pubkey(&mut instruction_data, 1, self.authority);
        assert(instruction_data@ =~= initialize_close_authority_data(self.authority));
        invoke_on(self.token_program_id, self.mint, &instruction_data)
    }
}

/// Arguments to initialize the confidential mint/burn extension.
pub struct InitializeConfidentialMintBurn<'a> {
    pub token_program_id: &'a Pubkey,
    pub mint: &'a NoStdAccountInfo,
    pub supply_elgamal: &'a [u8; 32],
    pub decryptable_supply: &'a [u8; 36],
}

/// Instruction data of `ConfidentialMintBurnExtension::InitializeMint`: selector 42, the
/// initialize selector 0, the supply ElGamal key and the decryptable supply.
pub open spec fn initialize_confidential_mint_burn_data(
    supply_elgamal: Seq<u8>,
    decryptable_supply: Seq<u8>,
) -> Seq<u8> {
    seq![42u8, 0u8] + supply_elgamal + decryptable_supply
}

impl<'a> InitializeConfidentialMintBurn<'a> {
    /// The instruction data.
    pub open spec fn spec_data(self) -> Seq<u8> {
        initialize_confidential_mint_burn_data(self.supply_elgamal@, self.decryptable_supply@)
    }

    /// The invocation that initializes the confidential mint/burn extension (selector 42).
    pub fn into_invoke<'s, 't>(self) -> (r: Invocation<'s, 't>)
        ensures
            r@ == single_account_invocation(*self.token_program_id, self.mint, self.spec_data()),
    {
        let mut instruction_data = [0u8; 70];
        instruction_data[0] = 42;
        write_bytes(&mut instruction_data, 2, self.supply_elgamal);
        write_bytes(&mut instruction_data, 34, self.decryptable_supply);
        assert(instruction_data@ =~= initialize_confidential_mint_burn_data(
            self.supply_elgamal@,
            self.decryptable_supply@,
        ));
        invoke_on(self.token_program_id, self.mint, &instruction_data)
    }
}

/// Arguments to initialize the confidential transfer extension of a mint.
pub struct InitializeConfidentialTransfer<'a> {
    pub token_program_id: &'a Pubkey,
    pub mint: &'a NoStdAccountInfo,
    pub authority: Option<&'a Pubkey>,
    pub auto_approve_new_accounts: bool,
    pub auditor_elgamal: Option<&'a [u8; 32]>,
}

/// An optional ElGamal key, or 32 zero bytes when absent.
pub open spec fn elgamal_or_zeros(key: Option<&[u8; 32]>) -> Seq<u8> {
    match key {
        Some(k) => k@,
        None => zeros(32),
    }
}

/// Instruction data of `ConfidentialTransferExtension::InitializeMint`: selector 27, the
/// initialize selector 0, the authority (or zeros), the auto-approve flag and the auditor key (or
/// zeros).
pub open spec fn initialize_confidential_transfer_data(
    authority: Option<&Pubkey>,
    auto_approve_new_accounts: bool,
    auditor_elgamal: Option<&[u8; 32]>,
) -> Seq<u8> {
    seq![27u8, 0u8] + key_or_zeros(authority) + seq![
        if auto_approve_new_accounts {
            1u8
        } else {
            0u8
        },
    ] + elgamal_or_zeros(auditor_elgamal)
}

impl<'a> InitializeConfidentialTransfer<'a> {
    /// The instruction data.
    pub open spec fn spec_data(self) -> Seq<u8> {
        initialize_confidential_transfer_data(
            self.authority,
            self.auto_approve_new_accounts,
            self.auditor_elgamal,
        )
    }

    /// The invocation that initializes the confidential transfer extension (selector 27).
    pub fn into_invoke<'s, 't>(self) -> (r: Invocation<'s, 't>)
        ensures
            r@ == single_account_invocation(*self.token_program_id, self.mint, self.spec_data()),
    {
        let authority = unwrap_or_default_pubkey(self.authority);
        let zero_key = [0u8; 32];
        let auditor_elgamal: &[u8; 32] = match self.auditor_elgamal {
            Some(k) => k,
            None => &zero_key,
        };
        let mut instruction_data = [0u8; 67];
        instruction_data[0] = 27;
        let a = authority.to_bytes();
        write_bytes(&mut instruction_data, 2, &a);
        instruction_data[34] = if self.auto_approve_new_accounts {
            1
        } else {
            0
        };
        write_bytes(&mut instruction_data, 35, auditor_elgamal);
        assert(zero_key@ =~= zeros(32));
        assert(instruction_data@ =~= initialize_confidential_transfer_data(
            self.authority,
            self.auto_approve_new_accounts,
            self.auditor_elgamal,
        ));
        invoke_on(self.token_program_id, self.mint, &instruction_data)
    }
}

/// Arguments to initialize the confidential transfer fee extension of a mint.
pub struct InitializeConfidentialTransferFeeConfig<'a> {
    pub token_program_id: &'a Pubkey,
    pub mint: &'a NoStdAccountInfo,
    pub authority: Option<&'a Pubkey>,
    pub withdraw_withheld_authority_elgamal: &'a [u8; 32],
}

/// Instruction data of `ConfidentialTransferFeeExtension::InitializeConfidentialTransferFeeConfig`:
/// selector 37, the initialize selector 0, the authority (or zeros) and the ElGamal key of the
/// withdraw-withheld authority.
pub open spec fn initialize_confidential_transfer_fee_config_data(
    authority: Option<&Pubkey>,
    withdraw_withheld_authority_elgamal: Seq<u8>,
) -> Seq<u8> {
    seq![37u8, 0u8] + key_or_zeros(authority) + withdraw_withheld_authority_elgamal
}

impl<'a> InitializeConfidentialTransferFeeConfig<'a> {
    /// The instruction data.
    pub open spec fn spec_data(self) -> Seq<u8> {
        initialize_confidential_transfer_fee_config_data(
            self.authority,
            self.withdraw_withheld_authority_elgamal@,
        )
    }

    /// The invocation that initializes the confidential transfer fee extension (selector 37).
    pub fn into_invoke<'s, 't>(self) -> (r: Invocation<'s, 't>)
        ensures
            r@ == single_account_invocation(*self.token_program_id, self.mint, self.spec_data()),
    {
        let authority = unwrap_or_default_pubkey(self.authority);
        let mut instruction_data = [0u8; 66];
        instruction_data[0] = 37;
        let a = authority.to_bytes();
        write_bytes(&mut instruction_data, 2, &a);
        write_bytes(&mut instruction_data, 34, self.withdraw_withheld_authority_elgamal);
        assert(instruction_data@ =~= initialize_confidential_transfer_fee_config_data(
            self.authority,
            self.withdraw_withheld_authority_elgamal@,
        ));
        invoke_on(self.token_program_id, self.mint, &instruction_data)
    }
}

/// Arguments to initialize the group pointer extension of a mint.
pub struct InitializeGroupPointer<'a> {
    pub token_program_id: &'a Pubkey,
    pub mint: &'a NoStdAccountInfo,
    pub authority: Option<&'a Pubkey>,
    pub group: Option<&'a Pubkey>,
}

impl<'a> InitializeGroupPointer<'a> {
    /// The instruction data.
    pub open spec fn spec_data(self) -> Seq<u8> {
        initialize_pointer_data(40, key_or_zeros(self.authority), key_or_zeros(self.group))
    }

    /// The invocation that initializes the group pointer extension (selector 40).
    pub fn into_invoke<'s, 't>(self) -> (r: Invocation<'s, 't>)
        ensures
            r@ == single_account_invocation(*self.token_program_id, self.mint, self.spec_data()),
    {
        let instruction_data = serialize_initialize_pointer_instruction_data(
            40,
            &unwrap_or_default_pubkey(self.authority),
            &unwrap_or_default_pubkey(self.group),
        );
        invoke_on(self.token_program_id, self.mint, &instruction_data)
    }
}

/// Arguments to initialize the group member pointer extension of a mint.
pub struct InitializeGroupMemberPointer<'a> {
    pub token_program_id: &'a Pubkey,
    pub mint: &'a NoStdAccountInfo,
    pub authority: Option<&'a Pubkey>,
    pub group_member: Option<&'a Pubkey>,
}

impl<'a> InitializeGroupMemberPointer<'a> {
    /// The instruction data.
    pub open spec fn spec_data(self) -> Seq<u8> {
        initialize_pointer_data(41, key_or_zeros(self.authority), key_or_zeros(self.group_member))
    }

    /// The invocation that initializes the group member pointer extension (selector 41).
    pub fn into_invoke<'s, 't>(self) -> (r: Invocation<'s, 't>)
        ensures
            r@ == single_account_invocation(*self.token_program_id, self.mint, self.spec_data()),
    {
        let instruction_data = serialize_initialize_pointer_instruction_data(
            41,
            &unwrap_or_default_pubkey(self.authority),
            &unwrap_or_default_pubkey(self.group_member),
        );
        invoke_on(self.token_program_id, self.mint, &instruction_data)
    }
}

/// Arguments to initialize the metadata pointer extension of a mint.
pub struct InitializeMetadataPointer<'a> {
    pub token_program_id: &'a Pubkey,
    pub mint: &'a NoStdAccountInfo,
    pub authority: Option<&'a Pubkey>,
    pub metadata: Option<&'a Pubkey>,
}

impl<'a> InitializeMetadataPointer<'a> {
    /// The instruction data.
    pub open spec fn spec_data(self) -> Seq<u8> {
        initialize_pointer_data(39, key_or_zeros(self.authority), key_or_zeros(self.metadata))
    }

    /// The invocation that initializes the metadata pointer extension (selector 39).
    pub fn into_invoke<'s, 't>(self) -> (r: Invocation<'s, 't>)
        ensures
            r@ == single_account_invocation(*self.token_program_id, self.mint, self.spec_data()),
    {
        let instruction_data = serialize_initialize_pointer_instruction_data(
            39,
            &unwrap_or_default_pubkey(self.authority),
            &unwrap_or_default_pubkey(self.metadata),
        );
        invoke_on(self.token_program_id, self.mint, &instruction_data)
    }
}

/// Arguments to initialize the transfer hook extension of a mint.
pub struct InitializeTransferHook<'a> {
    pub token_program_id: &'a Pubkey,
    pub mint: &'a NoStdAccountInfo,
    pub authority: Option<&'a Pubkey>,
    pub program_id: Option<&'a Pubkey>,
}

impl<'a> InitializeTransferHook<'a> {
    /// The instruction data.
    pub open spec fn spec_data(self) -> Seq<u8> {
        initialize_pointer_data(36, key_or_zeros(self.authority), key_or_zeros(self.program_id))
    }

    /// The invocation that initializes the transfer hook extension (selector 36).
    pub fn into_invoke<'s, 't>(self) -> (r: Invocation<'s, 't>)
        ensures
            r@ == single_account_invocation(*self.token_program_id, self.mint, self.spec_data()),
    {
        let instruction_data = serialize_initialize_pointer_instruction_data(
            36,
            &unwrap_or_default_pubkey(self.authority),
            &unwrap_or_default_pubkey(self.program_id),
        );
        invoke_on(self.token_program_id, self.mint, &instruction_data)
    }
}

/// Arguments to initialize the immutable owner extension of a token account.
pub struct InitializeImmutableOwner<'a> {
    pub token_program_id: &'a Pubkey,
    pub account: &'a NoStdAccountInfo,
}

impl<'a> InitializeImmutableOwner<'a> {
    /// The instruction data.
    pub open spec fn spec_data(self) -> Seq<u8> {
        seq![22u8]
    }

    /// The `InitializeImmutableOwner` invocation (selector 22).
    pub fn into_invoke<'s, 't>(self) -> (r: Invocation<'s, 't>)
        ensures
            r@ == single_account_invocation(*self.token_program_id, self.account, self.spec_data()),
    {
        let instruction_data = [22u8];
        assert(instruction_data@ =~= seq![22u8]);
        invoke_on(self.token_program_id, self.account, &instruction_data)
    }
}

/// Arguments to initialize the non-transferable extension of a mint.
pub struct InitializeNonTransferable<'a> {
    pub token_program_id: &'a Pubkey,
    pub mint: &'a NoStdAccountInfo,
}

impl<'a> InitializeNonTransferable<'a> {
    /// The instruction data.
    pub open spec fn spec_data(self) -> Seq<u8> {
        seq![32u8]
    }

    /// The `InitializeNonTransferableMint` invocation (selector 32).
    pub fn into_invoke<'s, 't>(self) -> (r: Invocation<'s, 't>)
        ensures
            r@ == single_account_invocation(*self.token_program_id, self.mint, self.spec_data()),
    {
        let instruction_data = [32u8];
        assert(instruction_data@ =~= seq![32u8]);
        invoke_on(self.token_program_id, self.mint, &instruction_data)
    }
}

/// Arguments to initialize the permanent delegate extension of a mint.
pub struct InitializePermanentDelegate<'a> {
    pub token_program_id: &'a Pubkey,
    pub mint: &'a NoStdAccountInfo,
    pub delegate: &'a Pubkey,
}

impl<'a> InitializePermanentDelegate<'a> {
    /// The instruction data.
    pub open spec fn spec_data(self) -> Seq<u8> {
        authority_data(35, *self.delegate)
    }

    /// The `InitializePermanentDelegate` invocation (selector 35).
    pub fn into_invoke<'s, 't>(self) -> (r: Invocation<'s, 't>)
        ensures
            r@ == single_account_invocation(*self.token_program_id, self.mint, self.spec_data()),
    {
        let instruction_data = serialize_authority_instruction_data(35, self.delegate);
        invoke_on(self.token_program_id, self.mint, &instruction_data)
    }
}

/// Arguments to initialize the transfer fee extension of a mint.
pub struct InitializeTransferFeeConfig<'a> {
    pub token_program_id: &'a Pubkey,
    pub mint: &'a NoStdAccountInfo,
    pub config_authority: Option<&'a Pubkey>,
    pub withdraw_withheld_authority: Option<&'a Pubkey>,
    pub basis_points: u16,
    pub maximum_fee: u64,
}

/// An optional address encoded compactly: `1` then the address when present, a single `0` when
/// absent.
pub open spec fn compact_option_pubkey(key: Option<&Pubkey>) -> Seq<u8> {
    match key {
        Some(k) => seq![1u8] + k@,
        None => seq![0u8],
    }
}

/// Instruction data of `TransferFeeExtension::InitializeTransferFeeConfig`, 78 bytes: selector
/// 26, the initialize selector 0, both optional authorities in compact form, the basis points and
/// the maximum fee, then zeros up to the length that two present authorities would fill.
pub open spec fn initialize_transfer_fee_config_data(
    config_authority: Option<&Pubkey>,
    withdraw_withheld_authority: Option<&Pubkey>,
    basis_points: u16,
    maximum_fee: u64,
) -> Seq<u8> {
    let body = seq![26u8, 0u8] + compact_option_pubkey(config_authority) + compact_option_pubkey(
        withdraw_withheld_authority,
    ) + le_bytes_u16(basis_points) + le_bytes_u64(maximum_fee);
    body + zeros((78 - body.len()) as nat)
}

/// Writes an optional address in compact form at `at` into a buffer whose bytes from there on are
/// zero, and returns the position after it.
fn write_compact_option_pubkey(buf: &mut [u8; 78], at: usize, key: Option<&Pubkey>) -> (r: usize)
    requires
        at + 33 <= 78,
        forall|k: int| at <= k < 78 ==> old(buf)@[k] == 0u8,
    ensures
        r == at + compact_option_pubkey(key).len(),
        final(buf)@ =~= old(buf)@.take(at as int) + compact_option_pubkey(key) + zeros(
            (78 - r) as nat,
        ),
{
    let ghost orig = buf@;
    match key {
        Some(k) => {
            buf[at] = 1;
            let bytes = k.to_bytes();
            write_bytes(buf, at + 1, &bytes);
            assert(buf@ =~= orig.take(at as int) + compact_option_pubkey(key) + zeros(
                (78 - (at + 33)) as nat,
            ));
            at + 33
        },
        None => {
            assert(buf@ =~= orig.take(at as int) + compact_option_pubkey(key) + zeros(
                (78 - (at + 1)) as nat,
            ));
            at + 1
        },
    }
}

impl<'a> InitializeTransferFeeConfig<'a> {
    /// The instruction data.
    pub open spec fn spec_data(self) -> Seq<u8> {
        initialize_transfer_fee_config_data(
            self.config_authority,
            self.withdraw_withheld_authority,
            self.basis_points,
            self.maximum_fee,
        )
    }

    /// The invocation that initializes the transfer fee extension (selector 26).
    pub fn into_invoke<'s, 't>(self) -> (r: Invocation<'s, 't>)
        ensures
            r@ == single_account_invocation(*self.token_program_id, self.mint, self.spec_data()),
    {
        let mut instruction_data = [0u8; 78];
        instruction_data[0] = 26;
        let ghost start = instruction_data@.take(2);
        let index = write_compact_option_pubkey(&mut instruction_data, 2, self.config_authority);
        let index = write_compact_option_pubkey(
            &mut instruction_data,
            index,
            self.withdraw_withheld_authority,
        );
        let ghost before_amounts = instruction_data@;
        let bp = u16_to_le_bytes(self.basis_points);
        write_bytes(&mut instruction_data, index, &bp);
        let fee = u64_to_le_bytes(self.maximum_fee);
        write_bytes(&mut instruction_data, index + 2, &fee);
        assert(instruction_data@ =~= initialize_transfer_fee_config_data(
            self.config_authority,
            self.withdraw_withheld_authority,
            self.basis_points,
            self.maximum_fee,
        ));
        invoke_on(self.token_program_id, self.mint, &instruction_data)
    }
}

/// An invocation of the token program on one account names that account alone, with its own
/// privileges, carries the data as given and has no signers.
pub proof fn lemma_single_account_invocation_layout(
    token_program_id: Pubkey,
    account: &NoStdAccountInfo,
    data: Seq<u8>,
)
    ensures
        single_account_invocation(token_program_id, account, data).program_id == token_program_id@,
        single_account_invocation(token_program_id, account, data).accounts == seq![
            account.spec_meta(),
        ],
        single_account_invocation(token_program_id, account, data).infos == seq![
            account.spec_info(),
        ],
        single_account_invocation(token_program_id, account, data).data == data,
        single_account_invocation(token_program_id, account, data).signers_seeds.len() == 0,
{
    assert(crate::cpi::metas_of(seq![account]) =~= seq![account.spec_meta()]);
    assert(crate::cpi::infos_of(seq![account]) =~= seq![account.spec_info()]);
}

/// `InitializeMintCloseAuthority` data: selector 25, then `1` and the close authority, or `0`
/// and 32 zeros.
pub proof fn lemma_initialize_mint_close_authority_data(args: InitializeMintCloseAuthority)
    ensures
        args.spec_data().len() == 34,
        args.spec_data()[0] == 25u8,
        args.spec_data()[1] == (if args.authority is Some { 1u8 } else { 0u8 }),
        args.spec_data().subrange(2, 34) == key_or_zeros(args.authority),
{
    assert(args.spec_data().subrange(2, 34) =~= key_or_zeros(args.authority));
}

/// `InitializeConfidentialMintBurn` data: selector 42, the initialize selector 0, the supply
/// ElGamal key, then the decryptable supply.
pub proof fn lemma_initialize_confidential_mint_burn_data(args: InitializeConfidentialMintBurn)
    ensures
        args.spec_data().len() == 70,
        args.spec_data()[0] == 42u8,
        args.spec_data()[1] == 0u8,
        args.spec_data().subrange(2, 34) == args.supply_elgamal@,
        args.spec_data().subrange(34, 70) == args.decryptable_supply@,
{
    assert(args.spec_data().subrange(2, 34) =~= args.supply_elgamal@);
    assert(args.spec_data().subrange(34, 70) =~= args.decryptable_supply@);
}

/// `InitializeConfidentialTransfer` data: selector 27, the initialize selector 0, the authority
/// (or 32 zeros), the auto-approve flag, then the auditor's ElGamal key (or 32 zeros).
pub proof fn lemma_initialize_confidential_transfer_data(args: InitializeConfidentialTransfer)
    ensures
        args.spec_data().len() == 67,
        args.spec_data()[0] == 27u8,
        args.spec_data()[1] == 0u8,
        args.spec_data().subrange(2, 34) == key_or_zeros(args.authority),
        args.spec_data()[34] == (if args.auto_approve_new_accounts { 1u8 } else { 0u8 }),
        args.spec_data().subrange(35, 67) == elgamal_or_zeros(args.auditor_elgamal),
{
    assert(args.spec_data().subrange(2, 34) =~= key_or_zeros(args.authority));
    assert(args.spec_data().subrange(35, 67) =~= elgamal_or_zeros(args.auditor_elgamal));
}

/// `InitializeConfidentialTransferFeeConfig` data: selector 37, the initialize selector 0, the
/// authority (or 32 zeros), then the withdraw-withheld authority's ElGamal key.
pub proof fn lemma_initialize_confidential_transfer_fee_config_data(
    args: InitializeConfidentialTransferFeeConfig,
)
    ensures
        args.spec_data().len() == 66,
        args.spec_data()[0] == 37u8,
        args.spec_data()[1] == 0u8,
        args.spec_data().subrange(2, 34) == key_or_zeros(args.authority),
        args.spec_data().subrange(34, 66) == args.withdraw_withheld_authority_elgamal@,
{
    assert(args.spec_data().subrange(2, 34) =~= key_or_zeros(args.authority));
    assert(args.spec_data().subrange(34, 66) =~= args.withdraw_withheld_authority_elgamal@);
}

/// `InitializeGroupPointer` data: selector 40, the initialize selector 0, the authority (or 32 zeros), then
/// the group address (or 32 zeros).
pub proof fn lemma_initialize_group_pointer_data(args: InitializeGroupPointer)
    ensures
        args.spec_data().len() == 66,
        args.spec_data()[0] == 40u8,
        args.spec_data()[1] == 0u8,
        args.spec_data().subrange(2, 34) == key_or_zeros(args.authority),
        args.spec_data().subrange(34, 66) == key_or_zeros(args.group),
{
    assert(args.spec_data().subrange(2, 34) =~= key_or_zeros(args.authority));
    assert(args.spec_data().subrange(34, 66) =~= key_or_zeros(args.group));
}

/// `InitializeGroupMemberPointer` data: selector 41, the initialize selector 0, the authority (or 32 zeros), then
/// the group_member address (or 32 zeros).
pub proof fn lemma_initialize_group_member_pointer_data(args: InitializeGroupMemberPointer)
    ensures
        args.spec_data().len() == 66,
        args.spec_data()[0] == 41u8,
        args.spec_data()[1] == 0u8,
        args.spec_data().subrange(2, 34) == key_or_zeros(args.authority),
        args.spec_data().subrange(34, 66) == key_or_zeros(args.group_member),
{
    assert(args.spec_data().subrange(2, 34) =~= key_or_zeros(args.authority));
    assert(args.spec_data().subrange(34, 66) =~= key_or_zeros(args.group_member));
}

/// `InitializeMetadataPointer` data: selector 39, the initialize selector 0, the authority (or 32 zeros), then
/// the metadata address (or 32 zeros).
pub proof fn lemma_initialize_metadata_pointer_data(args: InitializeMetadataPointer)
    ensures
        args.spec_data().len() == 66,
        args.spec_data()[0] == 39u8,
        args.spec_data()[1] == 0u8,
        args.spec_data().subrange(2, 34) == key_or_zeros(args.authority),
        args.spec_data().subrange(34, 66) == key_or_zeros(args.metadata),
{
    assert(args.spec_data().subrange(2, 34) =~= key_or_zeros(args.authority));
    assert(args.spec_data().subrange(34, 66) =~= key_or_zeros(args.metadata));
}

/// `InitializeTransferHook` data: selector 36, the initialize selector 0, the authority (or 32 zeros), then
/// the program_id address (or 32 zeros).
pub proof fn lemma_initialize_transfer_hook_data(args: InitializeTransferHook)
    ensures
        args.spec_data().len() == 66,
        args.spec_data()[0] == 36u8,
        args.spec_data()[1] == 0u8,
        args.spec_data().subrange(2, 34) == key_or_zeros(args.authority),
        args.spec_data().subrange(34, 66) == key_or_zeros(args.program_id),
{
    assert(args.spec_data().subrange(2, 34) =~= key_or_zeros(args.authority));
    assert(args.spec_data().subrange(34, 66) =~= key_or_zeros(args.program_id));
}

/// `InitializeImmutableOwner` is selector 22 alone, `InitializeNonTransferableMint` selector 32
/// alone, and `InitializePermanentDelegate` selector 35 then the delegate.
pub proof fn lemma_single_selector_extension_data(
    immutable_owner: InitializeImmutableOwner,
    non_transferable: InitializeNonTransferable,
    permanent_delegate: InitializePermanentDelegate,
)
    ensures
        immutable_owner.spec_data() == seq![22u8],
        non_transferable.spec_data() == seq![32u8],
        permanent_delegate.spec_data().len() == 33,
        permanent_delegate.spec_data()[0] == 35u8,
        permanent_delegate.spec_data().subrange(1, 33) == permanent_delegate.delegate@,
{
    assert(permanent_delegate.spec_data().subrange(1, 33) =~= permanent_delegate.delegate@);
}

/// `InitializeTransferFeeConfig` data, 78 bytes: selector 26, the initialize selector 0, the
/// configuration authority as `1` and its address or a lone `0`, the withdraw-withheld
/// authority likewise, the basis points and the maximum fee in little-endian, then zeros.
pub proof fn lemma_initialize_transfer_fee_config_data(args: InitializeTransferFeeConfig)
    ensures
        ({
            let d = args.spec_data();
            let c: int = if args.config_authority is Some { 33 } else { 1 };
            let w: int = if args.withdraw_withheld_authority is Some { 33 } else { 1 };
            &&& d.len() == 78
            &&& d[0] == 26u8
            &&& d[1] == 0u8
            &&& d[2] == (if args.config_authority is Some { 1u8 } else { 0u8 })
            &&& (args.config_authority matches Some(k) ==> d.subrange(3, 35) == k@)
            &&& d[2 + c] == (if args.withdraw_withheld_authority is Some { 1u8 } else { 0u8 })
            &&& (args.withdraw_withheld_authority matches Some(k) ==> d.subrange(3 + c, 35 + c)
                == k@)
            &&& u16_from_le(d.subrange(2 + c + w, 4 + c + w)) == args.basis_points
            &&& u64_from_le(d.subrange(4 + c + w, 12 + c + w)) == args.maximum_fee
            &&& forall|i: int| 12 + c + w <= i < 78 ==> #[trigger] d[i] == 0u8
        }),
{
    lemma_u16_le_roundtrip(args.basis_points);
    lemma_u64_le_roundtrip(args.maximum_fee);
    let d = args.spec_data();
    let c: int = if args.config_authority is Some { 33 } else { 1 };
    let w: int = if args.withdraw_withheld_authority is Some { 33 } else { 1 };
    let body = seq![26u8, 0u8] + compact_option_pubkey(args.config_authority)
        + compact_option_pubkey(args.withdraw_withheld_authority) + le_bytes_u16(args.basis_points)
        + le_bytes_u64(args.maximum_fee);
    assert(body.len() == 12 + c + w);
    assert(d == body + zeros((78 - body.len()) as nat));
    assert(d.subrange(2 + c + w, 4 + c + w) =~= le_bytes_u16(args.basis_points));
    assert(d.subrange(4 + c + w, 12 + c + w) =~= le_bytes_u64(args.maximum_fee));
    if let Some(k) = args.config_authority {
        assert(d.subrange(3, 35) =~= k@);
    }
    if let Some(k) = args.withdraw_withheld_authority {
        assert(d.subrange(3 + c, 35 + c) =~= k@);
    }
}

} // verus!
