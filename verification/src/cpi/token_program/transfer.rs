//! Token transfers, plain or checked against the mint's decimals.

use vstd::prelude::*;

use crate::bytes::{le_bytes_u64, lemma_u64_le_roundtrip, u64_from_le};
use crate::cpi::token_program::{
    amount_data, checked_amount_data, serialize_amount_instruction_data,
    serialize_checked_amount_instruction_data, token_2022_program_id, token_2022_program_id_bytes,
};
use crate::cpi::{
    authority_invocation, invocation, invoke_with_authority, present_seeds, CpiAuthority,
    CpiInstruction, Invocation, InvocationView,
};
use crate::entrypoint::{AccountInfoC, AccountMetaC, NoStdAccountInfo};
use crate::program_error::ProgramResult;
use crate::pubkey::Pubkey;

verus! {

/// The most additional accounts a checked transfer can pass along without heap allocation.
pub const MAX_ADDITIONAL_ACCOUNTS_NOALLOC: usize = 12;

/// Arguments of a token transfer: `Transfer` when `checked` is [None], `TransferChecked`
/// otherwise.
pub struct Transfer<'a, 'b: 'a> {
    pub token_program_id: &'b Pubkey,
    pub source: &'a NoStdAccountInfo,
    pub destination: &'a NoStdAccountInfo,
    /// The source's owner or delegate.
    pub authority: CpiAuthority<'a, 'b>,
    pub amount: u64,
    pub checked: Option<UseTransferChecked<'a>>,
}

/// What a checked transfer adds: the mint, its decimals and accounts that a transfer hook needs.
pub struct UseTransferChecked<'a> {
    pub mint: &'a NoStdAccountInfo,
    pub decimals: u8,
    /// Passed along only to the Token Extensions program, and only when not empty.
    pub additional_accounts: Option<&'a [NoStdAccountInfo]>,
}

/// Arguments of `TransferChecked`, which transfers an amount checked against the mint's
/// decimals.
pub struct TransferChecked<'a, 'b: 'a> {
    pub token_program_id: &'b Pubkey,
    pub source: &'a NoStdAccountInfo,
    pub mint: &'a NoStdAccountInfo,
    pub destination: &'a NoStdAccountInfo,
    pub authority: CpiAuthority<'a, 'b>,
    pub amount: u64,
    pub decimals: u8,
    pub additional_accounts: Option<&'a [NoStdAccountInfo]>,
}

/// The accounts passed along after the authority: the additional accounts when the program is
/// Token Extensions and there are some, none otherwise.
pub open spec fn passed_additional_accounts(
    token_program_id: Pubkey,
    additional_accounts: Option<&[NoStdAccountInfo]>,
) -> Seq<NoStdAccountInfo> {
    match additional_accounts {
        Some(infos) => if token_program_id@ == token_2022_program_id_bytes() && infos@.len() > 0 {
            infos@
        } else {
            Seq::empty()
        },
        None => Seq::empty(),
    }
}

/// The `TransferChecked` invocation: source, mint, destination and the signing authority, then
/// the passed-along additional accounts.
pub open spec fn transfer_checked_invocation(
    token_program_id: Pubkey,
    source: NoStdAccountInfo,
    mint: NoStdAccountInfo,
    destination: NoStdAccountInfo,
    authority: CpiAuthority,
    amount: u64,
    decimals: u8,
    additional_accounts: Option<&[NoStdAccountInfo]>,
) -> InvocationView {
    let extra = passed_additional_accounts(token_program_id, additional_accounts);
    invocation(
        token_program_id@,
        seq![
            source.spec_meta(),
            mint.spec_meta(),
            destination.spec_meta(),
            authority.account.spec_meta_signer(),
        ] + extra.map_values(|a: NoStdAccountInfo| a.spec_meta()),
        checked_amount_data(12, amount, decimals),
        seq![
            source.spec_info(),
            mint.spec_info(),
            destination.spec_info(),
            authority.account.spec_info(),
        ] + extra.map_values(|a: NoStdAccountInfo| a.spec_info()),
        present_seeds(seq![authority.signer_seeds]),
    )
}

/// The `TransferChecked` invocation (selector 12).
fn invoke_transfer_checked<'a, 'b>(
    token_program_id: &Pubkey,
    source: &NoStdAccountInfo,
    destination: &NoStdAccountInfo,
    authority: CpiAuthority<'a, 'b>,
    amount: u64,
    checked: UseTransferChecked,
) -> (r: Invocation<'a, 'b>)
    ensures
        r@ == transfer_checked_invocation(
            *token_program_id,
            *source,
            *checked.mint,
            *destination,
            authority,
            amount,
            checked.decimals,
            checked.additional_accounts,
        ),
{
    let UseTransferChecked { mint, decimals, additional_accounts } = checked;
    let instruction_data = serialize_checked_amount_instruction_data(12, amount, decimals);
    let mut accounts: Vec<AccountMetaC> = Vec::new();
    accounts.push(source.to_meta_c());
    accounts.push(mint.to_meta_c());
    accounts.push(destination.to_meta_c());
    accounts.push(authority.account.to_meta_c_signer());
    let mut infos: Vec<AccountInfoC> = Vec::new();
    infos.push(source.to_info_c());
    infos.push(mint.to_info_c());
    infos.push(destination.to_info_c());
    infos.push(authority.account.to_info_c());
    let ghost base_metas = accounts@;
    let ghost base_infos = infos@;
    let ghost extra = passed_additional_accounts(*token_program_id, additional_accounts);
    let empty: &[NoStdAccountInfo] = &[];
    let passed: &[NoStdAccountInfo] = match additional_accounts {
        Some(account_infos) => if *token_program_id == token_2022_program_id()
            && account_infos.len() != 0 {
            account_infos
        } else {
            empty
        },
        None => empty,
    };
    assert(passed@ =~= extra);
    let mut i: usize = 0;
    while i < passed.len()
        invariant
            i <= passed@.len(),
            accounts@ == base_metas + passed@.take(i as int).map_values(
                |a: NoStdAccountInfo| a.spec_meta(),
            ),
            infos@ == base_infos + passed@.take(i as int).map_values(
                |a: NoStdAccountInfo| a.spec_info(),
            ),
        decreases passed@.len() - i,
    {
        accounts.push(passed[i].to_meta_c());
        infos.push(passed[i].to_info_c());
        i = i + 1;
        assert(accounts@ =~= base_metas + passed@.take(i as int).map_values(
            |a: NoStdAccountInfo| a.spec_meta(),
        ));
        assert(infos@ =~= base_infos + passed@.take(i as int).map_values(
            |a: NoStdAccountInfo| a.spec_info(),
        ));
    }
    assert(passed@.take(passed@.len() as int) =~= passed@);
    assert(base_metas =~= seq![
        source.spec_meta(),
        mint.spec_meta(),
        destination.spec_meta(),
        authority.account.spec_meta_signer(),
    ]);
    assert(base_infos =~= seq![
        source.spec_info(),
        mint.spec_info(),
        destination.spec_info(),
        authority.account.spec_info(),
    ]);
    assert(accounts@ == base_metas + extra.map_values(|a: NoStdAccountInfo| a.spec_meta()));
    assert(infos@ == base_infos + extra.map_values(|a: NoStdAccountInfo| a.spec_info()));
    let possible = [authority.signer_seeds];
    assert(possible@ =~= seq![authority.signer_seeds]);
    CpiInstruction {
        program_id: token_program_id,
        accounts: accounts.as_slice(),
        data: &instruction_data,
    }.invoke_possibly_signed(infos.as_slice(), &possible)
}

impl<'a, 'b: 'a> Transfer<'a, 'b> {
    /// The transfer invocation: `Transfer` (selector 3) on source, destination and authority,
    /// or `TransferChecked` as [TransferChecked] builds it.
    pub open spec fn spec_invocation(self) -> InvocationView {
        match self.checked {
            Some(c) => transfer_checked_invocation(
                *self.token_program_id,
                *self.source,
                *c.mint,
                *self.destination,
                self.authority,
                self.amount,
                c.decimals,
                c.additional_accounts,
            ),
            None => authority_invocation(
                self.token_program_id@,
                seq![self.source, self.destination],
                self.authority,
                amount_data(3, self.amount),
            ),
        }
    }

    /// The transfer invocation: `Transfer` (selector 3) on source, destination and authority,
    /// or `TransferChecked` as [TransferChecked] builds it.
    pub fn into_invoke(self) -> (r: Invocation<'a, 'b>)
        ensures
            r@ == self.spec_invocation(),
    {
        let Self { token_program_id, source, destination, authority, amount, checked } = self;
        match checked {
            Some(checked) => invoke_transfer_checked(
                token_program_id,
                source,
                destination,
                authority,
                amount,
                checked,
            ),
            None => {
                let instruction_data = serialize_amount_instruction_data(3, amount);
                let accounts = [source, destination];
                assert(accounts@ =~= seq![source, destination]);
                invoke_with_authority(token_program_id, &accounts, authority, &instruction_data)
            },
        }
    }
}

impl<'a, 'b: 'a> TransferChecked<'a, 'b> {
    /// The `TransferChecked` invocation (selector 12).
    pub open spec fn spec_invocation(self) -> InvocationView {
        transfer_checked_invocation(
            *self.token_program_id,
            *self.source,
            *self.mint,
            *self.destination,
            self.authority,
            self.amount,
            self.decimals,
            self.additional_accounts,
        )
    }

    /// The `TransferChecked` invocation (selector 12). Additional accounts are passed along
    /// only to the Token Extensions program, and only when there are some.
    pub fn try_into_invoke(self) -> (r: Result<Invocation<'a, 'b>, crate::program_error::ProgramError>)
        ensures
            r is Ok && r->Ok_0@ == self.spec_invocation(),
    {
        let Self {
            token_program_id,
            source,
            mint,
            destination,
            authority,
            amount,
            decimals,
            additional_accounts,
        } = self;
        Ok(
            invoke_transfer_checked(
                token_program_id,
                source,
                destination,
                authority,
                amount,
                UseTransferChecked { mint, decimals, additional_accounts },
            ),
        )
    }
}

/// A checked transfer names its accounts as the token programs read them: the source, the mint,
/// the destination (each with its own privileges), then the authority as signer, then only the
/// extra accounts that are passed along (none unless the program is Token Extensions), with the
/// infos in the same order; its data is selector 12, the amount in little-endian and the
/// decimals; it signs with the authority's seeds when it has some.
pub proof fn lemma_transfer_checked_layout(
    token_program_id: Pubkey,
    source: NoStdAccountInfo,
    mint: NoStdAccountInfo,
    destination: NoStdAccountInfo,
    authority: CpiAuthority,
    amount: u64,
    decimals: u8,
    additional_accounts: Option<&[NoStdAccountInfo]>,
)
    ensures
        ({
            let inv = transfer_checked_invocation(
                token_program_id,
                source,
                mint,
                destination,
                authority,
                amount,
                decimals,
                additional_accounts,
            );
            let extra = passed_additional_accounts(token_program_id, additional_accounts);
            &&& inv.program_id == token_program_id@
            &&& inv.accounts.len() == 4 + extra.len()
            &&& inv.infos.len() == inv.accounts.len()
            &&& inv.accounts[0] == source.spec_meta()
            &&& inv.accounts[1] == mint.spec_meta()
            &&& inv.accounts[2] == destination.spec_meta()
            &&& inv.accounts[3] == authority.account.spec_meta_signer()
            &&& inv.infos[0] == source.spec_info()
            &&& inv.infos[1] == mint.spec_info()
            &&& inv.infos[2] == destination.spec_info()
            &&& inv.infos[3] == authority.account.spec_info()
            &&& forall|i: int|
                0 <= i < extra.len() ==> inv.accounts[4 + i] == (#[trigger] extra[i]).spec_meta()
                    && inv.infos[4 + i] == extra[i].spec_info()
            &&& token_program_id@ != token_2022_program_id_bytes() ==> inv.accounts.len() == 4
            &&& additional_accounts is None ==> inv.accounts.len() == 4
            &&& inv.data.len() == 10
            &&& inv.data[0] == 12u8
            &&& u64_from_le(inv.data.subrange(1, 9)) == amount
            &&& inv.data[9] == decimals
            &&& inv.signers_seeds.len() == (if authority.signer_seeds is Some { 1nat } else { 0nat })
        }),
{
    lemma_u64_le_roundtrip(amount);
    crate::cpi::system_program::lemma_present_seeds_of_one(authority.signer_seeds);
    let d = checked_amount_data(12, amount, decimals);
    assert(d.subrange(1, 9) =~= le_bytes_u64(amount));
}

/// A plain transfer names the source then the destination (each with its own privileges), then
/// the authority as signer; its data is selector 3 then the amount in little-endian. A transfer
/// with [UseTransferChecked] is the checked transfer of the same accounts, amount and mint.
pub proof fn lemma_transfer_layout<'a, 'b>(args: Transfer<'a, 'b>)
    ensures
        args.checked is None ==> {
            let inv = args.spec_invocation();
            &&& inv.program_id == args.token_program_id@
            &&& inv.accounts == seq![
                args.source.spec_meta(),
                args.destination.spec_meta(),
                args.authority.account.spec_meta_signer(),
            ]
            &&& inv.infos == seq![
                args.source.spec_info(),
                args.destination.spec_info(),
                args.authority.account.spec_info(),
            ]
            &&& inv.data.len() == 9
            &&& inv.data[0] == 3u8
            &&& u64_from_le(inv.data.subrange(1, 9)) == args.amount
            &&& inv.signers_seeds.len() == (if args.authority.signer_seeds is Some {
                1nat
            } else {
                0nat
            })
        },
        args.checked matches Some(c) ==> args.spec_invocation() == (TransferChecked {
            token_program_id: args.token_program_id,
            source: args.source,
            mint: c.mint,
            destination: args.destination,
            authority: args.authority,
            amount: args.amount,
            decimals: c.decimals,
            additional_accounts: c.additional_accounts,
        }).spec_invocation(),
{
    if args.checked is None {
        crate::cpi::lemma_authority_invocation_layout(
            args.token_program_id@,
            seq![args.source, args.destination],
            args.authority,
            amount_data(3, args.amount),
        );
        crate::cpi::system_program::lemma_present_seeds_of_one(args.authority.signer_seeds);
        lemma_u64_le_roundtrip(args.amount);
        let inv = args.spec_invocation();
        assert(inv.accounts =~= seq![
            args.source.spec_meta(),
            args.destination.spec_meta(),
            args.authority.account.spec_meta_signer(),
        ]);
        assert(inv.infos =~= seq![
            args.source.spec_info(),
            args.destination.spec_info(),
            args.authority.account.spec_info(),
        ]);
        assert(amount_data(3, args.amount).subrange(1, 9) =~= le_bytes_u64(args.amount));
    }
}

/// `TransferChecked` names the source, the mint, the destination, then the authority as
/// signer; its data is selector 12, the amount and the decimals.
pub proof fn lemma_transfer_checked_args_layout<'a, 'b>(args: TransferChecked<'a, 'b>)
    ensures
        args.spec_invocation().program_id == args.token_program_id@,
        args.spec_invocation().accounts.len() >= 4,
        args.spec_invocation().accounts[0] == args.source.spec_meta(),
        args.spec_invocation().accounts[1] == args.mint.spec_meta(),
        args.spec_invocation().accounts[2] == args.destination.spec_meta(),
        args.spec_invocation().accounts[3] == args.authority.account.spec_meta_signer(),
        args.spec_invocation().infos[1] == args.mint.spec_info(),
        args.spec_invocation().infos[2] == args.destination.spec_info(),
        args.spec_invocation().data.len() == 10,
        args.spec_invocation().data[0] == 12u8,
        u64_from_le(args.spec_invocation().data.subrange(1, 9)) == args.amount,
        args.spec_invocation().data[9] == args.decimals,
{
    lemma_transfer_checked_layout(
        *args.token_program_id,
        *args.source,
        *args.mint,
        *args.destination,
        args.authority,
        args.amount,
        args.decimals,
        args.additional_accounts,
    );
}

} // verus!
