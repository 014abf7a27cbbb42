//! Invocations of the System program: allocating, assigning, transferring lamports and creating
//! accounts.

use vstd::prelude::*;

use crate::bytes::{le_bytes_u64, lemma_u64_le_roundtrip, u64_from_le, u64_to_le_bytes, write_bytes};
use crate::cpi::{
    invocation, invocation_views, present_seeds, seeds_or_empty, seeds_view, signers_view, somes,
    CpiAuthority, CpiInstruction, Invocation, InvocationView,
};
use crate::bytes::zeros;
use crate::discriminator::Discriminate;
use crate::entrypoint::{data_mut_borrowable, lamports_borrowable, NoStdAccountInfo};
use crate::program_error::ProgramError;
use crate::pubkey::Pubkey;

verus! {

/// The System program's address: 32 zero bytes.
pub open spec fn system_program_id_bytes() -> Seq<u8> {
    Seq::new(32, |i: int| 0u8)
}

/// The System program's address.
///
/// Reads `solana_program::system_program::ID`, declared there from the base-58 string
/// "11111111111111111111111111111111", which decodes to 32 zero bytes; this contract claims
/// exactly those bytes.
#[verifier::external_body]
pub(crate) fn system_program_id() -> (r: Pubkey)
    ensures
        r@ == system_program_id_bytes(),
{
    Pubkey(solana_program::system_program::ID.to_bytes())
}

/// Instruction data of `Allocate`: selector 8 as a little-endian `u32`, then the space.
pub open spec fn allocate_data(space: u64) -> Seq<u8> {
    seq![8u8, 0u8, 0u8, 0u8] + le_bytes_u64(space)
}

/// Instruction data of `Assign`: selector 1 as a little-endian `u32`, then the new owner.
pub open spec fn assign_data(owner: Pubkey) -> Seq<u8> {
    seq![1u8, 0u8, 0u8, 0u8] + owner@
}

/// Instruction data of `Transfer`: selector 2 as a little-endian `u32`, then the lamports.
pub open spec fn transfer_data(lamports: u64) -> Seq<u8> {
    seq![2u8, 0u8, 0u8, 0u8] + le_bytes_u64(lamports)
}

/// Instruction data of `CreateAccount`: selector 0 as a little-endian `u32`, the lamports, the
/// space and the owner.
pub open spec fn create_account_data(lamports: u64, space: u64, owner: Pubkey) -> Seq<u8> {
    seq![0u8, 0u8, 0u8, 0u8] + le_bytes_u64(lamports) + le_bytes_u64(space) + owner@
}

/// Serializes the data of `Allocate`.
pub fn serialize_allocate_instruction_data(space: u64) -> (r: [u8; 12])
    ensures
        r@ == allocate_data(space),
{
    let mut instruction_data = [0u8; 12];
    instruction_data[0] = 8;
    let le = u64_to_le_bytes(space);
    write_bytes(&mut instruction_data, 4, &le);
    assert(instruction_data@ =~= allocate_data(space));
    instruction_data
}

/// Serializes the data of `Assign`.
pub fn serialize_assign_instruction_data(owner: &Pubkey) -> (r: [u8; 36])
    ensures
        r@ == assign_data(*owner),
{
    let mut instruction_data = [0u8; 36];
    instruction_data[0] = 1;
    let bytes = owner.to_bytes();
    write_bytes(&mut instruction_data, 4, &bytes);
    assert(instruction_data@ =~= assign_data(*owner));
    instruction_data
}

/// Serializes the data of `Transfer`.
pub fn serialize_transfer_instruction_data(lamports: u64) -> (r: [u8; 12])
    ensures
        r@ == transfer_data(lamports),
{
    let mut instruction_data = [0u8; 12];
    instruction_data[0] = 2;
    let le = u64_to_le_bytes(lamports);
    write_bytes(&mut instruction_data, 4, &le);
    assert(instruction_data@ =~= transfer_data(lamports));
    instruction_data
}

/// Serializes the data of `CreateAccount`.
pub fn serialize_create_account_instruction_data(lamports: u64, space: u64, owner: &Pubkey) -> (r:
    [u8; 52])
    ensures
        r@ == create_account_data(lamports, space, *owner),
{
    let mut instruction_data = [0u8; 52];
    let le_lamports = u64_to_le_bytes(lamports);
    write_bytes(&mut instruction_data, 4, &le_lamports);
    let le_space = u64_to_le_bytes(space);
    write_bytes(&mut instruction_data, 12, &le_space);
    let bytes = owner.to_bytes();
    write_bytes(&mut instruction_data, 20, &bytes);
    assert(instruction_data@ =~= create_account_data(lamports, space, *owner));
    instruction_data
}

/// The `Allocate` invocation for `account`, signed with `signers_seeds`.
pub open spec fn allocate_invocation(
    account: NoStdAccountInfo,
    space: u64,
    signers_seeds: Seq<Seq<Seq<u8>>>,
) -> InvocationView {
    invocation(
        system_program_id_bytes(),
        seq![account.spec_meta_signer()],
        allocate_data(space),
        seq![account.spec_info()],
        signers_seeds,
    )
}

/// The `Assign` invocation for `to`, signed with `signers_seeds`.
pub open spec fn assign_invocation(
    to: NoStdAccountInfo,
    owner: Pubkey,
    signers_seeds: Seq<Seq<Seq<u8>>>,
) -> InvocationView {
    invocation(
        system_program_id_bytes(),
        seq![to.spec_meta_signer()],
        assign_data(owner),
        seq![to.spec_info()],
        signers_seeds,
    )
}

/// The `Transfer` invocation from `from` to `to`, signed with `signers_seeds`. The sender signs
/// (itself, or through its seeds when it is a program-derived address); the recipient keeps its
/// own privileges.
pub open spec fn transfer_invocation(
    from: NoStdAccountInfo,
    to: NoStdAccountInfo,
    lamports: u64,
    signers_seeds: Seq<Seq<Seq<u8>>>,
) -> InvocationView {
    invocation(
        system_program_id_bytes(),
        seq![from.spec_meta_signer(), to.spec_meta()],
        transfer_data(lamports),
        seq![from.spec_info(), to.spec_info()],
        signers_seeds,
    )
}

/// The `CreateAccount` invocation funding `to` from `from`, signed with `signers_seeds`. Both the
/// payer and the new account sign (themselves, or through their seeds).
pub open spec fn create_account_invocation(
    from: NoStdAccountInfo,
    to: NoStdAccountInfo,
    lamports: u64,
    space: u64,
    owner: Pubkey,
    signers_seeds: Seq<Seq<Seq<u8>>>,
) -> InvocationView {
    invocation(
        system_program_id_bytes(),
        seq![from.spec_meta_signer(), to.spec_meta_signer()],
        create_account_data(lamports, space, owner),
        seq![from.spec_info(), to.spec_info()],
        signers_seeds,
    )
}

/// Arguments of `Allocate`, which sizes a System-owned account.
pub struct Allocate<'a, 'b: 'a> {
    pub account: CpiAuthority<'a, 'b>,
    pub space: u64,
}

impl<'a, 'b: 'a> Allocate<'a, 'b> {
    /// The `Allocate` invocation, signed with the account's seeds if it has any.
    pub open spec fn spec_invocation(self) -> InvocationView {
        allocate_invocation(
            *self.account.account,
            self.space,
            present_seeds(seq![self.account.signer_seeds]),
        )
    }

    /// The `Allocate` invocation, signed with the account's seeds or with an empty list of seeds.
    pub open spec fn spec_unchecked_invocation(self) -> InvocationView {
        allocate_invocation(
            *self.account.account,
            self.space,
            seq![seeds_or_empty(self.account.signer_seeds)],
        )
    }

    /// The `Allocate` invocation, signed with the account's seeds if it has any.
    pub fn into_invoke(self) -> (r: Invocation<'a, 'b>)
        ensures
            r@ == self.spec_invocation(),
    {
        let Self { account, space } = self;
        let program_id = system_program_id();
        let instruction_data = serialize_allocate_instruction_data(space);
        let accounts = [account.account.to_meta_c_signer()];
        let infos = [account.account.to_info_c()];
        let possible = [account.signer_seeds];
        let r = CpiInstruction { program_id: &program_id, accounts: &accounts, data: &instruction_data }
            .invoke_possibly_signed(&infos, &possible);
        assert(accounts@ =~= seq![account.account.spec_meta_signer()]);
        assert(infos@ =~= seq![account.account.spec_info()]);
        assert(possible@ =~= seq![account.signer_seeds]);
        r
    }
}

/// The seeds of an optional signer, or an empty list of seeds.
pub fn unwrap_seeds_or_default<'a, 'b>(seeds: Option<&'a [&'b [u8]]>) -> (r: &'a [&'b [u8]])
    ensures
        seeds_view(r) == seeds_or_empty(seeds),
{
    match seeds {
        Some(s) => s,
        None => {
            let empty: &'a [&'b [u8]] = &[];
            assert(seeds_view(empty) =~= Seq::<Seq<u8>>::empty());
            empty
        },
    }
}

/// Allocates space for `account`, signing with its seeds or with an empty list of seeds.
pub fn invoke_allocate_unchecked<'a, 'b>(args: Allocate<'a, 'b>) -> (r: Invocation<'a, 'b>)
    ensures
        r@ == args.spec_unchecked_invocation(),
{
    let Allocate { account, space } = args;
    let program_id = system_program_id();
    let instruction_data = serialize_allocate_instruction_data(space);
    let accounts = [account.account.to_meta_c_signer()];
    let infos = [account.account.to_info_c()];
    let signers = [unwrap_seeds_or_default(account.signer_seeds)];
    let r = CpiInstruction { program_id: &program_id, accounts: &accounts, data: &instruction_data }
        .invoke_signed(&infos, &signers);
    assert(accounts@ =~= seq![account.account.spec_meta_signer()]);
    assert(infos@ =~= seq![account.account.spec_info()]);
    assert(signers_view(signers@) =~= seq![seeds_or_empty(account.signer_seeds)]);
    r
}

/// Arguments of `Assign`, which hands a System-owned account over to another program.
pub struct Assign<'a, 'b: 'a> {
    pub to: CpiAuthority<'a, 'b>,
    pub owner: &'a Pubkey,
}

impl<'a, 'b: 'a> Assign<'a, 'b> {
    /// The `Assign` invocation, signed with the account's seeds if it has any.
    pub open spec fn spec_invocation(self) -> InvocationView {
        assign_invocation(*self.to.account, *self.owner, present_seeds(seq![self.to.signer_seeds]))
    }

    /// The `Assign` invocation, signed with the account's seeds or with an empty list of seeds.
    pub open spec fn spec_unchecked_invocation(self) -> InvocationView {
        assign_invocation(*self.to.account, *self.owner, seq![seeds_or_empty(self.to.signer_seeds)])
    }

    /// The `Assign` invocation, signed with the account's seeds if it has any.
    pub fn into_invoke(self) -> (r: Invocation<'a, 'b>)
        ensures
            r@ == self.spec_invocation(),
    {
        let Self { to, owner } = self;
        let program_id = system_program_id();
        let instruction_data = serialize_assign_instruction_data(owner);
        let accounts = [to.account.to_meta_c_signer()];
        let infos = [to.account.to_info_c()];
        let possible = [to.signer_seeds];
        let r = CpiInstruction { program_id: &program_id, accounts: &accounts, data: &instruction_data }
            .invoke_possibly_signed(&infos, &possible);
        assert(accounts@ =~= seq![to.account.spec_meta_signer()]);
        assert(infos@ =~= seq![to.account.spec_info()]);
        assert(possible@ =~= seq![to.signer_seeds]);
        r
    }
}

/// Assigns `to` to `owner`, signing with its seeds or with an empty list of seeds.
pub fn invoke_assign_unchecked<'a, 'b>(args: Assign<'a, 'b>) -> (r: Invocation<'a, 'b>)
    ensures
        r@ == args.spec_unchecked_invocation(),
{
    let Assign { to, owner } = args;
    let program_id = system_program_id();
    let instruction_data = serialize_assign_instruction_data(owner);
    let accounts = [to.account.to_meta_c_signer()];
    let infos = [to.account.to_info_c()];
    let signers = [unwrap_seeds_or_default(to.signer_seeds)];
    let r = CpiInstruction { program_id: &program_id, accounts: &accounts, data: &instruction_data }
        .invoke_signed(&infos, &signers);
    assert(accounts@ =~= seq![to.account.spec_meta_signer()]);
    assert(infos@ =~= seq![to.account.spec_info()]);
    assert(signers_view(signers@) =~= seq![seeds_or_empty(to.signer_seeds)]);
    r
}

/// Arguments of `Transfer`, which moves lamports between two accounts.
pub struct Transfer<'a, 'b: 'a> {
    pub from: CpiAuthority<'a, 'b>,
    pub to: &'b NoStdAccountInfo,
    pub lamports: u64,
}

/// The transfer invocation shared by [Transfer::into_invoke] and [invoke_transfer_unchecked].
fn invoke_transfer_from_to<'a, 'b>(
    from: CpiAuthority<'a, 'b>,
    to: CpiAuthority<'a, 'b>,
    lamports: u64,
) -> (r: Invocation<'a, 'b>)
    ensures
        r@ == transfer_invocation(
            *from.account,
            *to.account,
            lamports,
            present_seeds(seq![from.signer_seeds, to.signer_seeds]),
        ),
{
    let program_id = system_program_id();
    let instruction_data = serialize_transfer_instruction_data(lamports);
    let accounts = [from.account.to_meta_c_signer(), to.account.to_meta_c()];
    let infos = [from.account.to_info_c(), to.account.to_info_c()];
    let possible = [from.signer_seeds, to.signer_seeds];
    let r = CpiInstruction { program_id: &program_id, accounts: &accounts, data: &instruction_data }
        .invoke_possibly_signed(&infos, &possible);
    assert(accounts@ =~= seq![from.account.spec_meta_signer(), to.account.spec_meta()]);
    assert(infos@ =~= seq![from.account.spec_info(), to.account.spec_info()]);
    assert(possible@ =~= seq![from.signer_seeds, to.signer_seeds]);
    r
}

impl<'a, 'b: 'a> Transfer<'a, 'b> {
    /// The `Transfer` invocation, signed with the sender's seeds if it has any.
    pub open spec fn spec_invocation(self) -> InvocationView {
        transfer_invocation(
            *self.from.account,
            *self.to,
            self.lamports,
            present_seeds(seq![self.from.signer_seeds, None]),
        )
    }

    /// The `Transfer` invocation, signed with the sender's seeds if it has any.
    pub fn into_invoke(self) -> (r: Invocation<'a, 'b>)
        ensures
            r@ == self.spec_invocation(),
    {
        let Self { from, to, lamports } = self;
        invoke_transfer_from_to(from, CpiAuthority { account: to, signer_seeds: None }, lamports)
    }
}

/// Transfers lamports, signing with the sender's seeds if it has any.
pub fn invoke_transfer_unchecked<'a, 'b>(args: Transfer<'a, 'b>) -> (r: Invocation<'a, 'b>)
    ensures
        r@ == args.spec_invocation(),
{
    let Transfer { from, to, lamports } = args;
    invoke_transfer_from_to(from, CpiAuthority { account: to, signer_seeds: None }, lamports)
}

/// Arguments of `CreateAccount`, which funds, sizes and assigns a new account in one step.
pub struct CreateAccount<'a, 'b: 'a> {
    pub from: CpiAuthority<'a, 'b>,
    pub to: CpiAuthority<'a, 'b>,
    pub lamports: u64,
    pub space: u64,
    pub owner: &'b Pubkey,
}

impl<'a, 'b: 'a> CreateAccount<'a, 'b> {
    /// The `CreateAccount` invocation, signed with the seeds of the funder and of the new
    /// account where present.
    pub open spec fn spec_invocation(self) -> InvocationView {
        create_account_invocation(
            *self.from.account,
            *self.to.account,
            self.lamports,
            self.space,
            *self.owner,
            present_seeds(seq![self.from.signer_seeds, self.to.signer_seeds]),
        )
    }
}

/// The account creation shared by [invoke_create_account_unchecked] and
/// [try_failsafe_create_account].
fn invoke_create<'a, 'b>(
    from: CpiAuthority<'a, 'b>,
    to: CpiAuthority<'a, 'b>,
    lamports: u64,
    space: u64,
    owner: &Pubkey,
) -> (r: Invocation<'a, 'b>)
    ensures
        r@ == create_account_invocation(
            *from.account,
            *to.account,
            lamports,
            space,
            *owner,
            present_seeds(seq![from.signer_seeds, to.signer_seeds]),
        ),
{
    let program_id = system_program_id();
    let instruction_data = serialize_create_account_instruction_data(lamports, space, owner);
    let accounts = [from.account.to_meta_c_signer(), to.account.to_meta_c_signer()];
    let infos = [from.account.to_info_c(), to.account.to_info_c()];
    let possible = [from.signer_seeds, to.signer_seeds];
    let r = CpiInstruction { program_id: &program_id, accounts: &accounts, data: &instruction_data }
        .invoke_possibly_signed(&infos, &possible);
    assert(accounts@ =~= seq![from.account.spec_meta_signer(), to.account.spec_meta_signer()]);
    assert(infos@ =~= seq![from.account.spec_info(), to.account.spec_info()]);
    assert(possible@ =~= seq![from.signer_seeds, to.signer_seeds]);
    r
}

/// Creates an account, signing with the seeds of the funder and of the new account where
/// present.
pub fn invoke_create_account_unchecked<'a, 'b>(args: CreateAccount<'a, 'b>) -> (r: Invocation<
    'a,
    'b,
>)
    ensures
        r@ == args.spec_invocation(),
{
    let CreateAccount { from, to, lamports, space, owner } = args;
    invoke_create(from, to, lamports, space, owner)
}

/// Arguments of [try_failsafe_create_account].
pub struct FailsafeCreateAccount<'a, 'b: 'a> {
    /// The account that pays for the rent, with its seeds if it is a program-derived address.
    pub payer: CpiAuthority<'a, 'b>,
    /// The account to be created, with its seeds if it is a program-derived address.
    pub to: CpiAuthority<'a, 'b>,
    /// The space to allocate for the account.
    pub space: u64,
    /// The program that will own the account.
    pub program_id: &'a Pubkey,
}

/// What a rent top-up needs: the missing lamports, or zero when the account already holds
/// enough.
pub open spec fn lamports_missing(required: u64, current: u64) -> u64 {
    if required > current {
        (required - current) as u64
    } else {
        0
    }
}

/// A top-up brings an account to at least the required rent and never beyond what it already
/// holds or the required rent: the account ends with the larger of the two.
pub proof fn lemma_top_up_reaches_rent(required: u64, current: u64)
    ensures
        current + lamports_missing(required, current) == if required > current {
            required
        } else {
            current
        },
        lamports_missing(required, current) == 0 <==> current >= required,
{
}

/// The invocations that create `to` as an account of `space` bytes owned by `program_id`,
/// holding `rent_required` lamports. An account without lamports is created in one step.
/// Otherwise (someone sent it lamports beforehand, which would make `CreateAccount` fail) it is
/// topped up to the required rent if it holds less, allocated if any space is asked for, and
/// assigned.
pub open spec fn failsafe_create_plan(
    payer: CpiAuthority,
    to: CpiAuthority,
    space: u64,
    program_id: Pubkey,
    rent_required: u64,
) -> Seq<InvocationView> {
    let current = to.account.lamports;
    if current == 0 {
        seq![
            create_account_invocation(
                *payer.account,
                *to.account,
                rent_required,
                space,
                program_id,
                present_seeds(seq![payer.signer_seeds, to.signer_seeds]),
            ),
        ]
    } else {
        let missing = lamports_missing(rent_required, current);
        let top_up = if missing != 0 {
            seq![
                transfer_invocation(
                    *payer.account,
                    *to.account,
                    missing,
                    present_seeds(seq![payer.signer_seeds, to.signer_seeds]),
                ),
            ]
        } else {
            Seq::empty()
        };
        let allocate = if space != 0 {
            seq![allocate_invocation(*to.account, space, seq![seeds_or_empty(to.signer_seeds)])]
        } else {
            Seq::empty()
        };
        top_up + allocate + seq![
            assign_invocation(*to.account, program_id, seq![seeds_or_empty(to.signer_seeds)]),
        ]
    }
}

/// The System invocations name their accounts as the System program reads them and carry the
/// instruction's fields in little-endian after the 4-byte selector: `Allocate` (selector 8) and
/// `Assign` (selector 1) act on one signing account; `Transfer` (selector 2) has the sender
/// signing and the recipient with its own privileges; `CreateAccount` (selector 0) has both the
/// payer and the new account signing and carries the lamports, the space and the owner.
pub proof fn lemma_system_invocations_layout(
    from: NoStdAccountInfo,
    to: NoStdAccountInfo,
    lamports: u64,
    space: u64,
    owner: Pubkey,
    signers_seeds: Seq<Seq<Seq<u8>>>,
)
    ensures
        ({
            let inv = allocate_invocation(to, space, signers_seeds);
            &&& inv.program_id == system_program_id_bytes()
            &&& inv.accounts == seq![to.spec_meta_signer()]
            &&& inv.infos == seq![to.spec_info()]
            &&& inv.data.len() == 12
            &&& inv.data.subrange(0, 4) == seq![8u8, 0u8, 0u8, 0u8]
            &&& u64_from_le(inv.data.subrange(4, 12)) == space
            &&& inv.signers_seeds == signers_seeds
        }),
        ({
            let inv = assign_invocation(to, owner, signers_seeds);
            &&& inv.program_id == system_program_id_bytes()
            &&& inv.accounts == seq![to.spec_meta_signer()]
            &&& inv.infos == seq![to.spec_info()]
            &&& inv.data.len() == 36
            &&& inv.data.subrange(0, 4) == seq![1u8, 0u8, 0u8, 0u8]
            &&& inv.data.subrange(4, 36) == owner@
            &&& inv.signers_seeds == signers_seeds
        }),
        ({
            let inv = transfer_invocation(from, to, lamports, signers_seeds);
            &&& inv.program_id == system_program_id_bytes()
            &&& inv.accounts == seq![from.spec_meta_signer(), to.spec_meta()]
            &&& inv.infos == seq![from.spec_info(), to.spec_info()]
            &&& inv.data.len() == 12
            &&& inv.data.subrange(0, 4) == seq![2u8, 0u8, 0u8, 0u8]
            &&& u64_from_le(inv.data.subrange(4, 12)) == lamports
            &&& inv.signers_seeds == signers_seeds
        }),
        ({
            let inv = create_account_invocation(from, to, lamports, space, owner, signers_seeds);
            &&& inv.program_id == system_program_id_bytes()
            &&& inv.accounts == seq![from.spec_meta_signer(), to.spec_meta_signer()]
            &&& inv.infos == seq![from.spec_info(), to.spec_info()]
            &&& inv.data.len() == 52
            &&& inv.data.subrange(0, 4) == seq![0u8, 0u8, 0u8, 0u8]
            &&& u64_from_le(inv.data.subrange(4, 12)) == lamports
            &&& u64_from_le(inv.data.subrange(12, 20)) == space
            &&& inv.data.subrange(20, 52) == owner@
            &&& inv.signers_seeds == signers_seeds
        }),
{
    lemma_u64_le_roundtrip(lamports);
    lemma_u64_le_roundtrip(space);
    assert(allocate_data(space).subrange(4, 12) =~= le_bytes_u64(space));
    assert(allocate_data(space).subrange(0, 4) =~= seq![8u8, 0u8, 0u8, 0u8]);
    assert(assign_data(owner).subrange(4, 36) =~= owner@);
    assert(assign_data(owner).subrange(0, 4) =~= seq![1u8, 0u8, 0u8, 0u8]);
    assert(transfer_data(lamports).subrange(4, 12) =~= le_bytes_u64(lamports));
    assert(transfer_data(lamports).subrange(0, 4) =~= seq![2u8, 0u8, 0u8, 0u8]);
    let d = create_account_data(lamports, space, owner);
    assert(d.subrange(4, 12) =~= le_bytes_u64(lamports));
    assert(d.subrange(12, 20) =~= le_bytes_u64(space));
    assert(d.subrange(20, 52) =~= owner@);
    assert(d.subrange(0, 4) =~= seq![0u8, 0u8, 0u8, 0u8]);
}

/// The seeds of a signer when it has some, as a list of at most one signer.
pub open spec fn signer_if_seeded<'a, 'b>(seeds: Option<&'a [&'b [u8]]>) -> Seq<Seq<Seq<u8>>> {
    match seeds {
        Some(s) => seq![seeds_view(s)],
        None => Seq::empty(),
    }
}

/// The signers of one optional seeds: it, when present.
pub proof fn lemma_present_seeds_of_one<'a, 'b>(seeds: Option<&'a [&'b [u8]]>)
    ensures
        present_seeds(seq![seeds]) == signer_if_seeded(seeds),
{
    let viewed = seq![seeds].map_values(|o: Option<&'a [&'b [u8]]>| crate::cpi::opt_seeds_view(o));
    assert(viewed.drop_last() =~= Seq::<Option<Seq<Seq<u8>>>>::empty());
    reveal_with_fuel(somes, 2);
    assert(present_seeds(seq![seeds]) =~= signer_if_seeded(seeds));
}

/// The signers of two optional seeds are those present, first then second.
pub proof fn lemma_present_seeds_of_two<'a, 'b>(
    first: Option<&'a [&'b [u8]]>,
    second: Option<&'a [&'b [u8]]>,
)
    ensures
        present_seeds(seq![first, second]) == signer_if_seeded(first) + signer_if_seeded(second),
{
    let possible = seq![first, second];
    let viewed = possible.map_values(|o: Option<&'a [&'b [u8]]>| crate::cpi::opt_seeds_view(o));
    assert(viewed.drop_last() =~= seq![crate::cpi::opt_seeds_view(first)]);
    assert(viewed.drop_last().drop_last() =~= Seq::<Option<Seq<Seq<u8>>>>::empty());
    reveal_with_fuel(somes, 3);
    assert(present_seeds(possible) =~= signer_if_seeded(first) + signer_if_seeded(second));
}

/// A failsafe creation of an account without lamports is one System `CreateAccount` of the
/// required rent, space and owner, paid by the payer and signed by both the payer and the new
/// account, with the seeds of each of them that has seeds (payer's first): a program-derived new
/// account signs through its seeds. An account that already holds lamports is last assigned to
/// the program, signed with its own seeds only; it is topped up first exactly when it holds less
/// than the rent, and allocated exactly when space is asked for.
pub proof fn lemma_failsafe_create_signs_with_both(
    payer: CpiAuthority,
    to: CpiAuthority,
    space: u64,
    program_id: Pubkey,
    rent_required: u64,
)
    ensures
        to.account.lamports == 0 ==> {
            let plan = failsafe_create_plan(payer, to, space, program_id, rent_required);
            &&& plan.len() == 1
            &&& plan[0].program_id == system_program_id_bytes()
            &&& plan[0].accounts == seq![
                payer.account.spec_meta_signer(),
                to.account.spec_meta_signer(),
            ]
            &&& plan[0].infos == seq![payer.account.spec_info(), to.account.spec_info()]
            &&& plan[0].signers_seeds == signer_if_seeded(payer.signer_seeds) + signer_if_seeded(
                to.signer_seeds,
            )
            &&& plan[0].data.len() == 52
            &&& plan[0].data.subrange(0, 4) == seq![0u8, 0u8, 0u8, 0u8]
            &&& u64_from_le(plan[0].data.subrange(4, 12)) == rent_required
            &&& u64_from_le(plan[0].data.subrange(12, 20)) == space
            &&& plan[0].data.subrange(20, 52) == program_id@
        },
        to.account.lamports != 0 ==> {
            let plan = failsafe_create_plan(payer, to, space, program_id, rent_required);
            &&& plan.len() == (if rent_required > to.account.lamports { 1nat } else { 0nat }) + (
            if space != 0 {
                1nat
            } else {
                0nat
            }) + 1
            &&& plan.last().program_id == system_program_id_bytes()
            &&& plan.last().accounts == seq![to.account.spec_meta_signer()]
            &&& plan.last().data == seq![1u8, 0u8, 0u8, 0u8] + program_id@
            &&& plan.last().signers_seeds == seq![seeds_or_empty(to.signer_seeds)]
        },
{
    lemma_present_seeds_of_two(payer.signer_seeds, to.signer_seeds);
    lemma_u64_le_roundtrip(rent_required);
    lemma_u64_le_roundtrip(space);
    let plan = failsafe_create_plan(payer, to, space, program_id, rent_required);
    if to.account.lamports == 0 {
        let d = create_account_data(rent_required, space, program_id);
        assert(d.subrange(4, 12) =~= le_bytes_u64(rent_required));
        assert(d.subrange(12, 20) =~= le_bytes_u64(space));
        assert(d.subrange(20, 52) =~= program_id@);
        assert(d.subrange(0, 4) =~= seq![0u8, 0u8, 0u8, 0u8]);
    }
}

/// Who signs the System invocations: `Allocate` and `Assign` with the account's seeds when it
/// has some (the unchecked forms always pass one list of seeds, empty when there are none);
/// `Transfer` with the sender's seeds when it has some, never the recipient's; `CreateAccount`
/// with the funder's then the new account's seeds, those that are present. The accounts, data
/// and infos are those of [lemma_system_invocations_layout].
pub proof fn lemma_system_builders_sign<'a, 'b>(
    allocate: Allocate<'a, 'b>,
    assign: Assign<'a, 'b>,
    transfer: Transfer<'a, 'b>,
    create: CreateAccount<'a, 'b>,
)
    ensures
        allocate.spec_invocation() == allocate_invocation(
            *allocate.account.account,
            allocate.space,
            signer_if_seeded(allocate.account.signer_seeds),
        ),
        allocate.spec_unchecked_invocation().signers_seeds == seq![
            seeds_or_empty(allocate.account.signer_seeds),
        ],
        allocate.spec_unchecked_invocation().accounts == seq![
            allocate.account.account.spec_meta_signer(),
        ],
        assign.spec_invocation() == assign_invocation(
            *assign.to.account,
            *assign.owner,
            signer_if_seeded(assign.to.signer_seeds),
        ),
        assign.spec_unchecked_invocation().signers_seeds == seq![
            seeds_or_empty(assign.to.signer_seeds),
        ],
        assign.spec_unchecked_invocation().data == assign_data(*assign.owner),
        transfer.spec_invocation() == transfer_invocation(
            *transfer.from.account,
            *transfer.to,
            transfer.lamports,
            signer_if_seeded(transfer.from.signer_seeds),
        ),
        create.spec_invocation() == create_account_invocation(
            *create.from.account,
            *create.to.account,
            create.lamports,
            create.space,
            *create.owner,
            signer_if_seeded(create.from.signer_seeds) + signer_if_seeded(create.to.signer_seeds),
        ),
{
    lemma_present_seeds_of_one(allocate.account.signer_seeds);
    lemma_present_seeds_of_one(assign.to.signer_seeds);
    lemma_present_seeds_of_two(transfer.from.signer_seeds, None);
    assert(signer_if_seeded(transfer.from.signer_seeds) + signer_if_seeded(None::<&[&[u8]]>)
        =~= signer_if_seeded(transfer.from.signer_seeds));
    lemma_present_seeds_of_two(create.from.signer_seeds, create.to.signer_seeds);
}

/// Creates a new account that holds `rent_required` lamports (the rent-exempt minimum for its
/// space). If the account already has lamports, it is topped up to the required rent, allocated
/// with the requested space and assigned to the program instead. Fails when the new account's
/// lamports cannot be read.
pub fn try_failsafe_create_account<'a, 'b>(
    args: FailsafeCreateAccount<'a, 'b>,
    rent_required: u64,
) -> (r: Result<Vec<Invocation<'a, 'b>>, ProgramError>)
    ensures
        !lamports_borrowable(args.to.account.borrow_state) ==> r is Err && r->Err_0
            == ProgramError::AccountBorrowFailed,
        lamports_borrowable(args.to.account.borrow_state) ==> r is Ok && invocation_views(
            r->Ok_0@,
        ) == failsafe_create_plan(args.payer, args.to, args.space, *args.program_id, rent_required),
{
    let FailsafeCreateAccount { payer, to, space, program_id } = args;
    let current_lamports = to.account.try_borrow_lamports()?;
    let mut invocations: Vec<Invocation<'a, 'b>> = Vec::new();
    if current_lamports == 0 {
        invocations.push(invoke_create(payer, to, rent_required, space, program_id));
    } else {
        let lamport_diff = if rent_required > current_lamports {
            rent_required - current_lamports
        } else {
            0
        };
        if lamport_diff != 0 {
            invocations.push(invoke_transfer_from_to(payer, to, lamport_diff));
        }
        if space != 0 {
            invocations.push(invoke_allocate_unchecked(Allocate { account: to, space }));
        }
        invocations.push(invoke_assign_unchecked(Assign { to, owner: program_id }));
    }
    assert(invocation_views(invocations@) =~= failsafe_create_plan(
        payer,
        to,
        space,
        *program_id,
        rent_required,
    ));
    Ok(invocations)
}

/// The data of a freshly created account of `space` bytes after `serialized` is written at its
/// start.
pub open spec fn written_account_data(serialized: Seq<u8>, space: u64) -> Seq<u8> {
    serialized + zeros((space - serialized.len()) as nat)
}

/// Creates a new data account (as [try_failsafe_create_account] does) and writes the serialized
/// account data, discriminator first, at the start of its data. Returns the invocations and the
/// account's data after the write. Fails when the new account's lamports cannot be read, when
/// its data cannot be borrowed mutably, or when the serialized data does not fit in `space`
/// bytes.
pub fn try_create_serialized_account<'a, 'b>(
    args: FailsafeCreateAccount<'a, 'b>,
    rent_required: u64,
    serialized: &[u8],
) -> (r: Result<(Vec<Invocation<'a, 'b>>, Vec<u8>), ProgramError>)
    ensures
        !lamports_borrowable(args.to.account.borrow_state) ==> r is Err && r->Err_0
            == ProgramError::AccountBorrowFailed,
        lamports_borrowable(args.to.account.borrow_state) && !data_mut_borrowable(
            args.to.account.borrow_state,
        ) ==> r is Err && r->Err_0 == ProgramError::AccountBorrowFailed,
        lamports_borrowable(args.to.account.borrow_state) && data_mut_borrowable(
            args.to.account.borrow_state,
        ) && serialized@.len() > args.space ==> r is Err && r->Err_0
            == ProgramError::AccountDataTooSmall,
        lamports_borrowable(args.to.account.borrow_state) && data_mut_borrowable(
            args.to.account.borrow_state,
        ) && serialized@.len() <= args.space ==> r is Ok && invocation_views(r->Ok_0.0@)
            == failsafe_create_plan(args.payer, args.to, args.space, *args.program_id, rent_required)
            && r->Ok_0.1@ == written_account_data(serialized@, args.space),
{
    let to = args.to;
    let space = args.space;
    let invocations = try_failsafe_create_account(args, rent_required)?;
    to.account.try_borrow_mut_data()?;
    if serialized.len() as u64 > space {
        return Err(ProgramError::AccountDataTooSmall);
    }
    let mut data: Vec<u8> = Vec::new();
    let mut i: usize = 0;
    while i < serialized.len()
        invariant
            i <= serialized@.len(),
            data@ == serialized@.take(i as int),
        decreases serialized@.len() - i,
    {
        data.push(serialized[i]);
        i = i + 1;
        assert(data@ =~= serialized@.take(i as int));
    }
    assert(serialized@.take(serialized@.len() as int) =~= serialized@);
    let mut filled: u64 = serialized.len() as u64;
    while filled < space
        invariant
            serialized@.len() <= filled <= space,
            data@ == serialized@ + zeros((filled - serialized@.len()) as nat),
        decreases space - filled,
    {
        data.push(0);
        filled = filled + 1;
        assert(data@ =~= serialized@ + zeros((filled - serialized@.len()) as nat));
    }
    Ok((invocations, data))
}

/// Creates a new data account (as [try_failsafe_create_account] does) and writes the type's
/// discriminator followed by the serialized value (`payload`, e.g. its Borsh encoding) at the
/// start of its data. Fails as [try_create_serialized_account] does.
pub fn try_create_borsh_data_account<'a, 'b, const N: usize, T: Discriminate<N>>(
    args: FailsafeCreateAccount<'a, 'b>,
    rent_required: u64,
    payload: &[u8],
) -> (r: Result<(Vec<Invocation<'a, 'b>>, Vec<u8>), ProgramError>)
    requires
        N + payload@.len() <= usize::MAX,
    ensures
        !lamports_borrowable(args.to.account.borrow_state) ==> r is Err && r->Err_0
            == ProgramError::AccountBorrowFailed,
        lamports_borrowable(args.to.account.borrow_state) && !data_mut_borrowable(
            args.to.account.borrow_state,
        ) ==> r is Err && r->Err_0 == ProgramError::AccountBorrowFailed,
        lamports_borrowable(args.to.account.borrow_state) && data_mut_borrowable(
            args.to.account.borrow_state,
        ) && N + payload@.len() > args.space ==> r is Err && r->Err_0
            == ProgramError::AccountDataTooSmall,
        lamports_borrowable(args.to.account.borrow_state) && data_mut_borrowable(
            args.to.account.borrow_state,
        ) && N + payload@.len() <= args.space ==> r is Ok && invocation_views(r->Ok_0.0@)
            == failsafe_create_plan(args.payer, args.to, args.space, *args.program_id, rent_required)
            && r->Ok_0.1@ == written_account_data(T::DISCRIMINATOR@ + payload@, args.space),
{
    let discriminator: [u8; N] = T::DISCRIMINATOR;
    let mut serialized: Vec<u8> = Vec::new();
    let mut i: usize = 0;
    while i < N
        invariant
            i <= N,
            discriminator@.len() == N,
            serialized@ == discriminator@.take(i as int),
        decreases N - i,
    {
        serialized.push(discriminator[i]);
        i = i + 1;
        assert(serialized@ =~= discriminator@.take(i as int));
    }
    let mut j: usize = 0;
    while j < payload.len()
        invariant
            j <= payload@.len(),
            discriminator@.len() == N,
            serialized@ == discriminator@ + payload@.take(j as int),
        decreases payload@.len() - j,
    {
        serialized.push(payload[j]);
        j = j + 1;
        assert(serialized@ =~= discriminator@ + payload@.take(j as int));
    }
    assert(discriminator@.take(N as int) =~= discriminator@);
    assert(payload@.take(payload@.len() as int) =~= payload@);
    try_create_serialized_account(args, rent_required, serialized.as_slice())
}

} // verus!
