//! Cross-program invocations: what a program hands to the runtime to invoke another program.
//!
//! Each builder in the submodules computes the complete [Invocation] (program, account metas,
//! instruction data, account infos and signer seeds) for one instruction of another program;
//! passing it to the runtime is left to the caller.

pub mod ata_program;
pub mod system_program;
pub mod token_program;

use vstd::prelude::*;

use crate::entrypoint::{
    data_borrowable, data_mut_borrowable, lamports_borrowable, lamports_mut_borrowable,
    AccountInfoC, AccountMetaC, NoStdAccountInfo,
};
use crate::program_error::{ProgramError, ProgramResult};
use crate::pubkey::Pubkey;

verus! {

/// The largest return data a program may set, in bytes.
pub const MAX_RETURN_DATA: usize = 1024;

/// The values present in a sequence of options, in order.
pub open spec fn somes<T>(s: Seq<Option<T>>) -> Seq<T>
    decreases s.len(),
{
    if s.len() == 0 {
        Seq::empty()
    } else {
        let rest = somes(s.drop_last());
        match s.last() {
            Some(x) => rest.push(x),
            None => rest,
        }
    }
}

/// An account together with the seeds that sign for it when it is a program-derived address.
/// The seeds may be [None] when the account signed the transaction itself.
#[derive(Clone, Copy)]
pub struct CpiAuthority<'a, 'b: 'a> {
    pub account: &'b NoStdAccountInfo,
    pub signer_seeds: Option<&'a [&'b [u8]]>,
}

/// Everything handed to the runtime for one cross-program invocation.
pub struct Invocation<'a, 'b> {
    pub program_id: Pubkey,
    pub accounts: Vec<AccountMetaC>,
    pub data: Vec<u8>,
    pub infos: Vec<AccountInfoC>,
    pub signers_seeds: Vec<&'a [&'b [u8]]>,
}

/// The contents of an [Invocation]: the program's address, the account metas, the instruction
/// data, the account infos and, for each signer, its seeds.
pub struct InvocationView {
    pub program_id: Seq<u8>,
    pub accounts: Seq<AccountMetaC>,
    pub data: Seq<u8>,
    pub infos: Seq<AccountInfoC>,
    pub signers_seeds: Seq<Seq<Seq<u8>>>,
}

/// The seeds of one signer, as byte sequences.
pub open spec fn seeds_view(seeds: &[&[u8]]) -> Seq<Seq<u8>> {
    seeds@.map_values(|seed: &[u8]| seed@)
}

/// The seeds of each signer, as byte sequences.
pub open spec fn signers_view<'a, 'b>(signers: Seq<&'a [&'b [u8]]>) -> Seq<Seq<Seq<u8>>> {
    signers.map_values(|seeds: &'a [&'b [u8]]| seeds_view(seeds))
}

/// Optional seeds, as byte sequences.
pub open spec fn opt_seeds_view<'a, 'b>(seeds: Option<&'a [&'b [u8]]>) -> Option<Seq<Seq<u8>>> {
    match seeds {
        Some(s) => Some(seeds_view(s)),
        None => None,
    }
}

/// The seeds present among optional seeds, in order, as byte sequences.
pub open spec fn present_seeds<'a, 'b>(possible: Seq<Option<&'a [&'b [u8]]>>) -> Seq<Seq<Seq<u8>>> {
    somes(possible.map_values(|o: Option<&'a [&'b [u8]]>| opt_seeds_view(o)))
}

/// The seeds of an optional signer, or no seeds at all.
pub open spec fn seeds_or_empty<'a, 'b>(seeds: Option<&'a [&'b [u8]]>) -> Seq<Seq<u8>> {
    match seeds {
        Some(s) => seeds_view(s),
        None => Seq::empty(),
    }
}

impl<'a, 'b> View for Invocation<'a, 'b> {
    type V = InvocationView;

    open spec fn view(&self) -> InvocationView {
        InvocationView {
            program_id: self.program_id@,
            accounts: self.accounts@,
            data: self.data@,
            infos: self.infos@,
            signers_seeds: signers_view(self.signers_seeds@),
        }
    }
}

/// The contents of the invocation of `program_id` with the given accounts, data, infos and
/// signer seeds.
pub open spec fn invocation(
    program_id: Seq<u8>,
    accounts: Seq<AccountMetaC>,
    data: Seq<u8>,
    infos: Seq<AccountInfoC>,
    signers_seeds: Seq<Seq<Seq<u8>>>,
) -> InvocationView {
    InvocationView { program_id, accounts, data, infos, signers_seeds }
}

/// The contents of each invocation, in order.
pub open spec fn invocation_views<'a, 'b>(s: Seq<Invocation<'a, 'b>>) -> Seq<InvocationView> {
    s.map_values(|i: Invocation<'a, 'b>| i@)
}

/// Taking the present seeds commutes with viewing them as byte sequences.
pub proof fn lemma_present_seeds<'a, 'b>(possible: Seq<Option<&'a [&'b [u8]]>>)
    ensures
        present_seeds(possible) == signers_view(somes(possible)),
    decreases possible.len(),
{
    if possible.len() > 0 {
        lemma_present_seeds(possible.drop_last());
        assert(possible.map_values(|o: Option<&'a [&'b [u8]]>| opt_seeds_view(o)).drop_last()
            =~= possible.drop_last().map_values(|o: Option<&'a [&'b [u8]]>| opt_seeds_view(o)));
        match possible.last() {
            Some(x) => {
                assert(signers_view(somes(possible)) =~= signers_view(
                    somes(possible.drop_last()),
                ).push(seeds_view(x)));
            },
            None => {},
        }
    }
}

/// Copies a slice into a new vector.
pub fn copy_to_vec<T: Copy>(s: &[T]) -> (r: Vec<T>)
    ensures
        r@ == s@,
{
    let mut r: Vec<T> = Vec::new();
    let mut i: usize = 0;
    while i < s.len()
        invariant
            i <= s@.len(),
            r@ == s@.take(i as int),
        decreases s@.len() - i,
    {
        r.push(s[i]);
        i = i + 1;
        assert(r@ =~= s@.take(i as int));
    }
    assert(s@.take(s@.len() as int) =~= s@);
    r
}

/// Gathers the seeds that are present, in order, into the front of a fixed-size array and returns
/// how many there are. The remaining entries are empty and are meant to be disregarded.
pub fn unwrap_signers_seeds<'a, 'b: 'a, const NUM_POSSIBLE: usize>(
    possible_signers_seeds: &[Option<&'a [&'b [u8]]>; NUM_POSSIBLE],
) -> (r: ([&'a [&'b [u8]]; NUM_POSSIBLE], usize))
    ensures
        r.1 <= NUM_POSSIBLE,
        r.1 == somes(possible_signers_seeds@).len(),
        r.0@.take(r.1 as int) == somes(possible_signers_seeds@),
        forall|k: int| r.1 <= k < NUM_POSSIBLE ==> r.0@[k]@.len() == 0,
{
    let empty: &'a [&'b [u8]] = &[];
    let mut signers_seeds: [&'a [&'b [u8]]; NUM_POSSIBLE] = [empty; NUM_POSSIBLE];
    let mut end: usize = 0;
    let mut i: usize = 0;
    while i < NUM_POSSIBLE
        invariant
            i <= NUM_POSSIBLE,
            possible_signers_seeds@.len() == NUM_POSSIBLE,
            signers_seeds@.len() == NUM_POSSIBLE,
            end <= i,
            end == somes(possible_signers_seeds@.take(i as int)).len(),
            signers_seeds@.take(end as int) == somes(possible_signers_seeds@.take(i as int)),
            forall|k: int| end <= k < NUM_POSSIBLE ==> signers_seeds@[k]@.len() == 0,
        decreases NUM_POSSIBLE - i,
    {
        let ghost prev = signers_seeds@;
        assert(possible_signers_seeds@.take(i + 1).drop_last() =~= possible_signers_seeds@.take(
            i as int,
        ));
        if let Some(seeds) = possible_signers_seeds[i] {
            signers_seeds[end] = seeds;
            end = end + 1;
            assert(signers_seeds@.take(end as int) =~= prev.take(end - 1).push(seeds));
        }
        i = i + 1;
    }
    assert(possible_signers_seeds@.take(NUM_POSSIBLE as int) =~= possible_signers_seeds@);
    (signers_seeds, end)
}

/// A cross-program instruction: the program to invoke, its account metas and its data.
pub struct CpiInstruction<'a> {
    pub program_id: &'a Pubkey,
    pub accounts: &'a [AccountMetaC],
    pub data: &'a [u8],
}

impl<'a> CpiInstruction<'a> {
    /// The invocation of this instruction with the given account infos and signer seeds.
    pub fn invoke_signed<'s, 't>(
        &self,
        infos: &[AccountInfoC],
        signers_seeds: &[&'s [&'t [u8]]],
    ) -> (r: Invocation<'s, 't>)
        ensures
            r@ == invocation(
                self.program_id@,
                self.accounts@,
                self.data@,
                infos@,
                signers_view(signers_seeds@),
            ),
    {
        Invocation {
            program_id: *self.program_id,
            accounts: copy_to_vec(self.accounts),
            data: copy_to_vec(self.data),
            infos: copy_to_vec(infos),
            signers_seeds: copy_to_vec(signers_seeds),
        }
    }

    /// The invocation of this instruction with the given account infos, signed with those of the
    /// optional seeds that are present.
    pub fn invoke_possibly_signed<'s, 't: 's, const NUM_POSSIBLE: usize>(
        &self,
        infos: &[AccountInfoC],
        possible_signers_seeds: &[Option<&'s [&'t [u8]]>; NUM_POSSIBLE],
    ) -> (r: Invocation<'s, 't>)
        ensures
            r@ == invocation(
                self.program_id@,
                self.accounts@,
                self.data@,
                infos@,
                present_seeds(possible_signers_seeds@),
            ),
    {
        let (signers_seeds, end) = unwrap_signers_seeds(possible_signers_seeds);
        let mut seeds: Vec<&'s [&'t [u8]]> = Vec::new();
        let mut i: usize = 0;
        while i < end
            invariant
                i <= end,
                end <= NUM_POSSIBLE,
                signers_seeds@.len() == NUM_POSSIBLE,
                seeds@ == signers_seeds@.take(i as int),
            decreases end - i,
        {
            seeds.push(signers_seeds[i]);
            i = i + 1;
            assert(seeds@ =~= signers_seeds@.take(i as int));
        }
        proof {
            lemma_present_seeds(possible_signers_seeds@);
        }
        Invocation {
            program_id: *self.program_id,
            accounts: copy_to_vec(self.accounts),
            data: copy_to_vec(self.data),
            infos: copy_to_vec(infos),
            signers_seeds: seeds,
        }
    }
}

/// Account metas of accounts with their own privileges.
pub open spec fn metas_of(accounts: Seq<&NoStdAccountInfo>) -> Seq<AccountMetaC> {
    accounts.map_values(|a: &NoStdAccountInfo| a.spec_meta())
}

/// Account infos of accounts.
pub open spec fn infos_of(accounts: Seq<&NoStdAccountInfo>) -> Seq<AccountInfoC> {
    accounts.map_values(|a: &NoStdAccountInfo| a.spec_info())
}

/// The invocation of `program_id` on `accounts` (with their own privileges) followed by an
/// authority that signs, with the authority's seeds if it has any.
pub open spec fn authority_invocation(
    program_id: Seq<u8>,
    accounts: Seq<&NoStdAccountInfo>,
    authority: CpiAuthority,
    data: Seq<u8>,
) -> InvocationView {
    invocation(
        program_id,
        metas_of(accounts).push(authority.account.spec_meta_signer()),
        data,
        infos_of(accounts).push(authority.account.spec_info()),
        present_seeds(seq![authority.signer_seeds]),
    )
}

/// The invocation of `program_id` on `accounts` (with their own privileges), without signer
/// seeds.
pub open spec fn unsigned_invocation(
    program_id: Seq<u8>,
    accounts: Seq<&NoStdAccountInfo>,
    data: Seq<u8>,
) -> InvocationView {
    invocation(program_id, metas_of(accounts), data, infos_of(accounts), Seq::empty())
}

/// Account metas and infos of accounts, in order.
fn metas_and_infos(accounts: &[&NoStdAccountInfo]) -> (r: (Vec<AccountMetaC>, Vec<AccountInfoC>))
    ensures
        r.0@ == metas_of(accounts@),
        r.1@ == infos_of(accounts@),
{
    let mut metas: Vec<AccountMetaC> = Vec::new();
    let mut infos: Vec<AccountInfoC> = Vec::new();
    let mut i: usize = 0;
    while i < accounts.len()
        invariant
            i <= accounts@.len(),
            metas@ == metas_of(accounts@.take(i as int)),
            infos@ == infos_of(accounts@.take(i as int)),
        decreases accounts@.len() - i,
    {
        metas.push(accounts[i].to_meta_c());
        infos.push(accounts[i].to_info_c());
        i = i + 1;
        assert(metas@ =~= metas_of(accounts@.take(i as int)));
        assert(infos@ =~= infos_of(accounts@.take(i as int)));
    }
    assert(accounts@.take(accounts@.len() as int) =~= accounts@);
    (metas, infos)
}

/// Invokes `program_id` on `accounts` followed by a signing authority.
pub fn invoke_with_authority<'a, 'b>(
    program_id: &Pubkey,
    accounts: &[&NoStdAccountInfo],
    authority: CpiAuthority<'a, 'b>,
    data: &[u8],
) -> (r: Invocation<'a, 'b>)
    ensures
        r@ == authority_invocation(program_id@, accounts@, authority, data@),
{
    let (mut metas, mut infos) = metas_and_infos(accounts);
    metas.push(authority.account.to_meta_c_signer());
    infos.push(authority.account.to_info_c());
    let possible = [authority.signer_seeds];
    let r = CpiInstruction { program_id, accounts: metas.as_slice(), data }.invoke_possibly_signed(
        infos.as_slice(),
        &possible,
    );
    assert(possible@ =~= seq![authority.signer_seeds]);
    r
}

/// Invokes `program_id` on `accounts` without signer seeds.
pub fn invoke_unsigned<'a, 'b>(program_id: &Pubkey, accounts: &[&NoStdAccountInfo], data: &[u8]) -> (r:
    Invocation<'a, 'b>)
    ensures
        r@ == unsigned_invocation(program_id@, accounts@, data@),
{
    let (metas, infos) = metas_and_infos(accounts);
    let signers: [&'a [&'b [u8]]; 0] = [];
    let r = CpiInstruction { program_id, accounts: metas.as_slice(), data }.invoke_signed(
        infos.as_slice(),
        &signers,
    );
    assert(signers_view(signers@) =~= Seq::<Seq<Seq<u8>>>::empty());
    r
}

/// Whether the runtime can take the borrows of an account that an invocation needs: mutable
/// borrows of lamports and data for a writable account, immutable ones otherwise.
pub open spec fn borrowable_for_invocation(account: NoStdAccountInfo) -> bool {
    if account.is_writable {
        lamports_mut_borrowable(account.borrow_state) && data_mut_borrowable(account.borrow_state)
    } else {
        lamports_borrowable(account.borrow_state) && data_borrowable(account.borrow_state)
    }
}

/// A writable account can be handed to an invocation exactly when nothing of it is borrowed.
pub proof fn lemma_writable_borrowable_iff_unborrowed(account: NoStdAccountInfo)
    requires
        account.is_writable,
    ensures
        borrowable_for_invocation(account) <==> account.borrow_state == 0,
{
    let s = account.borrow_state;
    assert((s & 0xf0 == 0 && s & 0x0f == 0) <==> s == 0) by (bit_vector);
}

/// A read-only account can be handed to an invocation exactly when neither its lamports nor its
/// data are mutably borrowed and neither is borrowed 7 times already; in particular whenever
/// nothing of it is borrowed.
pub proof fn lemma_read_only_borrowable(account: NoStdAccountInfo)
    requires
        !account.is_writable,
    ensures
        borrowable_for_invocation(account) <==> (account.borrow_state & 0x88 == 0
            && account.borrow_state & 0x70 != 0x70 && account.borrow_state & 0x07 != 0x07),
        account.borrow_state == 0 ==> borrowable_for_invocation(account),
{
    let s = account.borrow_state;
    assert(((s & 0x80 == 0 && s & 0x70 != 0x70) && (s & 0x08 == 0 && s & 0x07 != 0x07)) <==> (s
        & 0x88 == 0 && s & 0x70 != 0x70 && s & 0x07 != 0x07)) by (bit_vector);
    assert(s == 0 ==> (s & 0x80 == 0 && s & 0x70 != 0x70 && s & 0x08 == 0 && s & 0x07 != 0x07))
        by (bit_vector);
}

/// Checks that the lamports and data of an account can be borrowed as an invocation needs them:
/// mutably if the account is writable, immutably otherwise.
pub fn try_check_borrow_account_info(account_info: &NoStdAccountInfo) -> (r: ProgramResult)
    ensures
        borrowable_for_invocation(*account_info) ==> r == Ok::<(), ProgramError>(()),
        !borrowable_for_invocation(*account_info) ==> r == Err::<(), ProgramError>(
            ProgramError::AccountBorrowFailed,
        ),
{
    if account_info.is_writable() {
        let _ = account_info.try_borrow_mut_lamports()?;
        let _ = account_info.try_borrow_mut_data()?;
    } else {
        let _ = account_info.try_borrow_lamports()?;
        let _ = account_info.try_borrow_data()?;
    }
    Ok(())
}

/// Checks, in order, that every account can be borrowed as an invocation needs it; the first
/// account that cannot be fails the check.
pub fn try_check_borrow_account_infos(account_infos: &[NoStdAccountInfo]) -> (r: ProgramResult)
    ensures
        (forall|i: int| 0 <= i < account_infos@.len() ==> borrowable_for_invocation(
            #[trigger] account_infos@[i],
        )) ==> r == Ok::<(), ProgramError>(()),
        !(forall|i: int| 0 <= i < account_infos@.len() ==> borrowable_for_invocation(
            #[trigger] account_infos@[i],
        )) ==> r == Err::<(), ProgramError>(ProgramError::AccountBorrowFailed),
{
    let mut i: usize = 0;
    while i < account_infos.len()
        invariant
            i <= account_infos@.len(),
            forall|k: int| 0 <= k < i ==> borrowable_for_invocation(#[trigger] account_infos@[k]),
        decreases account_infos@.len() - i,
    {
        try_check_borrow_account_info(&account_infos[i])?;
        i = i + 1;
    }
    Ok(())
}

/// Invokes an instruction after checking that every account can be borrowed as the invocation
/// needs it (as the runtime's own `invoke_signed` does): the accounts' infos follow the
/// accounts' order.
pub fn try_invoke_signed<'s, 't>(
    instruction: &CpiInstruction,
    account_infos: &[NoStdAccountInfo],
    signers_seeds: &[&'s [&'t [u8]]],
) -> (r: Result<Invocation<'s, 't>, ProgramError>)
    ensures
        (forall|i: int| 0 <= i < account_infos@.len() ==> borrowable_for_invocation(
            #[trigger] account_infos@[i],
        )) ==> r is Ok && r->Ok_0@ == invocation(
            instruction.program_id@,
            instruction.accounts@,
            instruction.data@,
            account_infos@.map_values(|a: NoStdAccountInfo| a.spec_info()),
            signers_view(signers_seeds@),
        ),
        !(forall|i: int| 0 <= i < account_infos@.len() ==> borrowable_for_invocation(
            #[trigger] account_infos@[i],
        )) ==> r is Err && r->Err_0 == ProgramError::AccountBorrowFailed,
{
    try_check_borrow_account_infos(account_infos)?;
    let mut infos: Vec<AccountInfoC> = Vec::new();
    let mut i: usize = 0;
    while i < account_infos.len()
        invariant
            i <= account_infos@.len(),
            infos@ == account_infos@.take(i as int).map_values(|a: NoStdAccountInfo| a.spec_info()),
        decreases account_infos@.len() - i,
    {
        infos.push(account_infos[i].to_info_c());
        i = i + 1;
        assert(infos@ =~= account_infos@.take(i as int).map_values(
            |a: NoStdAccountInfo| a.spec_info(),
        ));
    }
    assert(account_infos@.take(account_infos@.len() as int) =~= account_infos@);
    Ok(instruction.invoke_signed(infos.as_slice(), signers_seeds))
}

/// Interprets what the runtime reports as return data: `size` bytes were set by `program_id`
/// and the first of them copied into `buf`. Yields the data only when exactly `DATA_LEN` bytes
/// were set.
pub fn checked_return_data<const DATA_LEN: usize>(
    size: u64,
    program_id: Pubkey,
    buf: [u8; DATA_LEN],
) -> (r: Option<(Pubkey, [u8; DATA_LEN])>)
    requires
        DATA_LEN <= MAX_RETURN_DATA,
    ensures
        r == (if size == 0 || size != DATA_LEN as u64 {
            None
        } else {
            Some((program_id, buf))
        }),
{
    if size == 0 || size != (DATA_LEN as u64) {
        None
    } else {
        Some((program_id, buf))
    }
}

/// An invocation with an authority names the given accounts in order, with their own
/// privileges, then the authority as signer; infos likewise; it carries the data as given and
/// signs with the authority's seeds when it has some.
pub proof fn lemma_authority_invocation_layout(
    program_id: Seq<u8>,
    accounts: Seq<&NoStdAccountInfo>,
    authority: CpiAuthority,
    data: Seq<u8>,
)
    ensures
        ({
            let inv = authority_invocation(program_id, accounts, authority, data);
            &&& inv.program_id == program_id
            &&& inv.accounts.len() == accounts.len() + 1
            &&& inv.infos.len() == accounts.len() + 1
            &&& forall|i: int|
                0 <= i < accounts.len() ==> inv.accounts[i] == (#[trigger] accounts[i]).spec_meta()
                    && inv.infos[i] == accounts[i].spec_info()
            &&& inv.accounts[accounts.len() as int] == authority.account.spec_meta_signer()
            &&& inv.infos[accounts.len() as int] == authority.account.spec_info()
            &&& inv.data == data
            &&& inv.signers_seeds == crate::cpi::system_program::signer_if_seeded(
                authority.signer_seeds,
            )
        }),
{
    crate::cpi::system_program::lemma_present_seeds_of_one(authority.signer_seeds);
}

} // verus!
