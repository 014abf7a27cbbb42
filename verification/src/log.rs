//! Logging helpers. Logging itself is a call into the runtime; the functions here compute what
//! is logged.

use vstd::prelude::*;

use crate::entrypoint::NoStdAccountInfo;
use crate::pubkey::Pubkey;

verus! {

/// One call into the runtime's logging: a message, five values printed in hexadecimal, or an
/// address.
#[derive(Clone, Copy, Debug)]
pub enum LogLine {
    Message(&'static str),
    Values(u64, u64, u64, u64, u64),
    Key(Pubkey),
}

/// The lines that print a slice in hexadecimal: for each byte, the byte's index in the fourth
/// value and the byte in the fifth, the others zero.
pub open spec fn slice_lines(slice: Seq<u8>) -> Seq<LogLine> {
    Seq::new(slice.len(), |i: int| LogLine::Values(0, 0, 0, i as u64, slice[i] as u64))
}

/// The lines that print the account at `index` of a program's input: its index, whether it
/// signed, its address, its lamports, the length of its data and its owner, each after a
/// heading.
pub open spec fn account_lines(index: int, account: NoStdAccountInfo) -> Seq<LogLine> {
    seq![
        LogLine::Message("NoStdAccountInfo"),
        LogLine::Values(0, 0, 0, 0, index as u64),
        LogLine::Message("- Is signer"),
        LogLine::Values(0, 0, 0, 0, if account.is_signer { 1 } else { 0 }),
        LogLine::Message("- Key"),
        LogLine::Key(account.key),
        LogLine::Message("- Lamports"),
        LogLine::Values(0, 0, 0, 0, account.lamports),
        LogLine::Message("- Account data length"),
        LogLine::Values(0, 0, 0, 0, account.data@.len() as u64),
        LogLine::Message("- Owner"),
        LogLine::Key(account.owner),
    ]
}

/// The lines that print every account of a program's input, in order.
pub open spec fn accounts_lines(accounts: Seq<NoStdAccountInfo>) -> Seq<LogLine>
    decreases accounts.len(),
{
    if accounts.len() == 0 {
        Seq::empty()
    } else {
        accounts_lines(accounts.drop_last()) + account_lines(
            accounts.len() - 1,
            accounts.last(),
        )
    }
}

/// The arguments of the `sol_log_64` calls that print a slice in hexadecimal: for each byte, the
/// byte's index in the fourth argument and the byte in the fifth, the others zero.
pub fn sol_log_slice(slice: &[u8]) -> (r: Vec<(u64, u64, u64, u64, u64)>)
    ensures
        r@.len() == slice@.len(),
        forall|i: int| 0 <= i < slice@.len() ==> r@[i] == (0u64, 0u64, 0u64, i as u64, slice@[i] as u64),
{
    let mut r: Vec<(u64, u64, u64, u64, u64)> = Vec::new();
    let mut i: usize = 0;
    while i < slice.len()
        invariant
            i <= slice@.len(),
            r@.len() == i,
            forall|k: int| 0 <= k < i ==> r@[k] == (0u64, 0u64, 0u64, k as u64, slice@[k] as u64),
        decreases slice@.len() - i,
    {
        r.push((0, 0, 0, i as u64, slice[i] as u64));
        i = i + 1;
    }
    r
}

/// The lines that print a program's input parameters: each account, then a heading and the
/// instruction data in hexadecimal.
pub fn sol_log_params(accounts: &[NoStdAccountInfo], data: &[u8]) -> (r: Vec<LogLine>)
    ensures
        r@ == accounts_lines(accounts@) + seq![LogLine::Message("Instruction data")] + slice_lines(
            data@,
        ),
{
    let mut r: Vec<LogLine> = Vec::new();
    let mut i: usize = 0;
    while i < accounts.len()
        invariant
            i <= accounts@.len(),
            r@ == accounts_lines(accounts@.take(i as int)),
        decreases accounts@.len() - i,
    {
        let account = &accounts[i];
        let ghost before = r@;
        r.push(LogLine::Message("NoStdAccountInfo"));
        r.push(LogLine::Values(0, 0, 0, 0, i as u64));
        r.push(LogLine::Message("- Is signer"));
        r.push(LogLine::Values(0, 0, 0, 0, if account.is_signer { 1 } else { 0 }));
        r.push(LogLine::Message("- Key"));
        r.push(LogLine::Key(account.key));
        r.push(LogLine::Message("- Lamports"));
        r.push(LogLine::Values(0, 0, 0, 0, account.lamports));
        r.push(LogLine::Message("- Account data length"));
        r.push(LogLine::Values(0, 0, 0, 0, account.data.len() as u64));
        r.push(LogLine::Message("- Owner"));
        r.push(LogLine::Key(account.owner));
        assert(accounts@.take(i + 1).drop_last() =~= accounts@.take(i as int));
        assert(r@ =~= before + account_lines(i as int, accounts@[i as int]));
        i = i + 1;
    }
    assert(accounts@.take(accounts@.len() as int) =~= accounts@);
    r.push(LogLine::Message("Instruction data"));
    let hex = sol_log_slice(data);
    let ghost head = r@;
    let mut j: usize = 0;
    while j < hex.len()
        invariant
            j <= hex@.len(),
            hex@.len() == data@.len(),
            forall|k: int| 0 <= k < data@.len() ==> hex@[k] == (0u64, 0u64, 0u64, k as u64, data@[k] as u64),
            r@ == head + slice_lines(data@).take(j as int),
        decreases hex@.len() - j,
    {
        let (a, b, c, d, e) = hex[j];
        r.push(LogLine::Values(a, b, c, d, e));
        assert(slice_lines(data@).take(j + 1) =~= slice_lines(data@).take(j as int).push(
            LogLine::Values(a, b, c, d, e),
        ));
        j = j + 1;
    }
    assert(slice_lines(data@).take(data@.len() as int) =~= slice_lines(data@));
    r
}

} // verus!
