//! Errors of this crate and how they map to program errors.

use vstd::prelude::*;

use crate::discriminator::{prefix_padded, sha256_digest, Discriminator};
use crate::program_error::ProgramError;
use vstd::string::StringSliceAdditionalSpecFns;

verus! {

/// The big-endian `u32` read from the first four bytes of `bytes`.
pub open spec fn be_u32(bytes: Seq<u8>) -> int {
    (bytes[0] as u32) * 0x1000000 + (bytes[1] as u32) * 0x10000 + (bytes[2] as u32) * 0x100 + (
    bytes[3] as u32)
}

/// The custom error code for a label: the 4-byte SHA-256 discriminator of the label, read as a
/// big-endian `u32`.
pub open spec fn label_error_code(label: Seq<u8>) -> int {
    be_u32(prefix_padded(sha256_digest(label), 4))
}

/// Reads four bytes as a big-endian `u32`.
pub fn u32_from_be_bytes(bytes: [u8; 4]) -> (r: u32)
    ensures
        r == be_u32(bytes@),
{
    (bytes[0] as u32) * 0x1000000 + (bytes[1] as u32) * 0x10000 + (bytes[2] as u32) * 0x100 + (
    bytes[3] as u32)
}

/// Errors of this crate.
#[derive(Debug, Clone, Copy)]
pub enum SealevelToolsError<'a> {
    /// A program error passed through unchanged.
    PassThrough(ProgramError),
    /// Error relating to account checks, with messages to log. Maps to the custom program error
    /// code [SealevelToolsError::account_info_code].
    AccountInfo(&'a [&'a str]),
    /// Error relating to cross-program invocations, with messages to log. Maps to the custom
    /// program error code [SealevelToolsError::cpi_code].
    Cpi(&'a [&'a str]),
}

impl<'a> SealevelToolsError<'a> {
    /// Custom program error code of [SealevelToolsError::AccountInfo]: the first four bytes of the
    /// SHA-256 hash of "sealevel_tools::account_info", read as a big-endian `u32`.
    pub fn account_info_code() -> (r: u32)
        ensures
            r == label_error_code("sealevel_tools::account_info".spec_bytes()),
    {
        let label = "sealevel_tools::account_info".as_bytes();
        let bytes: [u8; 4] = Discriminator::Sha2(label).to_bytes();
        u32_from_be_bytes(bytes)
    }

    /// Custom program error code of [SealevelToolsError::Cpi]: the first four bytes of the SHA-256
    /// hash of "sealevel_tools::cpi", read as a big-endian `u32`.
    pub fn cpi_code() -> (r: u32)
        ensures
            r == label_error_code("sealevel_tools::cpi".spec_bytes()),
    {
        let label = "sealevel_tools::cpi".as_bytes();
        let bytes: [u8; 4] = Discriminator::Sha2(label).to_bytes();
        u32_from_be_bytes(bytes)
    }
}

impl<'a> SealevelToolsError<'a> {
    /// The messages logged when this error is turned into a program error: a line naming the
    /// kind of custom error, then the error's own messages. A passed-through error logs nothing.
    pub fn log_messages(&self) -> (r: Vec<&'a str>)
        ensures
            r@ == match *self {
                SealevelToolsError::PassThrough(_) => Seq::<&'a str>::empty(),
                SealevelToolsError::AccountInfo(msgs) => seq!["Custom error: AccountInfo"]
                    + msgs@,
                SealevelToolsError::Cpi(msgs) => seq!["Custom error: CPI"] + msgs@,
            },
    {
        let mut r: Vec<&'a str> = Vec::new();
        let msgs: &'a [&'a str] = match *self {
            SealevelToolsError::PassThrough(_) => {
                return r;
            },
            SealevelToolsError::AccountInfo(msgs) => {
                r.push("Custom error: AccountInfo");
                msgs
            },
            SealevelToolsError::Cpi(msgs) => {
                r.push("Custom error: CPI");
                msgs
            },
        };
        let ghost first = r@;
        let mut i: usize = 0;
        while i < msgs.len()
            invariant
                i <= msgs@.len(),
                first.len() == 1,
                r@ == first + msgs@.take(i as int),
            decreases msgs@.len() - i,
        {
            r.push(msgs[i]);
            i = i + 1;
            assert(r@ =~= first + msgs@.take(i as int));
        }
        assert(msgs@.take(msgs@.len() as int) =~= msgs@);
        r
    }
}

/// The program error of a crate error: passed-through errors unchanged, the others as custom
/// errors with the code of their kind.
pub open spec fn program_error_of(e: SealevelToolsError) -> ProgramError {
    match e {
        SealevelToolsError::PassThrough(err) => err,
        SealevelToolsError::AccountInfo(_) => ProgramError::Custom(
            label_error_code("sealevel_tools::account_info".spec_bytes()) as u32,
        ),
        SealevelToolsError::Cpi(_) => ProgramError::Custom(
            label_error_code("sealevel_tools::cpi".spec_bytes()) as u32,
        ),
    }
}

impl<'a> From<SealevelToolsError<'a>> for ProgramError {
    fn from(e: SealevelToolsError<'a>) -> (r: ProgramError) {
        match e {
            SealevelToolsError::PassThrough(err) => err,
            SealevelToolsError::AccountInfo(_) => ProgramError::Custom(
                SealevelToolsError::account_info_code(),
            ),
            SealevelToolsError::Cpi(_) => ProgramError::Custom(SealevelToolsError::cpi_code()),
        }
    }
}

impl<'a> vstd::std_specs::convert::FromSpecImpl<SealevelToolsError<'a>> for ProgramError {
    open spec fn obeys_from_spec() -> bool {
        true
    }

    open spec fn from_spec(e: SealevelToolsError<'a>) -> ProgramError {
        program_error_of(e)
    }
}

impl<'a> From<ProgramError> for SealevelToolsError<'a> {
    fn from(e: ProgramError) -> (r: SealevelToolsError<'a>) {
        SealevelToolsError::PassThrough(e)
    }
}

impl<'a> vstd::std_specs::convert::FromSpecImpl<ProgramError> for SealevelToolsError<'a> {
    open spec fn obeys_from_spec() -> bool {
        true
    }

    open spec fn from_spec(e: ProgramError) -> SealevelToolsError<'a> {
        SealevelToolsError::PassThrough(e)
    }
}

/// A program error wrapped as a crate error and turned back into a program error is unchanged.
pub proof fn lemma_pass_through_roundtrip(e: ProgramError)
    ensures
        program_error_of(SealevelToolsError::PassThrough(e)) == e,
{
}

} // verus!
