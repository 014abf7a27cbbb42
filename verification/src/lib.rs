//! Tools for writing lightweight Solana programs: instruction selectors and account
//! discriminators, instruction-data encodings for cross-program invocations (System, Token,
//! Token Extensions and Associated Token Account programs), account-space computations and
//! seed encodings for program-derived addresses.
//!
//! Everything that reaches the Solana runtime (syscalls, logging, sysvars) happens outside
//! this crate: the functions here compute the exact invocations (program, account metas,
//! instruction data, account infos and signer seeds) that the caller then hands to the runtime.
#![allow(unused_imports)]

pub mod bytes;
pub mod pubkey;
pub mod entrypoint;
pub mod program_error;
pub mod cpi;
pub mod discriminator;
pub mod error;
pub mod log;
pub mod pda;
pub mod types;
