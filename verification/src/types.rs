//! Inputs that name an account either by address or by the account itself.

use vstd::prelude::*;

use crate::entrypoint::NoStdAccountInfo;
use crate::pubkey::Pubkey;

verus! {

/// An account given either by its address or by the account itself.
pub enum InputAccount<'b> {
    /// The account's address.
    Key(&'b Pubkey),
    /// The account.
    Info(&'b NoStdAccountInfo),
}

impl<'b> InputAccount<'b> {
    /// The account's address.
    pub open spec fn spec_key(&self) -> Pubkey {
        match *self {
            InputAccount::Key(key) => *key,
            InputAccount::Info(info) => info.key,
        }
    }

    /// The account's address.
    pub fn key(&self) -> (r: &Pubkey)
        ensures
            *r == self.spec_key(),
    {
        match self {
            InputAccount::Key(key) => key,
            InputAccount::Info(info) => &info.key,
        }
    }
}

impl<'b> From<&'b Pubkey> for InputAccount<'b> {
    fn from(pubkey: &'b Pubkey) -> (r: InputAccount<'b>) {
        InputAccount::Key(pubkey)
    }
}

impl<'b> vstd::std_specs::convert::FromSpecImpl<&'b Pubkey> for InputAccount<'b> {
    open spec fn obeys_from_spec() -> bool {
        true
    }

    open spec fn from_spec(pubkey: &'b Pubkey) -> InputAccount<'b> {
        InputAccount::Key(pubkey)
    }
}

impl<'b> From<&'b NoStdAccountInfo> for InputAccount<'b> {
    fn from(info: &'b NoStdAccountInfo) -> (r: InputAccount<'b>) {
        InputAccount::Info(info)
    }
}

impl<'b> vstd::std_specs::convert::FromSpecImpl<&'b NoStdAccountInfo> for InputAccount<'b> {
    open spec fn obeys_from_spec() -> bool {
        true
    }

    open spec fn from_spec(info: &'b NoStdAccountInfo) -> InputAccount<'b> {
        InputAccount::Info(info)
    }
}

/// An account given by address or by itself, with the seeds that sign for it when it is a
/// program-derived address. The seeds may be [None] when the account signed the transaction.
pub struct InputAuthority<'b, 'c> {
    pub account: InputAccount<'c>,
    pub signer_seeds: Option<&'c [&'b [u8]]>,
}

} // verus!
