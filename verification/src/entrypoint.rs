//! Accounts as a program sees them, and the C-layout records handed to the runtime for
//! cross-program invocations.

use vstd::prelude::*;

use crate::program_error::{ProgramError, ProgramResult};
use crate::pubkey::Pubkey;

verus! {

/// An account passed to a program. The borrow state packs two 4-bit counters: the high nibble
/// tracks borrows of the lamports and the low nibble borrows of the data; in each nibble the top
/// bit flags a mutable borrow and the low three bits count immutable borrows.
pub struct NoStdAccountInfo {
    pub key: Pubkey,
    pub owner: Pubkey,
    pub lamports: u64,
    pub data: Vec<u8>,
    pub is_signer: bool,
    pub is_writable: bool,
    pub executable: bool,
    pub borrow_state: u8,
}

/// Account metadata of an instruction: address and privileges.
#[derive(Clone, Copy, Debug)]
pub struct AccountMetaC {
    pub pubkey: Pubkey,
    pub is_writable: bool,
    pub is_signer: bool,
}

/// Account handed to the runtime alongside an instruction.
#[derive(Clone, Copy, Debug)]
pub struct AccountInfoC {
    pub key: Pubkey,
    pub lamports: u64,
    pub data_len: u64,
    pub owner: Pubkey,
    pub rent_epoch: u64,
    pub is_signer: bool,
    pub is_writable: bool,
    pub executable: bool,
}

/// Lamports can be borrowed immutably: no mutable borrow and fewer than 7 immutable ones.
pub open spec fn lamports_borrowable(state: u8) -> bool {
    state & 0x80 == 0 && state & 0x70 != 0x70
}

/// Lamports can be borrowed mutably: no borrow of any kind.
pub open spec fn lamports_mut_borrowable(state: u8) -> bool {
    state & 0xf0 == 0
}

/// Data can be borrowed immutably: no mutable borrow and fewer than 7 immutable ones.
pub open spec fn data_borrowable(state: u8) -> bool {
    state & 0x08 == 0 && state & 0x07 != 0x07
}

/// Data can be borrowed mutably: no borrow of any kind.
pub open spec fn data_mut_borrowable(state: u8) -> bool {
    state & 0x0f == 0
}

impl NoStdAccountInfo {
    /// Metadata for an instruction, with the account's own privileges.
    pub open spec fn spec_meta(&self) -> AccountMetaC {
        AccountMetaC { pubkey: self.key, is_writable: self.is_writable, is_signer: self.is_signer }
    }

    /// Metadata for an instruction that the account signs (for a program-derived address the
    /// invoking program signs with seeds).
    pub open spec fn spec_meta_signer(&self) -> AccountMetaC {
        AccountMetaC { pubkey: self.key, is_writable: self.is_writable, is_signer: true }
    }

    /// The record handed to the runtime for this account.
    pub open spec fn spec_info(&self) -> AccountInfoC {
        AccountInfoC {
            key: self.key,
            lamports: self.lamports,
            data_len: self.data@.len() as u64,
            owner: self.owner,
            rent_epoch: 0,
            is_signer: self.is_signer,
            is_writable: self.is_writable,
            executable: self.executable,
        }
    }

    pub fn key(&self) -> (r: &Pubkey)
        ensures
            *r == self.key,
    {
        &self.key
    }

    pub fn owner(&self) -> (r: &Pubkey)
        ensures
            *r == self.owner,
    {
        &self.owner
    }

    pub fn is_signer(&self) -> (r: bool)
        ensures
            r == self.is_signer,
    {
        self.is_signer
    }

    pub fn is_writable(&self) -> (r: bool)
        ensures
            r == self.is_writable,
    {
        self.is_writable
    }

    pub fn data_len(&self) -> (r: usize)
        ensures
            r == self.data@.len(),
    {
        self.data.len()
    }

    pub fn to_meta_c(&self) -> (r: AccountMetaC)
        ensures
            r == self.spec_meta(),
    {
        AccountMetaC { pubkey: self.key, is_writable: self.is_writable, is_signer: self.is_signer }
    }

    pub fn to_meta_c_signer(&self) -> (r: AccountMetaC)
        ensures
            r == self.spec_meta_signer(),
    {
        AccountMetaC { pubkey: self.key, is_writable: self.is_writable, is_signer: true }
    }

    pub fn to_info_c(&self) -> (r: AccountInfoC)
        ensures
            r == self.spec_info(),
    {
        AccountInfoC {
            key: self.key,
            lamports: self.lamports,
            data_len: self.data.len() as u64,
            owner: self.owner,
            rent_epoch: 0,
            is_signer: self.is_signer,
            is_writable: self.is_writable,
            executable: self.executable,
        }
    }

    /// Reads the lamports, failing if they are mutably borrowed or already borrowed 7 times.
    pub fn try_borrow_lamports(&self) -> (r: Result<u64, ProgramError>)
        ensures
            lamports_borrowable(self.borrow_state) ==> r == Ok::<u64, ProgramError>(self.lamports),
            !lamports_borrowable(self.borrow_state) ==> r == Err::<u64, ProgramError>(
                ProgramError::AccountBorrowFailed,
            ),
    {
        if self.borrow_state & 0x80 != 0 {
            return Err(ProgramError::AccountBorrowFailed);
        }
        if self.borrow_state & 0x70 == 0x70 {
            return Err(ProgramError::AccountBorrowFailed);
        }
        Ok(self.lamports)
    }

    /// Checks that the lamports can be borrowed mutably, i.e. they are not borrowed at all.
    pub fn try_borrow_mut_lamports(&self) -> (r: ProgramResult)
        ensures
            lamports_mut_borrowable(self.borrow_state) ==> r == Ok::<(), ProgramError>(()),
            !lamports_mut_borrowable(self.borrow_state) ==> r == Err::<(), ProgramError>(
                ProgramError::AccountBorrowFailed,
            ),
    {
        if self.borrow_state & 0xf0 != 0 {
            return Err(ProgramError::AccountBorrowFailed);
        }
        Ok(())
    }

    /// Reads the data, failing if it is mutably borrowed or already borrowed 7 times.
    pub fn try_borrow_data(&self) -> (r: Result<&[u8], ProgramError>)
        ensures
            data_borrowable(self.borrow_state) ==> r is Ok && r->Ok_0@ == self.data@,
            !data_borrowable(self.borrow_state) ==> r is Err && r->Err_0
                == ProgramError::AccountBorrowFailed,
    {
        if self.borrow_state & 0x08 != 0 {
            return Err(ProgramError::AccountBorrowFailed);
        }
        if self.borrow_state & 0x07 == 0x07 {
            return Err(ProgramError::AccountBorrowFailed);
        }
        Ok(self.data.as_slice())
    }

    /// Checks that the data can be borrowed mutably, i.e. it is not borrowed at all.
    pub fn try_borrow_mut_data(&self) -> (r: ProgramResult)
        ensures
            data_mut_borrowable(self.borrow_state) ==> r == Ok::<(), ProgramError>(()),
            !data_mut_borrowable(self.borrow_state) ==> r == Err::<(), ProgramError>(
                ProgramError::AccountBorrowFailed,
            ),
    {
        if self.borrow_state & 0x0f != 0 {
            return Err(ProgramError::AccountBorrowFailed);
        }
        Ok(())
    }
}

} // verus!
