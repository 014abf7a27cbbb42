//! Querying a token program for the size of a token account with given extensions.

use vstd::prelude::*;

use crate::bytes::{
    le_bytes_u16, le_bytes_u64, lemma_u16_le_roundtrip, u16_from_le, u16_to_le_bytes, u64_from_le,
};
use crate::cpi::{invoke_unsigned, unsigned_invocation, Invocation, InvocationView};
use crate::entrypoint::NoStdAccountInfo;
use crate::pubkey::Pubkey;

verus! {

/// The extensions of Token Extensions mints and accounts.
#[derive(Clone, Copy, Debug, PartialEq, Eq, Structural)]
pub enum ExtensionType {
    Uninitialized,
    TransferFeeConfig,
    TransferFeeAmount,
    MintCloseAuthority,
    ConfidentialTransferMint,
    ConfidentialTransferAccount,
    DefaultAccountState,
    ImmutableOwner,
    MemoTransfer,
    NonTransferable,
    InterestBearingConfig,
    CpiGuard,
    PermanentDelegate,
    NonTransferableAccount,
    TransferHook,
    TransferHookAccount,
    ConfidentialTransferFeeConfig,
    ConfidentialTransferFeeAmount,
    MetadataPointer,
    TokenMetadata,
    GroupPointer,
    TokenGroup,
    GroupMemberPointer,
    TokenGroupMember,
    ConfidentialMintBurn,
    ScaledUiAmount,
    Pausable,
    PausableAccount,
}

impl ExtensionType {
    /// The number that identifies this extension: its position in the list of extensions.
    pub open spec fn spec_code(self) -> u16 {
        match self {
            ExtensionType::Uninitialized => 0,
            ExtensionType::TransferFeeConfig => 1,
            ExtensionType::TransferFeeAmount => 2,
            ExtensionType::MintCloseAuthority => 3,
            ExtensionType::ConfidentialTransferMint => 4,
            ExtensionType::ConfidentialTransferAccount => 5,
            ExtensionType::DefaultAccountState => 6,
            ExtensionType::ImmutableOwner => 7,
            ExtensionType::MemoTransfer => 8,
            ExtensionType::NonTransferable => 9,
            ExtensionType::InterestBearingConfig => 10,
            ExtensionType::CpiGuard => 11,
            ExtensionType::PermanentDelegate => 12,
            ExtensionType::NonTransferableAccount => 13,
            ExtensionType::TransferHook => 14,
            ExtensionType::TransferHookAccount => 15,
            ExtensionType::ConfidentialTransferFeeConfig => 16,
            ExtensionType::ConfidentialTransferFeeAmount => 17,
            ExtensionType::MetadataPointer => 18,
            ExtensionType::TokenMetadata => 19,
            ExtensionType::GroupPointer => 20,
            ExtensionType::TokenGroup => 21,
            ExtensionType::GroupMemberPointer => 22,
            ExtensionType::TokenGroupMember => 23,
            ExtensionType::ConfidentialMintBurn => 24,
            ExtensionType::ScaledUiAmount => 25,
            ExtensionType::Pausable => 26,
            ExtensionType::PausableAccount => 27,
        }
    }

    /// The number that identifies this extension.
    pub fn to_u16(self) -> (r: u16)
        ensures
            r == self.spec_code(),
    {
        match self {
            ExtensionType::Uninitialized => 0,
            ExtensionType::TransferFeeConfig => 1,
            ExtensionType::TransferFeeAmount => 2,
            ExtensionType::MintCloseAuthority => 3,
            ExtensionType::ConfidentialTransferMint => 4,
            ExtensionType::ConfidentialTransferAccount => 5,
            ExtensionType::DefaultAccountState => 6,
            ExtensionType::ImmutableOwner => 7,
            ExtensionType::MemoTransfer => 8,
            ExtensionType::NonTransferable => 9,
            ExtensionType::InterestBearingConfig => 10,
            ExtensionType::CpiGuard => 11,
            ExtensionType::PermanentDelegate => 12,
            ExtensionType::NonTransferableAccount => 13,
            ExtensionType::TransferHook => 14,
            ExtensionType::TransferHookAccount => 15,
            ExtensionType::ConfidentialTransferFeeConfig => 16,
            ExtensionType::ConfidentialTransferFeeAmount => 17,
            ExtensionType::MetadataPointer => 18,
            ExtensionType::TokenMetadata => 19,
            ExtensionType::GroupPointer => 20,
            ExtensionType::TokenGroup => 21,
            ExtensionType::GroupMemberPointer => 22,
            ExtensionType::TokenGroupMember => 23,
            ExtensionType::ConfidentialMintBurn => 24,
            ExtensionType::ScaledUiAmount => 25,
            ExtensionType::Pausable => 26,
            ExtensionType::PausableAccount => 27,
        }
    }

    /// The two bytes that encode this extension: its number in little-endian order.
    pub fn to_bytes(self) -> (r: [u8; 2])
        ensures
            r@ == le_bytes_u16(self.spec_code()),
    {
        u16_to_le_bytes(self.to_u16())
    }
}

/// The encoding of a list of extensions: each extension's two bytes, in order.
pub open spec fn extensions_data(extensions: Seq<ExtensionType>) -> Seq<u8>
    decreases extensions.len(),
{
    if extensions.len() == 0 {
        Seq::empty()
    } else {
        extensions_data(extensions.drop_last()) + le_bytes_u16(extensions.last().spec_code())
    }
}

/// Instruction data of `GetAccountDataSize`: selector 21, then the extensions.
pub open spec fn get_account_data_size_data(extensions: Seq<ExtensionType>) -> Seq<u8> {
    seq![21u8] + extensions_data(extensions)
}

/// Arguments of `GetAccountDataSize`, which makes a token program report (as return data) the
/// size of a token account for a mint with the given extensions.
pub struct GetAccountDataSize<'a> {
    pub token_program_id: &'a Pubkey,
    pub mint: &'a NoStdAccountInfo,
    pub extensions: &'a [ExtensionType],
}

impl<'a> GetAccountDataSize<'a> {
    /// The `GetAccountDataSize` invocation (selector 21). The size arrives as return data: read
    /// it with [account_data_size_from_return_data].
    pub fn into_return_data<'s, 't>(self) -> (r: Invocation<'s, 't>)
        requires
            1 + 2 * self.extensions@.len() <= usize::MAX,
        ensures
            r@ == unsigned_invocation(
                self.token_program_id@,
                seq![self.mint],
                get_account_data_size_data(self.extensions@),
            ),
    {
        let mut instruction_data: Vec<u8> = Vec::new();
        instruction_data.push(21);
        let mut i: usize = 0;
        while i < self.extensions.len()
            invariant
                i <= self.extensions@.len(),
                instruction_data@ == get_account_data_size_data(self.extensions@.take(i as int)),
            decreases self.extensions@.len() - i,
        {
            let bytes = self.extensions[i].to_bytes();
            instruction_data.push(bytes[0]);
            instruction_data.push(bytes[1]);
            i = i + 1;
            assert(self.extensions@.take(i as int).drop_last() =~= self.extensions@.take(i - 1));
            assert(instruction_data@ =~= get_account_data_size_data(self.extensions@.take(i as int)));
        }
        assert(self.extensions@.take(self.extensions@.len() as int) =~= self.extensions@);
        let accounts = [self.mint];
        assert(accounts@ =~= seq![self.mint]);
        invoke_unsigned(self.token_program_id, &accounts, instruction_data.as_slice())
    }
}

/// The account size reported as return data: eight little-endian bytes. The token program
/// always sets this return data, so its absence is not expected.
pub fn account_data_size_from_return_data(return_data: Option<(Pubkey, [u8; 8])>) -> (r: usize)
    requires
        return_data is Some,
    ensures
        r == u64_from_le(return_data->Some_0.1@) as usize,
{
    let (_, data) = return_data.unwrap();
    u64_from_le_bytes(data) as usize
}

/// Decodes eight little-endian bytes.
pub fn u64_from_le_bytes(bytes: [u8; 8]) -> (r: u64)
    ensures
        r == u64_from_le(bytes@),
{
    (bytes[0] as u64) | (bytes[1] as u64) << 8 | (bytes[2] as u64) << 16 | (bytes[3] as u64) << 24
        | (bytes[4] as u64) << 32 | (bytes[5] as u64) << 40 | (bytes[6] as u64) << 48 | (
    bytes[7] as u64) << 56
}

/// The number of each extension is its position in the token programs' list of extensions
/// (uninitialized first, at 0; ...; the pausable account last, at 27): consecutive
/// extensions have consecutive numbers, so different extensions have different numbers.
pub proof fn lemma_extension_type_codes_follow_list(a: ExtensionType, b: ExtensionType)
    ensures
        ExtensionType::Uninitialized.spec_code() == 0,
        ExtensionType::TransferFeeConfig.spec_code() == ExtensionType::Uninitialized.spec_code() + 1,
        ExtensionType::TransferFeeAmount.spec_code() == ExtensionType::TransferFeeConfig.spec_code() + 1,
        ExtensionType::MintCloseAuthority.spec_code() == ExtensionType::TransferFeeAmount.spec_code() + 1,
        ExtensionType::ConfidentialTransferMint.spec_code() == ExtensionType::MintCloseAuthority.spec_code() + 1,
        ExtensionType::ConfidentialTransferAccount.spec_code() == ExtensionType::ConfidentialTransferMint.spec_code() + 1,
        ExtensionType::DefaultAccountState.spec_code() == ExtensionType::ConfidentialTransferAccount.spec_code() + 1,
        ExtensionType::ImmutableOwner.spec_code() == ExtensionType::DefaultAccountState.spec_code() + 1,
        ExtensionType::MemoTransfer.spec_code() == ExtensionType::ImmutableOwner.spec_code() + 1,
        ExtensionType::NonTransferable.spec_code() == ExtensionType::MemoTransfer.spec_code() + 1,
        ExtensionType::InterestBearingConfig.spec_code() == ExtensionType::NonTransferable.spec_code() + 1,
        ExtensionType::CpiGuard.spec_code() == ExtensionType::InterestBearingConfig.spec_code() + 1,
        ExtensionType::PermanentDelegate.spec_code() == ExtensionType::CpiGuard.spec_code() + 1,
        ExtensionType::NonTransferableAccount.spec_code() == ExtensionType::PermanentDelegate.spec_code() + 1,
        ExtensionType::TransferHook.spec_code() == ExtensionType::NonTransferableAccount.spec_code() + 1,
        ExtensionType::TransferHookAccount.spec_code() == ExtensionType::TransferHook.spec_code() + 1,
        ExtensionType::ConfidentialTransferFeeConfig.spec_code() == ExtensionType::TransferHookAccount.spec_code() + 1,
        ExtensionType::ConfidentialTransferFeeAmount.spec_code() == ExtensionType::ConfidentialTransferFeeConfig.spec_code() + 1,
        ExtensionType::MetadataPointer.spec_code() == ExtensionType::ConfidentialTransferFeeAmount.spec_code() + 1,
        ExtensionType::TokenMetadata.spec_code() == ExtensionType::MetadataPointer.spec_code() + 1,
        ExtensionType::GroupPointer.spec_code() == ExtensionType::TokenMetadata.spec_code() + 1,
        ExtensionType::TokenGroup.spec_code() == ExtensionType::GroupPointer.spec_code() + 1,
        ExtensionType::GroupMemberPointer.spec_code() == ExtensionType::TokenGroup.spec_code() + 1,
        ExtensionType::TokenGroupMember.spec_code() == ExtensionType::GroupMemberPointer.spec_code() + 1,
        ExtensionType::ConfidentialMintBurn.spec_code() == ExtensionType::TokenGroupMember.spec_code() + 1,
        ExtensionType::ScaledUiAmount.spec_code() == ExtensionType::ConfidentialMintBurn.spec_code() + 1,
        ExtensionType::Pausable.spec_code() == ExtensionType::ScaledUiAmount.spec_code() + 1,
        ExtensionType::PausableAccount.spec_code() == ExtensionType::Pausable.spec_code() + 1,
        a.spec_code() <= 27,
        a.spec_code() == b.spec_code() ==> a == b,
{
}

/// The encoding of a list of extensions is two bytes per extension, each pair the extension's
/// number in little-endian, in the list's order.
proof fn lemma_extensions_data_pairs(extensions: Seq<ExtensionType>)
    ensures
        extensions_data(extensions).len() == 2 * extensions.len(),
        forall|i: int|
            0 <= i < extensions.len() ==> extensions_data(extensions).subrange(2 * i, 2 * i + 2)
                == le_bytes_u16((#[trigger] extensions[i]).spec_code()),
    decreases extensions.len(),
{
    if extensions.len() > 0 {
        let init = extensions.drop_last();
        lemma_extensions_data_pairs(init);
        let d = extensions_data(extensions);
        assert forall|i: int| 0 <= i < extensions.len() implies d.subrange(2 * i, 2 * i + 2)
            == le_bytes_u16((#[trigger] extensions[i]).spec_code()) by {
            if i < init.len() {
                assert(init[i] == extensions[i]);
                assert(d.subrange(2 * i, 2 * i + 2) =~= extensions_data(init).subrange(2 * i, 2 * i + 2));
            } else {
                assert(d.subrange(2 * i, 2 * i + 2) =~= le_bytes_u16(extensions.last().spec_code()));
            }
        }
    }
}

/// `GetAccountDataSize` data: selector 21, then each extension's number as two little-endian
/// bytes, in the list's order.
pub proof fn lemma_get_account_data_size_data(extensions: Seq<ExtensionType>)
    ensures
        get_account_data_size_data(extensions).len() == 1 + 2 * extensions.len(),
        get_account_data_size_data(extensions)[0] == 21u8,
        forall|i: int|
            0 <= i < extensions.len() ==> u16_from_le(
                get_account_data_size_data(extensions).subrange(1 + 2 * i, 3 + 2 * i),
            ) == (#[trigger] extensions[i]).spec_code(),
{
    lemma_extensions_data_pairs(extensions);
    let d = get_account_data_size_data(extensions);
    assert forall|i: int| 0 <= i < extensions.len() implies u16_from_le(
        d.subrange(1 + 2 * i, 3 + 2 * i),
    ) == (#[trigger] extensions[i]).spec_code() by {
        assert(d.subrange(1 + 2 * i, 3 + 2 * i) =~= extensions_data(extensions).subrange(
            2 * i,
            2 * i + 2,
        ));
        lemma_u16_le_roundtrip(extensions[i].spec_code());
    }
}

} // verus!
