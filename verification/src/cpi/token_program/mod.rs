//! Invocations of the SPL Token and Token Extensions programs.
//!
//! Both programs share the instruction layouts used here: the token program to invoke is passed
//! in by address.

pub mod create_mint;
pub mod create_token_account;
pub mod extensions;
pub mod get_account_data_size;
pub mod transfer;

use vstd::prelude::*;

use crate::bytes::{le_bytes_u64, lemma_u64_le_roundtrip, u64_from_le, u64_to_le_bytes, write_bytes, zeros};
use crate::cpi::{authority_invocation, invoke_with_authority, CpiAuthority, Invocation, InvocationView};
use crate::entrypoint::NoStdAccountInfo;
use crate::error::SealevelToolsError;
use crate::program_error::ProgramError;
use crate::pubkey::Pubkey;

verus! {

/// The Token Extensions program's address, "TokenzQdBNbLqP5VEhdkAS6EPFLC1PHnBqCXEpPxuEb" in
/// base 58.
pub open spec fn token_2022_program_id_bytes() -> Seq<u8> {
    seq![
        6u8, 221, 246, 225, 238, 117, 143, 222, 24, 66, 93, 188, 228, 108, 205, 218, 182, 26, 252,
        77, 131, 185, 13, 39, 254, 189, 249, 40, 216, 161, 139, 252,
    ]
}

/// The legacy SPL Token program's address, "TokenkegQfeZyiNwAJbNbGKPFXCWuBvf9Ss623VQ5DA" in
/// base 58.
pub open spec fn token_program_id_bytes() -> Seq<u8> {
    seq![
        6u8, 221, 246, 225, 215, 101, 161, 147, 217, 203, 225, 70, 206, 235, 121, 172, 28, 180,
        133, 237, 95, 91, 55, 145, 58, 140, 245, 133, 126, 255, 0, 169,
    ]
}

/// The Token Extensions program's address.
///
/// Reads `spl_token_2022::ID`, declared there from the base-58 string
/// "TokenzQdBNbLqP5VEhdkAS6EPFLC1PHnBqCXEpPxuEb"; the contract claims the 32 bytes that string
/// decodes to.
#[verifier::external_body]
pub(crate) fn token_2022_program_id() -> (r: Pubkey)
    ensures
        r@ == token_2022_program_id_bytes(),
{
    Pubkey(spl_token_2022::ID.to_bytes())
}

/// Whether `key` is the address of the legacy SPL Token program or of the Token Extensions
/// program.
///
/// Calls `spl_token_2022::check_spl_token_program_account`, which accepts exactly
/// `spl_token_2022::id()` and `spl_token::id()` (declared from
/// "TokenzQdBNbLqP5VEhdkAS6EPFLC1PHnBqCXEpPxuEb" and "TokenkegQfeZyiNwAJbNbGKPFXCWuBvf9Ss623VQ5DA");
/// the contract claims the bytes those strings decode to.
#[verifier::external_body]
pub(crate) fn is_any_token_program_id(key: &Pubkey) -> (r: bool)
    ensures
        r == (key@ == token_2022_program_id_bytes() || key@ == token_program_id_bytes()),
{
    spl_token_2022::check_spl_token_program_account(&solana_pubkey::Pubkey::new_from_array(key.0))
        .is_ok()
}

/// The size of a mint account without extensions.
///
/// Reads `<spl_token_2022::state::Mint as Pack>::LEN`, which the source sets to 82.
#[verifier::external_body]
pub(crate) fn mint_len() -> (r: usize)
    ensures
        r == 82,
{
    <spl_token_2022::state::Mint as solana_program_pack::Pack>::LEN
}

/// The size of a token account without extensions.
///
/// Reads `<spl_token_2022::state::Account as Pack>::LEN`, which the source sets to 165.
#[verifier::external_body]
pub(crate) fn token_account_len() -> (r: usize)
    ensures
        r == 165,
{
    <spl_token_2022::state::Account as solana_program_pack::Pack>::LEN
}

/// The size of an account with extensions before any extension: the base token account size
/// and one byte for the account type.
pub open spec fn base_with_extensions_len() -> nat {
    166
}

/// The size of an extension without value: its type and its length, two bytes each.
pub open spec fn empty_extension_len() -> nat {
    4
}

/// The crate error for a token program that is neither SPL Token nor Token Extensions.
pub fn error_expected_token_program() -> (r: SealevelToolsError<'static>)
    ensures
        r matches SealevelToolsError::Cpi(msgs) && msgs@.len() == 1 && msgs@[0]@
            == "Expected legacy SPL Token or Token Extensions program as ID"@,
{
    SealevelToolsError::Cpi(&["Expected legacy SPL Token or Token Extensions program as ID"])
}

/// The crate error for extensions asked of a program other than Token Extensions.
pub fn error_extensions_unsupported() -> (r: SealevelToolsError<'static>)
    ensures
        r matches SealevelToolsError::Cpi(msgs) && msgs@.len() == 1 && msgs@[0]@
            == "Extensions only supported with SPL Token Extensions program"@,
{
    SealevelToolsError::Cpi(&["Extensions only supported with SPL Token Extensions program"])
}

/// Instruction data carrying an amount: the selector, then the amount.
pub open spec fn amount_data(selector: u8, amount: u64) -> Seq<u8> {
    seq![selector] + le_bytes_u64(amount)
}

/// Instruction data carrying an amount checked against the mint's decimals: the selector, the
/// amount, then the decimals.
pub open spec fn checked_amount_data(selector: u8, amount: u64, decimals: u8) -> Seq<u8> {
    seq![selector] + le_bytes_u64(amount) + seq![decimals]
}

/// Instruction data carrying an address (owner or delegate): the selector, then the address.
pub open spec fn authority_data(selector: u8, authority: Pubkey) -> Seq<u8> {
    seq![selector] + authority@
}

/// Serializes instruction data carrying an amount.
pub fn serialize_amount_instruction_data(selector: u8, amount: u64) -> (r: [u8; 9])
    ensures
        r@ == amount_data(selector, amount),
{
    let mut instruction_data = [0u8; 9];
    instruction_data[0] = selector;
    let le = u64_to_le_bytes(amount);
    write_bytes(&mut instruction_data, 1, &le);
    assert(instruction_data@ =~= amount_data(selector, amount));
    instruction_data
}

/// Serializes instruction data carrying an amount and the mint's decimals.
pub fn serialize_checked_amount_instruction_data(selector: u8, amount: u64, decimals: u8) -> (r:
    [u8; 10])
    ensures
        r@ == checked_amount_data(selector, amount, decimals),
{
    let mut instruction_data = [0u8; 10];
    instruction_data[0] = selector;
    let le = u64_to_le_bytes(amount);
    write_bytes(&mut instruction_data, 1, &le);
    instruction_data[9] = decimals;
    assert(instruction_data@ =~= checked_amount_data(selector, amount, decimals));
    instruction_data
}

/// Serializes instruction data carrying an address.
pub fn serialize_authority_instruction_data(selector: u8, authority: &Pubkey) -> (r: [u8; 33])
    ensures
        r@ == authority_data(selector, *authority),
{
    let mut instruction_data = [0u8; 33];
    instruction_data[0] = selector;
    let bytes = authority.to_bytes();
    write_bytes(&mut instruction_data, 1, &bytes);
    assert(instruction_data@ =~= authority_data(selector, *authority));
    instruction_data
}

/// Arguments of `Approve`, which lets a delegate move up to an amount out of a token account.
pub struct Approve<'a, 'b: 'a> {
    pub token_program_id: &'a Pubkey,
    pub source: &'b NoStdAccountInfo,
    pub delegate: &'b NoStdAccountInfo,
    pub authority: CpiAuthority<'a, 'b>,
    pub amount: u64,
}

impl<'a, 'b: 'a> Approve<'a, 'b> {
    /// The `Approve` invocation: the source and the delegate, then the signing authority;
    /// data: selector 4 and the amount.
    pub open spec fn spec_invocation(self) -> InvocationView {
        authority_invocation(self.token_program_id@, seq![self.source, self.delegate], self.authority, amount_data(4, self.amount))
    }

    /// The `Approve` invocation (selector 4).
    pub fn into_invoke(self) -> (r: Invocation<'a, 'b>)
        ensures
            r@ == self.spec_invocation(),
    {
        let instruction_data = serialize_amount_instruction_data(4, self.amount);
        let accounts = [self.source, self.delegate];
        assert(accounts@ =~= seq![self.source, self.delegate]);
        invoke_with_authority(self.token_program_id, &accounts, self.authority, &instruction_data)
    }
}

/// Arguments of `Burn`, which destroys an amount held by a token account.
pub struct Burn<'a, 'b: 'a> {
    pub token_program_id: &'a Pubkey,
    pub source: &'b NoStdAccountInfo,
    pub mint: &'b NoStdAccountInfo,
    pub authority: CpiAuthority<'a, 'b>,
    pub amount: u64,
}

impl<'a, 'b: 'a> Burn<'a, 'b> {
    /// The `Burn` invocation: the source and the mint, then the signing authority;
    /// data: selector 8 and the amount.
    pub open spec fn spec_invocation(self) -> InvocationView {
        authority_invocation(self.token_program_id@, seq![self.source, self.mint], self.authority, amount_data(8, self.amount))
    }

    /// The `Burn` invocation (selector 8).
    pub fn into_invoke(self) -> (r: Invocation<'a, 'b>)
        ensures
            r@ == self.spec_invocation(),
    {
        let instruction_data = serialize_amount_instruction_data(8, self.amount);
        let accounts = [self.source, self.mint];
        assert(accounts@ =~= seq![self.source, self.mint]);
        invoke_with_authority(self.token_program_id, &accounts, self.authority, &instruction_data)
    }
}

/// Arguments of `CloseAccount`, which closes a token account (or a mint with the mint close
/// authority extension) and sends its lamports to a beneficiary.
pub struct CloseAccount<'a, 'b: 'a> {
    pub token_program_id: &'a Pubkey,
    pub account: &'b NoStdAccountInfo,
    pub beneficiary: &'b NoStdAccountInfo,
    pub authority: CpiAuthority<'a, 'b>,
}

impl<'a, 'b: 'a> CloseAccount<'a, 'b> {
    /// The `CloseAccount` invocation: the account and the beneficiary, then the signing authority;
    /// data: selector 9.
    pub open spec fn spec_invocation(self) -> InvocationView {
        authority_invocation(self.token_program_id@, seq![self.account, self.beneficiary], self.authority, seq![9u8])
    }

    /// The `CloseAccount` invocation (selector 9).
    pub fn into_invoke(self) -> (r: Invocation<'a, 'b>)
        ensures
            r@ == self.spec_invocation(),
    {
        let instruction_data = [9u8];
        let accounts = [self.account, self.beneficiary];
        assert(accounts@ =~= seq![self.account, self.beneficiary]);
        assert(instruction_data@ =~= seq![9u8]);
        invoke_with_authority(self.token_program_id, &accounts, self.authority, &instruction_data)
    }
}

/// Arguments of `FreezeAccount`, which stops a token account from moving tokens.
pub struct FreezeAccount<'a, 'b: 'a> {
    pub token_program_id: &'a Pubkey,
    pub account: &'b NoStdAccountInfo,
    pub mint: &'b NoStdAccountInfo,
    pub freeze_authority: CpiAuthority<'a, 'b>,
}

impl<'a, 'b: 'a> FreezeAccount<'a, 'b> {
    /// The `FreezeAccount` invocation: the account and the mint, then the signing authority;
    /// data: selector 10.
    pub open spec fn spec_invocation(self) -> InvocationView {
        authority_invocation(self.token_program_id@, seq![self.account, self.mint], self.freeze_authority, seq![10u8])
    }

    /// The `FreezeAccount` invocation (selector 10).
    pub fn into_invoke(self) -> (r: Invocation<'a, 'b>)
        ensures
            r@ == self.spec_invocation(),
    {
        let instruction_data = [10u8];
        let accounts = [self.account, self.mint];
        assert(accounts@ =~= seq![self.account, self.mint]);
        assert(instruction_data@ =~= seq![10u8]);
        invoke_with_authority(
            self.token_program_id,
            &accounts,
            self.freeze_authority,
            &instruction_data,
        )
    }
}

/// Arguments of `ThawAccount`, which lets a frozen token account move tokens again.
pub struct ThawAccount<'a, 'b: 'a> {
    pub token_program_id: &'a Pubkey,
    pub account: &'b NoStdAccountInfo,
    pub mint: &'b NoStdAccountInfo,
    pub freeze_authority: CpiAuthority<'a, 'b>,
}

impl<'a, 'b: 'a> ThawAccount<'a, 'b> {
    /// The `ThawAccount` invocation: the account and the mint, then the signing authority;
    /// data: selector 11.
    pub open spec fn spec_invocation(self) -> InvocationView {
        authority_invocation(self.token_program_id@, seq![self.account, self.mint], self.freeze_authority, seq![11u8])
    }

    /// The `ThawAccount` invocation (selector 11).
    pub fn into_invoke(self) -> (r: Invocation<'a, 'b>)
        ensures
            r@ == self.spec_invocation(),
    {
        let instruction_data = [11u8];
        let accounts = [self.account, self.mint];
        assert(accounts@ =~= seq![self.account, self.mint]);
        assert(instruction_data@ =~= seq![11u8]);
        invoke_with_authority(
            self.token_program_id,
            &accounts,
            self.freeze_authority,
            &instruction_data,
        )
    }
}

/// Arguments of `MintTo`, which mints an amount to a token account.
pub struct MintTo<'a, 'b: 'a> {
    pub token_program_id: &'b Pubkey,
    pub mint: &'a NoStdAccountInfo,
    pub destination: &'a NoStdAccountInfo,
    pub mint_authority: CpiAuthority<'a, 'b>,
    pub amount: u64,
}

impl<'a, 'b: 'a> MintTo<'a, 'b> {
    /// The `MintTo` invocation: the mint and the destination, then the signing authority;
    /// data: selector 7 and the amount.
    pub open spec fn spec_invocation(self) -> InvocationView {
        authority_invocation(self.token_program_id@, seq![self.mint, self.destination], self.mint_authority, amount_data(7, self.amount))
    }

    /// The `MintTo` invocation (selector 7).
    pub fn into_invoke(self) -> (r: Invocation<'a, 'b>)
        ensures
            r@ == self.spec_invocation(),
    {
        let instruction_data = serialize_amount_instruction_data(7, self.amount);
        let accounts = [self.mint, self.destination];
        assert(accounts@ =~= seq![self.mint, self.destination]);
        invoke_with_authority(
            self.token_program_id,
            &accounts,
            self.mint_authority,
            &instruction_data,
        )
    }
}

/// Arguments of `Revoke`, which removes a token account's delegate.
pub struct Revoke<'a, 'b: 'a> {
    pub token_program_id: &'b Pubkey,
    pub source: &'a NoStdAccountInfo,
    pub authority: CpiAuthority<'a, 'b>,
}

impl<'a, 'b: 'a> Revoke<'a, 'b> {
    /// The `Revoke` invocation: the source, then the signing authority; data: selector 5.
    pub open spec fn spec_invocation(self) -> InvocationView {
        authority_invocation(self.token_program_id@, seq![self.source], self.authority, seq![5u8])
    }

    /// The `Revoke` invocation (selector 5).
    pub fn into_invoke(self) -> (r: Invocation<'a, 'b>)
        ensures
            r@ == self.spec_invocation(),
    {
        let instruction_data = [5u8];
        let accounts = [self.source];
        assert(accounts@ =~= seq![self.source]);
        assert(instruction_data@ =~= seq![5u8]);
        invoke_with_authority(self.token_program_id, &accounts, self.authority, &instruction_data)
    }
}

/// Arguments of `SyncNative`, which syncs a wrapped-SOL token account's amount with its
/// lamports.
pub struct SyncNative<'a, 'b: 'a> {
    pub token_program_id: &'b Pubkey,
    pub source: &'a NoStdAccountInfo,
    pub authority: CpiAuthority<'a, 'b>,
}

impl<'a, 'b: 'a> SyncNative<'a, 'b> {
    /// The `SyncNative` invocation: the source, then the signing authority; data: selector 17.
    pub open spec fn spec_invocation(self) -> InvocationView {
        authority_invocation(self.token_program_id@, seq![self.source], self.authority, seq![17u8])
    }

    /// The `SyncNative` invocation (selector 17).
    pub fn into_invoke(self) -> (r: Invocation<'a, 'b>)
        ensures
            r@ == self.spec_invocation(),
    {
        let instruction_data = [17u8];
        let accounts = [self.source];
        assert(accounts@ =~= seq![self.source]);
        assert(instruction_data@ =~= seq![17u8]);
        invoke_with_authority(self.token_program_id, &accounts, self.authority, &instruction_data)
    }
}

/// An optional address as the token programs encode it: `1` then the address when present,
/// `0` then 32 zero bytes when absent.
pub open spec fn coption_pubkey_data(key: Option<&Pubkey>) -> Seq<u8> {
    match key {
        Some(k) => seq![1u8] + k@,
        None => seq![0u8] + zeros(32),
    }
}

/// The kinds of authority that `SetAuthority` can change.
#[derive(Clone, Copy, Debug, PartialEq, Eq, Structural)]
pub enum AuthorityType {
    MintTokens,
    FreezeAccount,
    AccountOwner,
    CloseAccount,
    TransferFeeConfig,
    WithheldWithdraw,
    CloseMint,
    InterestRate,
    PermanentDelegate,
    ConfidentialTransferMint,
    TransferHookProgramId,
    ConfidentialTransferFeeConfig,
    MetadataPointer,
    GroupPointer,
    GroupMemberPointer,
    ScaledUiAmount,
    Pause,
}

impl AuthorityType {
    /// The byte that encodes this kind of authority: its position in the list of kinds.
    pub open spec fn spec_code(self) -> u8 {
        match self {
            AuthorityType::MintTokens => 0,
            AuthorityType::FreezeAccount => 1,
            AuthorityType::AccountOwner => 2,
            AuthorityType::CloseAccount => 3,
            AuthorityType::TransferFeeConfig => 4,
            AuthorityType::WithheldWithdraw => 5,
            AuthorityType::CloseMint => 6,
            AuthorityType::InterestRate => 7,
            AuthorityType::PermanentDelegate => 8,
            AuthorityType::ConfidentialTransferMint => 9,
            AuthorityType::TransferHookProgramId => 10,
            AuthorityType::ConfidentialTransferFeeConfig => 11,
            AuthorityType::MetadataPointer => 12,
            AuthorityType::GroupPointer => 13,
            AuthorityType::GroupMemberPointer => 14,
            AuthorityType::ScaledUiAmount => 15,
            AuthorityType::Pause => 16,
        }
    }

    /// The byte that encodes this kind of authority.
    pub fn to_u8(self) -> (r: u8)
        ensures
            r == self.spec_code(),
    {
        match self {
            AuthorityType::MintTokens => 0,
            AuthorityType::FreezeAccount => 1,
            AuthorityType::AccountOwner => 2,
            AuthorityType::CloseAccount => 3,
            AuthorityType::TransferFeeConfig => 4,
            AuthorityType::WithheldWithdraw => 5,
            AuthorityType::CloseMint => 6,
            AuthorityType::InterestRate => 7,
            AuthorityType::PermanentDelegate => 8,
            AuthorityType::ConfidentialTransferMint => 9,
            AuthorityType::TransferHookProgramId => 10,
            AuthorityType::ConfidentialTransferFeeConfig => 11,
            AuthorityType::MetadataPointer => 12,
            AuthorityType::GroupPointer => 13,
            AuthorityType::GroupMemberPointer => 14,
            AuthorityType::ScaledUiAmount => 15,
            AuthorityType::Pause => 16,
        }
    }
}

/// Instruction data of `SetAuthority`: selector 6, the kind of authority, then the optional new
/// authority.
pub open spec fn set_authority_data(authority_type: AuthorityType, new_authority: Option<&Pubkey>) -> Seq<u8> {
    seq![6u8, authority_type.spec_code()] + coption_pubkey_data(new_authority)
}

/// Writes an optional address at `at` into a buffer whose bytes there are all zero: the tag `1`
/// and the address when present; nothing when absent.
pub fn write_coption_pubkey<const N: usize>(buf: &mut [u8; N], at: usize, key: Option<&Pubkey>)
    requires
        at + 33 <= N,
        old(buf)@.subrange(at as int, at + 33) == zeros(33),
    ensures
        final(buf)@ == old(buf)@.take(at as int) + coption_pubkey_data(key) + old(buf)@.skip(at + 33),
{
    let ghost orig = buf@;
    match key {
        Some(k) => {
            buf[at] = 1;
            let bytes = k.to_bytes();
            write_bytes(buf, at + 1, &bytes);
        },
        None => {},
    }
    assert(buf@ =~= orig.take(at as int) + coption_pubkey_data(key) + orig.skip(at + 33)) by {
        assert(orig.subrange(at as int, at + 33) =~= zeros(33));
        assert forall|k: int| at <= k < at + 33 implies orig[k] == 0u8 by {
            assert(orig.subrange(at as int, at + 33)[k - at] == 0u8);
        }
    }
}

/// Arguments of `SetAuthority`, which changes (or removes, when [None]) an authority of a mint
/// or token account.
pub struct SetAuthority<'a, 'b: 'a> {
    pub token_program_id: &'b Pubkey,
    pub account: &'a NoStdAccountInfo,
    pub authority: CpiAuthority<'a, 'b>,
    pub authority_type: AuthorityType,
    pub new_authority: Option<&'b Pubkey>,
}

impl<'a, 'b: 'a> SetAuthority<'a, 'b> {
    /// The `SetAuthority` invocation: the account, then the signing authority;
    /// data: selector 6, the kind of authority and the new authority.
    pub open spec fn spec_invocation(self) -> InvocationView {
        authority_invocation(self.token_program_id@, seq![self.account], self.authority, set_authority_data(self.authority_type, self.new_authority))
    }

    /// The `SetAuthority` invocation (selector 6).
    pub fn into_invoke(self) -> (r: Invocation<'a, 'b>)
        ensures
            r@ == self.spec_invocation(),
    {
        let mut instruction_data = [0u8; 35];
        instruction_data[0] = 6;
        instruction_data[1] = self.authority_type.to_u8();
        assert(instruction_data@.subrange(2, 35) =~= zeros(33));
        write_coption_pubkey(&mut instruction_data, 2, self.new_authority);
        assert(instruction_data@ =~= set_authority_data(self.authority_type, self.new_authority));
        let accounts = [self.account];
        assert(accounts@ =~= seq![self.account]);
        invoke_with_authority(self.token_program_id, &accounts, self.authority, &instruction_data)
    }
}

/// The byte of each kind of authority is its position in the token programs' list of kinds
/// (minting tokens first, at 0; freezing accounts next; ...; pausing last, at 16): consecutive
/// kinds have consecutive bytes, so different kinds have different bytes, and every byte names a
/// kind the programs know.
pub proof fn lemma_authority_type_codes_follow_list(a: AuthorityType, b: AuthorityType)
    ensures
        AuthorityType::MintTokens.spec_code() == 0,
        AuthorityType::FreezeAccount.spec_code() == AuthorityType::MintTokens.spec_code() + 1,
        AuthorityType::AccountOwner.spec_code() == AuthorityType::FreezeAccount.spec_code() + 1,
        AuthorityType::CloseAccount.spec_code() == AuthorityType::AccountOwner.spec_code() + 1,
        AuthorityType::TransferFeeConfig.spec_code() == AuthorityType::CloseAccount.spec_code() + 1,
        AuthorityType::WithheldWithdraw.spec_code() == AuthorityType::TransferFeeConfig.spec_code() + 1,
        AuthorityType::CloseMint.spec_code() == AuthorityType::WithheldWithdraw.spec_code() + 1,
        AuthorityType::InterestRate.spec_code() == AuthorityType::CloseMint.spec_code() + 1,
        AuthorityType::PermanentDelegate.spec_code() == AuthorityType::InterestRate.spec_code() + 1,
        AuthorityType::ConfidentialTransferMint.spec_code() == AuthorityType::PermanentDelegate.spec_code() + 1,
        AuthorityType::TransferHookProgramId.spec_code() == AuthorityType::ConfidentialTransferMint.spec_code() + 1,
        AuthorityType::ConfidentialTransferFeeConfig.spec_code() == AuthorityType::TransferHookProgramId.spec_code() + 1,
        AuthorityType::MetadataPointer.spec_code() == AuthorityType::ConfidentialTransferFeeConfig.spec_code() + 1,
        AuthorityType::GroupPointer.spec_code() == AuthorityType::MetadataPointer.spec_code() + 1,
        AuthorityType::GroupMemberPointer.spec_code() == AuthorityType::GroupPointer.spec_code() + 1,
        AuthorityType::ScaledUiAmount.spec_code() == AuthorityType::GroupMemberPointer.spec_code() + 1,
        AuthorityType::Pause.spec_code() == AuthorityType::ScaledUiAmount.spec_code() + 1,
        a.spec_code() <= 16,
        a.spec_code() == b.spec_code() ==> a == b,
{
}

/// `SetAuthority` data: selector 6, the kind's byte, then `1` and the new authority, or `0` and
/// 32 zero bytes when the authority is removed.
pub proof fn lemma_set_authority_data_layout(authority_type: AuthorityType, new_authority: Option<&Pubkey>)
    ensures
        ({
            let d = set_authority_data(authority_type, new_authority);
            &&& d.len() == 35
            &&& d[0] == 6u8
            &&& d[1] == authority_type.spec_code()
            &&& d[2] == (if new_authority is Some { 1u8 } else { 0u8 })
            &&& d.subrange(3, 35) == crate::cpi::token_program::extensions::key_or_zeros(new_authority)
        }),
{
    let d = set_authority_data(authority_type, new_authority);
    assert(d.subrange(3, 35) =~= crate::cpi::token_program::extensions::key_or_zeros(new_authority));
}

/// `Approve` names `source` then `delegate` (each with its own privileges), then `authority` as signer, with the infos
/// in the same order; its data is selector 4 then the amount in little-endian; it signs with the authority's seeds when it has some.
pub proof fn lemma_approve_layout<'a, 'b>(args: Approve<'a, 'b>)
    ensures
        ({
            let inv = args.spec_invocation();
            &&& inv.program_id == args.token_program_id@
            &&& inv.accounts == seq![args.source.spec_meta(), args.delegate.spec_meta(), args.authority.account.spec_meta_signer()]
            &&& inv.infos == seq![args.source.spec_info(), args.delegate.spec_info(), args.authority.account.spec_info()]
            &&& inv.data.len() == 9
            &&& inv.data[0] == 4u8
            &&& u64_from_le(inv.data.subrange(1, 9)) == args.amount
            &&& inv.signers_seeds == crate::cpi::system_program::signer_if_seeded(
                args.authority.signer_seeds,
            )
        }),
{
    let accounts = seq![args.source, args.delegate];
    crate::cpi::lemma_authority_invocation_layout(
        args.token_program_id@,
        accounts,
        args.authority,
        args.spec_invocation().data,
    );
    let inv = args.spec_invocation();
    assert(inv.accounts =~= seq![args.source.spec_meta(), args.delegate.spec_meta(), args.authority.account.spec_meta_signer()]);
    assert(inv.infos =~= seq![args.source.spec_info(), args.delegate.spec_info(), args.authority.account.spec_info()]);
    lemma_u64_le_roundtrip(args.amount);
    assert(amount_data(4, args.amount).subrange(1, 9) =~= le_bytes_u64(args.amount));
}

/// `Burn` names `source` then `mint` (each with its own privileges), then `authority` as signer, with the infos
/// in the same order; its data is selector 8 then the amount in little-endian; it signs with the authority's seeds when it has some.
pub proof fn lemma_burn_layout<'a, 'b>(args: Burn<'a, 'b>)
    ensures
        ({
            let inv = args.spec_invocation();
            &&& inv.program_id == args.token_program_id@
            &&& inv.accounts == seq![args.source.spec_meta(), args.mint.spec_meta(), args.authority.account.spec_meta_signer()]
            &&& inv.infos == seq![args.source.spec_info(), args.mint.spec_info(), args.authority.account.spec_info()]
            &&& inv.data.len() == 9
            &&& inv.data[0] == 8u8
            &&& u64_from_le(inv.data.subrange(1, 9)) == args.amount
            &&& inv.signers_seeds == crate::cpi::system_program::signer_if_seeded(
                args.authority.signer_seeds,
            )
        }),
{
    let accounts = seq![args.source, args.mint];
    crate::cpi::lemma_authority_invocation_layout(
        args.token_program_id@,
        accounts,
        args.authority,
        args.spec_invocation().data,
    );
    let inv = args.spec_invocation();
    assert(inv.accounts =~= seq![args.source.spec_meta(), args.mint.spec_meta(), args.authority.account.spec_meta_signer()]);
    assert(inv.infos =~= seq![args.source.spec_info(), args.mint.spec_info(), args.authority.account.spec_info()]);
    lemma_u64_le_roundtrip(args.amount);
    assert(amount_data(8, args.amount).subrange(1, 9) =~= le_bytes_u64(args.amount));
}

/// `CloseAccount` names `account` then `beneficiary` (each with its own privileges), then `authority` as signer, with the infos
/// in the same order; its data is the selector 9 alone; it signs with the authority's seeds when it has some.
pub proof fn lemma_close_account_layout<'a, 'b>(args: CloseAccount<'a, 'b>)
    ensures
        ({
            let inv = args.spec_invocation();
            &&& inv.program_id == args.token_program_id@
            &&& inv.accounts == seq![args.account.spec_meta(), args.beneficiary.spec_meta(), args.authority.account.spec_meta_signer()]
            &&& inv.infos == seq![args.account.spec_info(), args.beneficiary.spec_info(), args.authority.account.spec_info()]
            &&& inv.data == seq![9u8]
            &&& inv.signers_seeds == crate::cpi::system_program::signer_if_seeded(
                args.authority.signer_seeds,
            )
        }),
{
    let accounts = seq![args.account, args.beneficiary];
    crate::cpi::lemma_authority_invocation_layout(
        args.token_program_id@,
        accounts,
        args.authority,
        args.spec_invocation().data,
    );
    let inv = args.spec_invocation();
    assert(inv.accounts =~= seq![args.account.spec_meta(), args.beneficiary.spec_meta(), args.authority.account.spec_meta_signer()]);
    assert(inv.infos =~= seq![args.account.spec_info(), args.beneficiary.spec_info(), args.authority.account.spec_info()]);

}

/// `FreezeAccount` names `account` then `mint` (each with its own privileges), then `freeze_authority` as signer, with the infos
/// in the same order; its data is the selector 10 alone; it signs with the authority's seeds when it has some.
pub proof fn lemma_freeze_account_layout<'a, 'b>(args: FreezeAccount<'a, 'b>)
    ensures
        ({
            let inv = args.spec_invocation();
            &&& inv.program_id == args.token_program_id@
            &&& inv.accounts == seq![args.account.spec_meta(), args.mint.spec_meta(), args.freeze_authority.account.spec_meta_signer()]
            &&& inv.infos == seq![args.account.spec_info(), args.mint.spec_info(), args.freeze_authority.account.spec_info()]
            &&& inv.data == seq![10u8]
            &&& inv.signers_seeds == crate::cpi::system_program::signer_if_seeded(
                args.freeze_authority.signer_seeds,
            )
        }),
{
    let accounts = seq![args.account, args.mint];
    crate::cpi::lemma_authority_invocation_layout(
        args.token_program_id@,
        accounts,
        args.freeze_authority,
        args.spec_invocation().data,
    );
    let inv = args.spec_invocation();
    assert(inv.accounts =~= seq![args.account.spec_meta(), args.mint.spec_meta(), args.freeze_authority.account.spec_meta_signer()]);
    assert(inv.infos =~= seq![args.account.spec_info(), args.mint.spec_info(), args.freeze_authority.account.spec_info()]);

}

/// `ThawAccount` names `account` then `mint` (each with its own privileges), then `freeze_authority` as signer, with the infos
/// in the same order; its data is the selector 11 alone; it signs with the authority's seeds when it has some.
pub proof fn lemma_thaw_account_layout<'a, 'b>(args: ThawAccount<'a, 'b>)
    ensures
        ({
            let inv = args.spec_invocation();
            &&& inv.program_id == args.token_program_id@
            &&& inv.accounts == seq![args.account.spec_meta(), args.mint.spec_meta(), args.freeze_authority.account.spec_meta_signer()]
            &&& inv.infos == seq![args.account.spec_info(), args.mint.spec_info(), args.freeze_authority.account.spec_info()]
            &&& inv.data == seq![11u8]
            &&& inv.signers_seeds == crate::cpi::system_program::signer_if_seeded(
                args.freeze_authority.signer_seeds,
            )
        }),
{
    let accounts = seq![args.account, args.mint];
    crate::cpi::lemma_authority_invocation_layout(
        args.token_program_id@,
        accounts,
        args.freeze_authority,
        args.spec_invocation().data,
    );
    let inv = args.spec_invocation();
    assert(inv.accounts =~= seq![args.account.spec_meta(), args.mint.spec_meta(), args.freeze_authority.account.spec_meta_signer()]);
    assert(inv.infos =~= seq![args.account.spec_info(), args.mint.spec_info(), args.freeze_authority.account.spec_info()]);

}

/// `MintTo` names `mint` then `destination` (each with its own privileges), then `mint_authority` as signer, with the infos
/// in the same order; its data is selector 7 then the amount in little-endian; it signs with the authority's seeds when it has some.
pub proof fn lemma_mint_to_layout<'a, 'b>(args: MintTo<'a, 'b>)
    ensures
        ({
            let inv = args.spec_invocation();
            &&& inv.program_id == args.token_program_id@
            &&& inv.accounts == seq![args.mint.spec_meta(), args.destination.spec_meta(), args.mint_authority.account.spec_meta_signer()]
            &&& inv.infos == seq![args.mint.spec_info(), args.destination.spec_info(), args.mint_authority.account.spec_info()]
            &&& inv.data.len() == 9
            &&& inv.data[0] == 7u8
            &&& u64_from_le(inv.data.subrange(1, 9)) == args.amount
            &&& inv.signers_seeds == crate::cpi::system_program::signer_if_seeded(
                args.mint_authority.signer_seeds,
            )
        }),
{
    let accounts = seq![args.mint, args.destination];
    crate::cpi::lemma_authority_invocation_layout(
        args.token_program_id@,
        accounts,
        args.mint_authority,
        args.spec_invocation().data,
    );
    let inv = args.spec_invocation();
    assert(inv.accounts =~= seq![args.mint.spec_meta(), args.destination.spec_meta(), args.mint_authority.account.spec_meta_signer()]);
    assert(inv.infos =~= seq![args.mint.spec_info(), args.destination.spec_info(), args.mint_authority.account.spec_info()]);
    lemma_u64_le_roundtrip(args.amount);
    assert(amount_data(7, args.amount).subrange(1, 9) =~= le_bytes_u64(args.amount));
}

/// `Revoke` names `source` (each with its own privileges), then `authority` as signer, with the infos
/// in the same order; its data is the selector 5 alone; it signs with the authority's seeds when it has some.
pub proof fn lemma_revoke_layout<'a, 'b>(args: Revoke<'a, 'b>)
    ensures
        ({
            let inv = args.spec_invocation();
            &&& inv.program_id == args.token_program_id@
            &&& inv.accounts == seq![args.source.spec_meta(), args.authority.account.spec_meta_signer()]
            &&& inv.infos == seq![args.source.spec_info(), args.authority.account.spec_info()]
            &&& inv.data == seq![5u8]
            &&& inv.signers_seeds == crate::cpi::system_program::signer_if_seeded(
                args.authority.signer_seeds,
            )
        }),
{
    let accounts = seq![args.source];
    crate::cpi::lemma_authority_invocation_layout(
        args.token_program_id@,
        accounts,
        args.authority,
        args.spec_invocation().data,
    );
    let inv = args.spec_invocation();
    assert(inv.accounts =~= seq![args.source.spec_meta(), args.authority.account.spec_meta_signer()]);
    assert(inv.infos =~= seq![args.source.spec_info(), args.authority.account.spec_info()]);

}

/// `SyncNative` names `source` (each with its own privileges), then `authority` as signer, with the infos
/// in the same order; its data is the selector 17 alone; it signs with the authority's seeds when it has some.
pub proof fn lemma_sync_native_layout<'a, 'b>(args: SyncNative<'a, 'b>)
    ensures
        ({
            let inv = args.spec_invocation();
            &&& inv.program_id == args.token_program_id@
            &&& inv.accounts == seq![args.source.spec_meta(), args.authority.account.spec_meta_signer()]
            &&& inv.infos == seq![args.source.spec_info(), args.authority.account.spec_info()]
            &&& inv.data == seq![17u8]
            &&& inv.signers_seeds == crate::cpi::system_program::signer_if_seeded(
                args.authority.signer_seeds,
            )
        }),
{
    let accounts = seq![args.source];
    crate::cpi::lemma_authority_invocation_layout(
        args.token_program_id@,
        accounts,
        args.authority,
        args.spec_invocation().data,
    );
    let inv = args.spec_invocation();
    assert(inv.accounts =~= seq![args.source.spec_meta(), args.authority.account.spec_meta_signer()]);
    assert(inv.infos =~= seq![args.source.spec_info(), args.authority.account.spec_info()]);

}

/// `SetAuthority` names `account` (each with its own privileges), then `authority` as signer, with the infos
/// in the same order; its data is selector 6, the kind's byte, then the optional new authority; it signs with the authority's seeds when it has some.
pub proof fn lemma_set_authority_layout<'a, 'b>(args: SetAuthority<'a, 'b>)
    ensures
        ({
            let inv = args.spec_invocation();
            &&& inv.program_id == args.token_program_id@
            &&& inv.accounts == seq![args.account.spec_meta(), args.authority.account.spec_meta_signer()]
            &&& inv.infos == seq![args.account.spec_info(), args.authority.account.spec_info()]
            &&& inv.data.len() == 35
            &&& inv.data[0] == 6u8
            &&& inv.data[1] == args.authority_type.spec_code()
            &&& inv.data[2] == (if args.new_authority is Some { 1u8 } else { 0u8 })
            &&& inv.data.subrange(3, 35) == crate::cpi::token_program::extensions::key_or_zeros(
                args.new_authority,
            )
            &&& inv.signers_seeds == crate::cpi::system_program::signer_if_seeded(
                args.authority.signer_seeds,
            )
        }),
{
    let accounts = seq![args.account];
    crate::cpi::lemma_authority_invocation_layout(
        args.token_program_id@,
        accounts,
        args.authority,
        args.spec_invocation().data,
    );
    let inv = args.spec_invocation();
    assert(inv.accounts =~= seq![args.account.spec_meta(), args.authority.account.spec_meta_signer()]);
    assert(inv.infos =~= seq![args.account.spec_info(), args.authority.account.spec_info()]);
    lemma_set_authority_data_layout(args.authority_type, args.new_authority);
}

} // verus!
