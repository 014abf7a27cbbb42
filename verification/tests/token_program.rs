#![allow(deprecated)]

use std::str::FromStr;

use sealevel_tools::cpi::token_program::{
    serialize_amount_instruction_data, serialize_authority_instruction_data,
    serialize_checked_amount_instruction_data, Approve, AuthorityType, Burn, CloseAccount,
    FreezeAccount, MintTo, Revoke, SetAuthority, SyncNative, ThawAccount,
};
use sealevel_tools::cpi::CpiAuthority;
use sealevel_tools::entrypoint::NoStdAccountInfo;
use sealevel_tools::pubkey::Pubkey;
use spl_token_2022::instruction::TokenInstruction;

fn token_2022_id() -> Pubkey {
    Pubkey(spl_token_2022::ID.to_bytes())
}

fn legacy_token_program_id() -> Pubkey {
    let key = solana_pubkey::Pubkey::from_str("TokenkegQfeZyiNwAJbNbGKPFXCWuBvf9Ss623VQ5DA").unwrap();
    Pubkey(key.to_bytes())
}

fn sol(key: &Pubkey) -> solana_pubkey::Pubkey {
    solana_pubkey::Pubkey::new_from_array(key.0)
}

fn account(key: u8, owner: Pubkey, is_signer: bool) -> NoStdAccountInfo {
    NoStdAccountInfo {
        key: Pubkey([key; 32]),
        owner,
        lamports: 0,
        data: vec![],
        is_signer,
        is_writable: true,
        executable: false,
        borrow_state: 0,
    }
}

/// The token programs read instruction data up to what they need: the data must start with what
/// the crate's own builder encodes, and anything after it must be zero padding.
fn assert_encodes(actual: &[u8], expected: &[u8]) {
    assert!(actual.len() >= expected.len(), "{:?} shorter than {:?}", actual, expected);
    assert_eq!(&actual[..expected.len()], expected);
    assert!(actual[expected.len()..].iter().all(|b| *b == 0), "{:?}", actual);
}

fn unsigned(account: &NoStdAccountInfo) -> CpiAuthority<'_, '_> {
    CpiAuthority { account, signer_seeds: None }
}

#[test]
fn test_serialize_amount_instruction_data() {
    let amount = 69;

    #[allow(deprecated)]
    let expected_transfer = TokenInstruction::Transfer { amount };

    for (selector, instruction) in [
        (3, expected_transfer),
        (4, TokenInstruction::Approve { amount }),
        (7, TokenInstruction::MintTo { amount }),
        (8, TokenInstruction::Burn { amount }),
        (23, TokenInstruction::AmountToUiAmount { amount }),
    ]
    .into_iter()
    {
        assert_eq!(
            TokenInstruction::unpack(&serialize_amount_instruction_data(selector, amount)).unwrap(),
            instruction,
            "Mismatch with selector {}",
            selector
        );
    }
}

#[test]
fn test_serialize_checked_amount_instruction_data() {
    let amount = 69;
    let decimals = 4;

    for (selector, instruction) in [
        (12, TokenInstruction::TransferChecked { amount, decimals }),
        (13, TokenInstruction::ApproveChecked { amount, decimals }),
        (14, TokenInstruction::MintToChecked { amount, decimals }),
        (15, TokenInstruction::BurnChecked { amount, decimals }),
    ]
    .into_iter()
    {
        assert_eq!(
            TokenInstruction::unpack(&serialize_checked_amount_instruction_data(
                selector, amount, decimals
            ))
            .unwrap(),
            instruction,
            "Mismatch with selector {}",
            selector
        );
    }
}

#[test]
fn test_serialize_authority_instruction_data() {
    let authority = solana_pubkey::Pubkey::new_unique();
    let library_authority = Pubkey(authority.to_bytes());

    for (selector, instruction) in [
        (16, TokenInstruction::InitializeAccount2 { owner: authority }),
        (18, TokenInstruction::InitializeAccount3 { owner: authority }),
        (
            35,
            TokenInstruction::InitializePermanentDelegate {
                delegate: authority,
            },
        ),
    ]
    .into_iter()
    {
        assert_eq!(
            TokenInstruction::unpack(&serialize_authority_instruction_data(
                selector,
                &library_authority
            ))
            .unwrap(),
            instruction,
            "Mismatch with selector {}",
            selector
        );
    }
}

#[test]
fn approve_matches_instruction_builder() {
    let tp = token_2022_id();
    let source = account(1, tp, false);
    let mut delegate = account(2, tp, false);
    delegate.is_writable = false;
    let owner = account(3, Pubkey([0; 32]), true);
    let invocation = Approve {
        token_program_id: &tp,
        source: &source,
        delegate: &delegate,
        authority: unsigned(&owner),
        amount: 500,
    }
    .into_invoke();
    let expected = spl_token_2022::instruction::approve(
        &sol(&tp),
        &sol(&source.key),
        &sol(&delegate.key),
        &sol(&owner.key),
        &[],
        500,
    )
    .unwrap();
    assert_eq!(invocation.data, expected.data);
    assert_eq!(invocation.program_id.0, tp.0);
    assert_eq!(invocation.accounts.len(), 3);
    assert_eq!(invocation.accounts[0].pubkey.0, source.key.0);
    assert!(invocation.accounts[0].is_writable);
    assert!(!invocation.accounts[1].is_writable);
    assert!(invocation.accounts[2].is_signer);
    assert!(invocation.signers_seeds.is_empty());
}

#[test]
fn amount_instructions_match_builders() {
    let tp = legacy_token_program_id();
    let a = account(1, tp, false);
    let b = account(2, tp, false);
    let owner = account(3, Pubkey([0; 32]), true);

    let burn = Burn {
        token_program_id: &tp,
        source: &a,
        mint: &b,
        authority: unsigned(&owner),
        amount: 7,
    }
    .into_invoke();
    assert_eq!(burn.data, vec![8, 7, 0, 0, 0, 0, 0, 0, 0]);

    let mint_to = MintTo {
        token_program_id: &tp,
        mint: &a,
        destination: &b,
        mint_authority: unsigned(&owner),
        amount: 0x0102,
    }
    .into_invoke();
    assert_eq!(mint_to.data, vec![7, 2, 1, 0, 0, 0, 0, 0, 0]);
    assert_eq!(mint_to.accounts[0].pubkey.0, a.key.0);
    assert_eq!(mint_to.accounts[1].pubkey.0, b.key.0);
}

#[test]
fn selector_only_instructions() {
    let tp = token_2022_id();
    let a = account(1, tp, false);
    let b = account(2, tp, false);
    let c = account(3, tp, false);
    let owner = account(4, Pubkey([0; 32]), true);

    let close = CloseAccount {
        token_program_id: &tp,
        account: &a,
        beneficiary: &b,
        authority: unsigned(&owner),
    }
    .into_invoke();
    assert_eq!(close.data, vec![9]);
    assert_eq!(close.accounts.len(), 3);

    let freeze = FreezeAccount {
        token_program_id: &tp,
        account: &a,
        mint: &b,
        freeze_authority: unsigned(&owner),
    }
    .into_invoke();
    assert_eq!(freeze.data, vec![10]);

    let thaw = ThawAccount {
        token_program_id: &tp,
        account: &a,
        mint: &b,
        freeze_authority: unsigned(&owner),
    }
    .into_invoke();
    assert_eq!(thaw.data, vec![11]);

    let revoke = Revoke {
        token_program_id: &tp,
        source: &a,
        authority: unsigned(&owner),
    }
    .into_invoke();
    assert_eq!(revoke.data, vec![5]);
    assert_eq!(revoke.accounts.len(), 2);

    let sync = SyncNative {
        token_program_id: &tp,
        source: &c,
        authority: unsigned(&owner),
    }
    .into_invoke();
    assert_eq!(sync.data, vec![17]);
    assert_eq!(sync.accounts.len(), 2);
    assert!(sync.accounts[0].is_writable);
    assert!(sync.accounts[1].is_signer);
}

#[test]
fn set_authority_matches_instruction_builder() {
    let tp = token_2022_id();
    let mint = account(1, tp, false);
    let owner = account(2, Pubkey([0; 32]), true);
    let new_authority = Pubkey([9; 32]);

    for (library_type, crate_type) in [
        (
            AuthorityType::MintTokens,
            spl_token_2022::instruction::AuthorityType::MintTokens,
        ),
        (
            AuthorityType::CloseMint,
            spl_token_2022::instruction::AuthorityType::CloseMint,
        ),
        (
            AuthorityType::Pause,
            spl_token_2022::instruction::AuthorityType::Pause,
        ),
    ] {
        for new in [Some(&new_authority), None] {
            let invocation = SetAuthority {
                token_program_id: &tp,
                account: &mint,
                authority: unsigned(&owner),
                authority_type: library_type,
                new_authority: new,
            }
            .into_invoke();
            let expected = spl_token_2022::instruction::set_authority(
                &sol(&tp),
                &sol(&mint.key),
                new.map(sol).as_ref(),
                crate_type.clone(),
                &sol(&owner.key),
                &[],
            )
            .unwrap();
            assert_encodes(&invocation.data, &expected.data);
        }
    }
}

#[test]
fn authority_type_codes() {
    assert_eq!(AuthorityType::MintTokens.to_u8(), 0);
    assert_eq!(AuthorityType::AccountOwner.to_u8(), 2);
    assert_eq!(AuthorityType::ScaledUiAmount.to_u8(), 15);
    assert_eq!(AuthorityType::Pause.to_u8(), 16);
}
