#![allow(deprecated)]

use sealevel_tools::cpi::system_program::{
    invoke_allocate_unchecked, invoke_assign_unchecked, invoke_create_account_unchecked,
    invoke_transfer_unchecked, serialize_allocate_instruction_data,
    serialize_assign_instruction_data, serialize_create_account_instruction_data,
    serialize_transfer_instruction_data, try_create_borsh_data_account,
    try_create_serialized_account, try_failsafe_create_account, Allocate, Assign, CreateAccount,
    FailsafeCreateAccount, Transfer,
};
use sealevel_tools::cpi::CpiAuthority;
use sealevel_tools::discriminator::Discriminate;
use sealevel_tools::entrypoint::NoStdAccountInfo;
use sealevel_tools::program_error::ProgramError;
use sealevel_tools::pubkey::Pubkey;
use solana_program::system_instruction::SystemInstruction;

fn account(key: u8, lamports: u64, is_signer: bool) -> NoStdAccountInfo {
    NoStdAccountInfo {
        key: Pubkey([key; 32]),
        owner: Pubkey([0; 32]),
        lamports,
        data: vec![],
        is_signer,
        is_writable: true,
        executable: false,
        borrow_state: 0,
    }
}

#[test]
fn allocate_test_serialize_instruction_data() {
    let space = 69;

    let instruction_data = serialize_allocate_instruction_data(space);

    assert_eq!(
        bincode::deserialize::<SystemInstruction>(&instruction_data).unwrap(),
        SystemInstruction::Allocate { space }
    );
}

#[test]
fn assign_test_serialize_instruction_data() {
    let owner = solana_pubkey::Pubkey::new_unique();

    let instruction_data = serialize_assign_instruction_data(&Pubkey(owner.to_bytes()));

    assert_eq!(
        bincode::deserialize::<SystemInstruction>(&instruction_data).unwrap(),
        SystemInstruction::Assign { owner }
    );
}

#[test]
fn transfer_test_serialize_instruction_data() {
    let lamports = 69;

    let instruction_data = serialize_transfer_instruction_data(lamports);

    assert_eq!(
        bincode::deserialize::<SystemInstruction>(&instruction_data).unwrap(),
        SystemInstruction::Transfer { lamports }
    );
}

#[test]
fn create_account_instruction_data_matches_system_program() {
    let owner = solana_pubkey::Pubkey::new_unique();

    let instruction_data =
        serialize_create_account_instruction_data(1_000, 42, &Pubkey(owner.to_bytes()));

    assert_eq!(
        bincode::deserialize::<SystemInstruction>(&instruction_data).unwrap(),
        SystemInstruction::CreateAccount { lamports: 1_000, space: 42, owner }
    );
}

#[test]
fn system_invocations_target_the_system_program() {
    let acct = account(7, 0, false);
    let inv = Allocate { account: CpiAuthority { account: &acct, signer_seeds: None }, space: 1 }
        .into_invoke();
    assert_eq!(inv.program_id.0, solana_program::system_program::ID.to_bytes());
}

#[test]
fn allocate_signs_with_present_seeds_only() {
    let acct = account(7, 0, false);
    let seed: &[u8] = b"thing";
    let seeds: &[&[u8]] = &[seed];
    let inv = Allocate { account: CpiAuthority { account: &acct, signer_seeds: Some(seeds) }, space: 16 }
        .into_invoke();
    assert_eq!(inv.program_id.0, [0u8; 32]);
    assert_eq!(inv.data, vec![8, 0, 0, 0, 16, 0, 0, 0, 0, 0, 0, 0]);
    assert_eq!(inv.accounts.len(), 1);
    assert!(inv.accounts[0].is_signer);
    assert_eq!(inv.accounts[0].pubkey.0, [7; 32]);
    assert_eq!(inv.signers_seeds, vec![seeds]);

    let inv = Allocate { account: CpiAuthority { account: &acct, signer_seeds: None }, space: 16 }
        .into_invoke();
    assert!(inv.signers_seeds.is_empty());

    // The unchecked variant always passes one (possibly empty) list of seeds.
    let inv = invoke_allocate_unchecked(Allocate {
        account: CpiAuthority { account: &acct, signer_seeds: None },
        space: 16,
    });
    assert_eq!(inv.signers_seeds.len(), 1);
    assert!(inv.signers_seeds[0].is_empty());
}

#[test]
fn assign_and_transfer_invocations() {
    let a = account(1, 10, true);
    let b = account(2, 0, false);
    let owner = Pubkey([9; 32]);
    let inv = Assign { to: CpiAuthority { account: &b, signer_seeds: None }, owner: &owner }
        .into_invoke();
    assert_eq!(inv.data[..4], [1, 0, 0, 0]);
    assert_eq!(inv.data[4..], [9u8; 32]);
    let inv = invoke_assign_unchecked(Assign {
        to: CpiAuthority { account: &b, signer_seeds: None },
        owner: &owner,
    });
    assert_eq!(inv.signers_seeds.len(), 1);

    let inv = Transfer { from: CpiAuthority { account: &a, signer_seeds: None }, to: &b, lamports: 5 }
        .into_invoke();
    assert_eq!(inv.data, vec![2, 0, 0, 0, 5, 0, 0, 0, 0, 0, 0, 0]);
    assert_eq!(inv.accounts.len(), 2);
    assert!(inv.accounts[0].is_signer);
    assert_eq!(inv.accounts[1].is_signer, b.is_signer);
    assert_eq!(inv.infos[1].key.0, [2; 32]);
    let inv2 = invoke_transfer_unchecked(Transfer {
        from: CpiAuthority { account: &a, signer_seeds: None },
        to: &b,
        lamports: 5,
    });
    assert_eq!(inv2.data, inv.data);
}

#[test]
fn create_account_unchecked_collects_both_seeds() {
    let a = account(1, 10, true);
    let b = account(2, 0, false);
    let owner = Pubkey([3; 32]);
    let s1: &[u8] = b"one";
    let s2: &[u8] = b"two";
    let from_seeds: &[&[u8]] = &[s1];
    let to_seeds: &[&[u8]] = &[s2];
    let inv = invoke_create_account_unchecked(CreateAccount {
        from: CpiAuthority { account: &a, signer_seeds: Some(from_seeds) },
        to: CpiAuthority { account: &b, signer_seeds: Some(to_seeds) },
        lamports: 100,
        space: 8,
        owner: &owner,
    });
    assert_eq!(inv.signers_seeds, vec![from_seeds, to_seeds]);
    assert_eq!(inv.data.len(), 52);
    assert_eq!(inv.data[..12], [0, 0, 0, 0, 100, 0, 0, 0, 0, 0, 0, 0]);
    assert_eq!(inv.data[12..20], [8, 0, 0, 0, 0, 0, 0, 0]);
    assert_eq!(inv.data[20..], [3u8; 32]);
}

#[test]
fn failsafe_create_account_without_lamports_creates() {
    let payer = account(1, 1_000_000, true);
    let to = account(2, 0, false);
    let program_id = Pubkey([5; 32]);
    let invs = try_failsafe_create_account(
        FailsafeCreateAccount {
            payer: CpiAuthority { account: &payer, signer_seeds: None },
            to: CpiAuthority { account: &to, signer_seeds: None },
            space: 16,
            program_id: &program_id,
        },
        1_000,
    )
    .unwrap();
    assert_eq!(invs.len(), 1);
    assert_eq!(invs[0].data[..4], [0, 0, 0, 0]);
    assert_eq!(invs[0].data[4..12], 1_000u64.to_le_bytes());
    assert_eq!(invs[0].data[12..20], 16u64.to_le_bytes());
}

#[test]
fn failsafe_create_account_with_lamports_tops_up_allocates_assigns() {
    let payer = account(1, 1_000_000, true);
    let to = account(2, 400, false);
    let program_id = Pubkey([5; 32]);
    let invs = try_failsafe_create_account(
        FailsafeCreateAccount {
            payer: CpiAuthority { account: &payer, signer_seeds: None },
            to: CpiAuthority { account: &to, signer_seeds: None },
            space: 16,
            program_id: &program_id,
        },
        1_000,
    )
    .unwrap();
    assert_eq!(invs.len(), 3);
    assert_eq!(invs[0].data, serialize_transfer_instruction_data(600).to_vec());
    assert_eq!(invs[1].data, serialize_allocate_instruction_data(16).to_vec());
    assert_eq!(invs[2].data, serialize_assign_instruction_data(&program_id).to_vec());

    // Enough lamports and no space: only the assignment remains.
    let rich = account(2, 5_000, false);
    let invs = try_failsafe_create_account(
        FailsafeCreateAccount {
            payer: CpiAuthority { account: &payer, signer_seeds: None },
            to: CpiAuthority { account: &rich, signer_seeds: None },
            space: 0,
            program_id: &program_id,
        },
        1_000,
    )
    .unwrap();
    assert_eq!(invs.len(), 1);
    assert_eq!(invs[0].data[..4], [1, 0, 0, 0]);
}

#[test]
fn failsafe_create_account_fails_on_borrowed_lamports() {
    let payer = account(1, 1_000_000, true);
    let mut to = account(2, 0, false);
    to.borrow_state = 0b1000_0000;
    let program_id = Pubkey([5; 32]);
    let r = try_failsafe_create_account(
        FailsafeCreateAccount {
            payer: CpiAuthority { account: &payer, signer_seeds: None },
            to: CpiAuthority { account: &to, signer_seeds: None },
            space: 16,
            program_id: &program_id,
        },
        1_000,
    );
    assert!(matches!(r, Err(ProgramError::AccountBorrowFailed)));
}

struct Thing;

impl Discriminate<4> for Thing {
    const DISCRIMINATOR: [u8; 4] = [1, 2, 3, 4];
}

#[test]
fn create_serialized_and_borsh_accounts() {
    let payer = account(1, 1_000_000, true);
    let to = account(2, 0, false);
    let program_id = Pubkey([5; 32]);
    let args = || FailsafeCreateAccount {
        payer: CpiAuthority { account: &payer, signer_seeds: None },
        to: CpiAuthority { account: &to, signer_seeds: None },
        space: 8,
        program_id: &program_id,
    };
    let (invs, data) = try_create_serialized_account(args(), 900, &[7, 7, 7]).unwrap();
    assert_eq!(invs.len(), 1);
    assert_eq!(data, vec![7, 7, 7, 0, 0, 0, 0, 0]);

    let (_, data) = try_create_borsh_data_account::<4, Thing>(args(), 900, &[9, 9]).unwrap();
    assert_eq!(data, vec![1, 2, 3, 4, 9, 9, 0, 0]);

    let r = try_create_borsh_data_account::<4, Thing>(args(), 900, &[9, 9, 9, 9, 9]);
    assert!(matches!(r, Err(ProgramError::AccountDataTooSmall)));

    let mut busy = account(2, 0, false);
    busy.borrow_state = 0b0000_0001;
    let r = try_create_serialized_account(
        FailsafeCreateAccount {
            payer: CpiAuthority { account: &payer, signer_seeds: None },
            to: CpiAuthority { account: &busy, signer_seeds: None },
            space: 8,
            program_id: &program_id,
        },
        900,
        &[1],
    );
    assert!(matches!(r, Err(ProgramError::AccountBorrowFailed)));
}

#[test]
fn program_derived_payer_signs_through_seeds() {
    let pda = account(1, 1_000, false);
    let recipient = account(2, 0, false);
    let seed: &[u8] = b"vault";
    let seeds: &[&[u8]] = &[seed];

    let inv = Transfer {
        from: CpiAuthority { account: &pda, signer_seeds: Some(seeds) },
        to: &recipient,
        lamports: 7,
    }
    .into_invoke();
    assert!(inv.accounts[0].is_signer);
    assert!(!inv.accounts[1].is_signer);
    assert!(inv.accounts[0].is_writable && inv.accounts[1].is_writable);
    assert_eq!(inv.signers_seeds, vec![seeds]);

    let new_account = account(3, 0, false);
    let owner = Pubkey([4; 32]);
    let inv = invoke_create_account_unchecked(CreateAccount {
        from: CpiAuthority { account: &pda, signer_seeds: Some(seeds) },
        to: CpiAuthority { account: &new_account, signer_seeds: None },
        lamports: 100,
        space: 0,
        owner: &owner,
    });
    assert!(inv.accounts[0].is_signer);
    assert!(inv.accounts[1].is_signer);
    assert_eq!(inv.signers_seeds, vec![seeds]);
}
