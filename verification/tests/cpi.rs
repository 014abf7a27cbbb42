use sealevel_tools::bytes::{u16_to_le_bytes, u64_to_le_bytes};
use sealevel_tools::cpi::ata_program::{self, Create};
use sealevel_tools::cpi::{
    checked_return_data, invoke_unsigned, invoke_with_authority, try_check_borrow_account_info,
    try_check_borrow_account_infos, try_invoke_signed, unwrap_signers_seeds, CpiAuthority,
    CpiInstruction,
};
use sealevel_tools::entrypoint::NoStdAccountInfo;
use sealevel_tools::error::{u32_from_be_bytes, SealevelToolsError};
use sealevel_tools::log::{sol_log_params, sol_log_slice, LogLine};
use sealevel_tools::pda::ToSeed;
use sealevel_tools::program_error::ProgramError;
use sealevel_tools::pubkey::Pubkey;
use sealevel_tools::types::InputAccount;

fn account(key: u8, is_signer: bool, is_writable: bool, borrow_state: u8) -> NoStdAccountInfo {
    NoStdAccountInfo {
        key: Pubkey([key; 32]),
        owner: Pubkey([0; 32]),
        lamports: 10,
        data: vec![1, 2, 3],
        is_signer,
        is_writable,
        executable: false,
        borrow_state,
    }
}

#[test]
fn unwrap_signers_seeds_keeps_present_in_order() {
    let a: &[&[u8]] = &[b"a", &[1]];
    let b: &[&[u8]] = &[b"b"];
    let (seeds, n) = unwrap_signers_seeds(&[None, Some(a), None, Some(b)]);
    assert_eq!(n, 2);
    assert_eq!(seeds[0], a);
    assert_eq!(seeds[1], b);
    assert!(seeds[2].is_empty());
    assert!(seeds[3].is_empty());

    let (_, n) = unwrap_signers_seeds::<3>(&[None, None, None]);
    assert_eq!(n, 0);
}

#[test]
fn invoke_with_authority_signs_only_with_seeds() {
    let program = Pubkey([9; 32]);
    let target = account(1, false, true, 0);
    let authority = account(2, false, false, 0);
    let seeds: &[&[u8]] = &[b"vault", &[254]];

    let invocation = invoke_with_authority(
        &program,
        &[&target],
        CpiAuthority {
            account: &authority,
            signer_seeds: Some(seeds),
        },
        &[4, 5],
    );
    assert_eq!(invocation.program_id.0, program.0);
    assert_eq!(invocation.data, vec![4, 5]);
    assert_eq!(invocation.accounts.len(), 2);
    assert!(invocation.accounts[1].is_signer);
    assert!(!invocation.accounts[1].is_writable);
    assert_eq!(invocation.infos.len(), 2);
    assert_eq!(invocation.signers_seeds, vec![seeds]);

    let invocation = invoke_with_authority(
        &program,
        &[&target],
        CpiAuthority {
            account: &authority,
            signer_seeds: None,
        },
        &[],
    );
    assert!(invocation.signers_seeds.is_empty());

    let invocation = invoke_unsigned(&program, &[&target, &authority], &[1]);
    assert!(invocation.signers_seeds.is_empty());
    assert_eq!(invocation.accounts.len(), 2);
    assert!(!invocation.accounts[1].is_signer);
}

#[test]
fn borrow_checks() {
    assert_eq!(try_check_borrow_account_info(&account(1, false, true, 0)), Ok(()));
    assert_eq!(try_check_borrow_account_info(&account(1, false, false, 0x11)), Ok(()));
    assert_eq!(
        try_check_borrow_account_info(&account(1, false, true, 0x10)),
        Err(ProgramError::AccountBorrowFailed)
    );
    assert_eq!(
        try_check_borrow_account_info(&account(1, false, true, 0x01)),
        Err(ProgramError::AccountBorrowFailed)
    );
    assert_eq!(
        try_check_borrow_account_info(&account(1, false, false, 0x80)),
        Err(ProgramError::AccountBorrowFailed)
    );
    assert_eq!(
        try_check_borrow_account_info(&account(1, false, false, 0x07)),
        Err(ProgramError::AccountBorrowFailed)
    );

    let good = [account(1, false, true, 0), account(2, false, false, 0x22)];
    assert_eq!(try_check_borrow_account_infos(&good), Ok(()));
    let bad = [account(1, false, true, 0), account(2, false, false, 0x08)];
    assert_eq!(
        try_check_borrow_account_infos(&bad),
        Err(ProgramError::AccountBorrowFailed)
    );
}

#[test]
fn try_invoke_signed_checks_then_builds() {
    let program = Pubkey([9; 32]);
    let infos = [account(1, false, true, 0), account(2, true, false, 0)];
    let metas = [infos[0].to_meta_c(), infos[1].to_meta_c()];
    let instruction = CpiInstruction {
        program_id: &program,
        accounts: &metas,
        data: &[7],
    };
    let invocation = try_invoke_signed(&instruction, &infos, &[]).unwrap();
    assert_eq!(invocation.infos.len(), 2);
    assert_eq!(invocation.infos[0].key.0, [1; 32]);
    assert_eq!(invocation.infos[1].data_len, 3);
    assert_eq!(invocation.infos[0].lamports, 10);

    let busy = [account(1, false, true, 0x80)];
    assert!(matches!(
        try_invoke_signed(&instruction, &busy, &[]),
        Err(ProgramError::AccountBorrowFailed)
    ));
}

#[test]
fn return_data_must_match_length() {
    let program = Pubkey([3; 32]);
    assert_eq!(
        checked_return_data(8, program, [1u8; 8]).map(|(p, d)| (p.0, d)),
        Some(([3; 32], [1u8; 8]))
    );
    assert!(checked_return_data(0, program, [0u8; 8]).is_none());
    assert!(checked_return_data(4, program, [0u8; 8]).is_none());
    assert!(checked_return_data(9, program, [0u8; 8]).is_none());
}

#[test]
fn associated_token_account_create() {
    assert_eq!(
        ata_program::id().0,
        solana_pubkey::Pubkey::from_str_const("ATokenGPvbdGVxr1b2hvZbsiqW5xWH25efTNsLJA8knL")
            .to_bytes()
    );
    let ata_id = ata_program::id();
    let payer = account(1, true, true, 0);
    let ata = account(2, false, true, 0);
    let owner = account(3, false, false, 0);
    let mint = account(4, false, false, 0);
    let system = account(5, false, false, 0);
    let token = account(6, false, false, 0);
    for idempotent in [false, true] {
        let invocation = Create {
            associated_token_account_program_id: &ata_id,
            payer: CpiAuthority {
                account: &payer,
                signer_seeds: None,
            },
            associated_account: &ata,
            account_owner: &owner,
            mint: &mint,
            system_program: &system,
            token_program: &token,
            idempotent,
        }
        .into_invoke();
        assert_eq!(invocation.accounts.len(), 6);
        assert!(invocation.accounts[0].is_signer && invocation.accounts[0].is_writable);
        assert!(invocation.accounts[1].is_writable && !invocation.accounts[1].is_signer);
        assert_eq!(invocation.accounts[5].pubkey.0, [6; 32]);
        if idempotent {
            assert_eq!(invocation.data, vec![1]);
        } else {
            assert!(invocation.data.is_empty());
        }
    }
}

#[test]
fn error_codes_are_sha256_prefixes() {
    let account_info = solana_program::hash::hash(b"sealevel_tools::account_info").to_bytes();
    let cpi = solana_program::hash::hash(b"sealevel_tools::cpi").to_bytes();
    assert_eq!(
        SealevelToolsError::account_info_code(),
        u32::from_be_bytes([account_info[0], account_info[1], account_info[2], account_info[3]])
    );
    assert_eq!(
        SealevelToolsError::cpi_code(),
        u32::from_be_bytes([cpi[0], cpi[1], cpi[2], cpi[3]])
    );
    assert_eq!(u32_from_be_bytes([1, 2, 3, 4]), 0x01020304);
}

#[test]
fn error_conversion_and_messages() {
    let e: ProgramError = SealevelToolsError::Cpi(&["bad program"]).into();
    assert_eq!(e, ProgramError::Custom(SealevelToolsError::cpi_code()));
    let e: ProgramError = SealevelToolsError::AccountInfo(&["x"]).into();
    assert_eq!(e, ProgramError::Custom(SealevelToolsError::account_info_code()));
    let e: ProgramError = SealevelToolsError::PassThrough(ProgramError::InvalidSeeds).into();
    assert_eq!(e, ProgramError::InvalidSeeds);
    let wrapped: SealevelToolsError = ProgramError::NotEnoughAccountKeys.into();
    assert!(matches!(
        wrapped,
        SealevelToolsError::PassThrough(ProgramError::NotEnoughAccountKeys)
    ));

    assert_eq!(
        SealevelToolsError::Cpi(&["one", "two"]).log_messages(),
        vec!["Custom error: CPI", "one", "two"]
    );
    assert_eq!(
        SealevelToolsError::AccountInfo(&["three"]).log_messages(),
        vec!["Custom error: AccountInfo", "three"]
    );
    assert!(SealevelToolsError::PassThrough(ProgramError::InvalidArgument)
        .log_messages()
        .is_empty());
}

#[test]
fn log_slice_lines() {
    assert_eq!(
        sol_log_slice(&[0xab, 7]),
        vec![(0, 0, 0, 0, 0xab), (0, 0, 0, 1, 7)]
    );
    assert!(sol_log_slice(&[]).is_empty());
}

#[test]
fn seeds_are_big_endian() {
    assert_eq!(0x0102u16.to_seed(), [1, 2]);
    assert_eq!(0x01020304u32.to_seed(), [1, 2, 3, 4]);
    assert_eq!(1u64.to_seed(), [0, 0, 0, 0, 0, 0, 0, 1]);
    assert_eq!(7u8.to_seed(), [7]);
    assert_eq!((-1i8).to_seed(), [0xff]);
    assert_eq!((-2i16).to_seed(), [0xff, 0xfe]);
    assert_eq!((-1i32).to_seed(), [0xff; 4]);
    assert_eq!(i64::MIN.to_seed(), [0x80, 0, 0, 0, 0, 0, 0, 0]);
    assert_eq!(u128::MAX.to_seed(), [0xff; 16]);
    assert_eq!(1i128.to_seed(), 1i128.to_be_bytes());
    assert_ne!(1u64.to_seed(), 256u64.to_seed());
}

#[test]
fn little_endian_encoders() {
    assert_eq!(u64_to_le_bytes(0x0102030405060708), 0x0102030405060708u64.to_le_bytes());
    assert_eq!(u16_to_le_bytes(0xbeef), [0xef, 0xbe]);
}

#[test]
fn input_account_key() {
    let key = Pubkey([4; 32]);
    let info = account(5, false, false, 0);
    assert_eq!(InputAccount::from(&key).key().0, [4; 32]);
    assert_eq!(InputAccount::from(&info).key().0, [5; 32]);
}

#[test]
fn log_params_lines() {
    let mut first = account(1, true, true, 0);
    first.lamports = 99;
    let second = account(2, false, false, 0);
    let lines = sol_log_params(&[first, second], &[0xcd]);
    assert_eq!(lines.len(), 2 * 12 + 1 + 1);
    assert!(matches!(lines[0], LogLine::Message("NoStdAccountInfo")));
    assert!(matches!(lines[1], LogLine::Values(0, 0, 0, 0, 0)));
    assert!(matches!(lines[3], LogLine::Values(0, 0, 0, 0, 1)));
    assert!(matches!(lines[5], LogLine::Key(Pubkey([1, ..]))));
    assert!(matches!(lines[7], LogLine::Values(0, 0, 0, 0, 99)));
    assert!(matches!(lines[9], LogLine::Values(0, 0, 0, 0, 3)));
    assert!(matches!(lines[11], LogLine::Key(Pubkey([0, ..]))));
    assert!(matches!(lines[13], LogLine::Values(0, 0, 0, 0, 1)));
    assert!(matches!(lines[15], LogLine::Values(0, 0, 0, 0, 0)));
    assert!(matches!(lines[24], LogLine::Message("Instruction data")));
    assert!(matches!(lines[25], LogLine::Values(0, 0, 0, 0, 0xcd)));
}
