use std::str::FromStr;

use sealevel_tools::cpi::token_program::create_mint::{
    CreateMint, InitializeGroupPointerData, InitializeMetadataPointerData, InitializeMint,
    InitializeMintExtensions, InitializeTransferFeeConfigData, InitializeTransferHookData,
};
use sealevel_tools::cpi::token_program::create_token_account::{
    space_for_mint_flags, CreateTokenAccount, InitializeAccount, MintExtensionFlags,
};
use sealevel_tools::cpi::token_program::extensions::{
    InitializeGroupPointer, InitializeImmutableOwner, InitializeMetadataPointer,
    InitializeMintCloseAuthority, InitializeNonTransferable, InitializePermanentDelegate,
    InitializeTransferFeeConfig, InitializeTransferHook,
};
use sealevel_tools::cpi::token_program::get_account_data_size::{
    account_data_size_from_return_data, ExtensionType, GetAccountDataSize,
};
use sealevel_tools::cpi::token_program::transfer::{
    Transfer, TransferChecked, UseTransferChecked,
};
use sealevel_tools::cpi::CpiAuthority;
use sealevel_tools::entrypoint::NoStdAccountInfo;
use sealevel_tools::error::SealevelToolsError;
use sealevel_tools::program_error::ProgramError;
use sealevel_tools::pubkey::Pubkey;
use solana_program::system_instruction::SystemInstruction;
use spl_token_2022::extension::{
    BaseStateWithExtensionsMut, ExtensionType as Ext, StateWithExtensionsMut,
};

fn token_2022_id() -> Pubkey {
    Pubkey(spl_token_2022::ID.to_bytes())
}

fn legacy_token_program_id() -> Pubkey {
    let key = solana_pubkey::Pubkey::from_str("TokenkegQfeZyiNwAJbNbGKPFXCWuBvf9Ss623VQ5DA").unwrap();
    Pubkey(key.to_bytes())
}

fn sol(key: &Pubkey) -> solana_pubkey::Pubkey {
    solana_pubkey::Pubkey::new_from_array(key.0)
}

fn account(key: u8, owner: Pubkey, lamports: u64, data: Vec<u8>) -> NoStdAccountInfo {
    NoStdAccountInfo {
        key: Pubkey([key; 32]),
        owner,
        lamports,
        data,
        is_signer: true,
        is_writable: true,
        executable: false,
        borrow_state: 0,
    }
}

/// The token programs read instruction data up to what they need: the data must start with what
/// the crate's own builder encodes, and anything after it must be zero padding.
fn assert_encodes(actual: &[u8], expected: &[u8]) {
    assert!(actual.len() >= expected.len(), "{:?} shorter than {:?}", actual, expected);
    assert_eq!(&actual[..expected.len()], expected);
    assert!(actual[expected.len()..].iter().all(|b| *b == 0), "{:?}", actual);
}

fn unsigned(account: &NoStdAccountInfo) -> CpiAuthority<'_, '_> {
    CpiAuthority { account, signer_seeds: None }
}

fn cpi_messages(e: &SealevelToolsError) -> Vec<String> {
    match e {
        SealevelToolsError::Cpi(msgs) => msgs.iter().map(|m| m.to_string()).collect(),
        _ => panic!("expected a CPI error"),
    }
}

/// Mint data with the given extensions, initialized by the Token Extensions crate itself.
fn mint_data(with_transfer_fee: bool, with_non_transferable: bool, with_hook: bool) -> Vec<u8> {
    let mut types = vec![];
    if with_transfer_fee {
        types.push(Ext::TransferFeeConfig);
    }
    if with_non_transferable {
        types.push(Ext::NonTransferable);
    }
    if with_hook {
        types.push(Ext::TransferHook);
    }
    let len = Ext::try_calculate_account_len::<spl_token_2022::state::Mint>(&types).unwrap();
    let mut data = vec![0u8; len];
    {
        let mut state =
            StateWithExtensionsMut::<spl_token_2022::state::Mint>::unpack_uninitialized(&mut data)
                .unwrap();
        if with_transfer_fee {
            state
                .init_extension::<spl_token_2022::extension::transfer_fee::TransferFeeConfig>(true)
                .unwrap();
        }
        if with_non_transferable {
            state
                .init_extension::<spl_token_2022::extension::non_transferable::NonTransferable>(true)
                .unwrap();
        }
        if with_hook {
            state
                .init_extension::<spl_token_2022::extension::transfer_hook::TransferHook>(true)
                .unwrap();
        }
        state.base.is_initialized = true;
        state.base.decimals = 6;
        state.pack_base();
        state.init_account_type().unwrap();
    }
    data
}

#[test]
fn pointer_extensions_match_builders() {
    let tp = token_2022_id();
    let mint = account(1, tp, 0, vec![]);
    let authority = Pubkey([2; 32]);
    let target = Pubkey([3; 32]);

    for (a, t) in [
        (Some(&authority), Some(&target)),
        (None, Some(&target)),
        (Some(&authority), None),
        (None, None),
    ] {
        let metadata = InitializeMetadataPointer {
            token_program_id: &tp,
            mint: &mint,
            authority: a,
            metadata: t,
        }
        .into_invoke();
        let expected = spl_token_2022::extension::metadata_pointer::instruction::initialize(
            &sol(&tp),
            &sol(&mint.key),
            a.map(sol),
            t.map(sol),
        )
        .unwrap();
        assert_eq!(metadata.data, expected.data);
        assert_eq!(metadata.accounts.len(), 1);
        assert!(metadata.accounts[0].is_writable);

        let group = InitializeGroupPointer {
            token_program_id: &tp,
            mint: &mint,
            authority: a,
            group: t,
        }
        .into_invoke();
        let expected = spl_token_2022::extension::group_pointer::instruction::initialize(
            &sol(&tp),
            &sol(&mint.key),
            a.map(sol),
            t.map(sol),
        )
        .unwrap();
        assert_eq!(group.data, expected.data);

        let hook = InitializeTransferHook {
            token_program_id: &tp,
            mint: &mint,
            authority: a,
            program_id: t,
        }
        .into_invoke();
        let expected = spl_token_2022::extension::transfer_hook::instruction::initialize(
            &sol(&tp),
            &sol(&mint.key),
            a.map(sol),
            t.map(sol),
        )
        .unwrap();
        assert_eq!(hook.data, expected.data);
    }
}

#[test]
fn single_account_extensions_match_builders() {
    let tp = token_2022_id();
    let mint = account(1, tp, 0, vec![]);
    let delegate = Pubkey([5; 32]);

    let close = InitializeMintCloseAuthority {
        token_program_id: &tp,
        mint: &mint,
        authority: Some(&delegate),
    }
    .into_invoke();
    let expected = spl_token_2022::instruction::initialize_mint_close_authority(
        &sol(&tp),
        &sol(&mint.key),
        Some(&sol(&delegate)),
    )
    .unwrap();
    assert_encodes(&close.data, &expected.data);

    let close_none = InitializeMintCloseAuthority {
        token_program_id: &tp,
        mint: &mint,
        authority: None,
    }
    .into_invoke();
    let expected =
        spl_token_2022::instruction::initialize_mint_close_authority(&sol(&tp), &sol(&mint.key), None)
            .unwrap();
    assert_encodes(&close_none.data, &expected.data);

    let permanent = InitializePermanentDelegate {
        token_program_id: &tp,
        mint: &mint,
        delegate: &delegate,
    }
    .into_invoke();
    let expected = spl_token_2022::instruction::initialize_permanent_delegate(
        &sol(&tp),
        &sol(&mint.key),
        &sol(&delegate),
    )
    .unwrap();
    assert_eq!(permanent.data, expected.data);

    let non_transferable = InitializeNonTransferable {
        token_program_id: &tp,
        mint: &mint,
    }
    .into_invoke();
    let expected =
        spl_token_2022::instruction::initialize_non_transferable_mint(&sol(&tp), &sol(&mint.key))
            .unwrap();
    assert_eq!(non_transferable.data, expected.data);

    let immutable = InitializeImmutableOwner {
        token_program_id: &tp,
        account: &mint,
    }
    .into_invoke();
    let expected =
        spl_token_2022::instruction::initialize_immutable_owner(&sol(&tp), &sol(&mint.key)).unwrap();
    assert_eq!(immutable.data, expected.data);
}

#[test]
fn transfer_fee_config_matches_builder() {
    let tp = token_2022_id();
    let mint = account(1, tp, 0, vec![]);
    let config = Pubkey([6; 32]);
    let withdraw = Pubkey([7; 32]);

    for (c, w) in [
        (Some(&config), Some(&withdraw)),
        (None, Some(&withdraw)),
        (Some(&config), None),
        (None, None),
    ] {
        let invocation = InitializeTransferFeeConfig {
            token_program_id: &tp,
            mint: &mint,
            config_authority: c,
            withdraw_withheld_authority: w,
            basis_points: 250,
            maximum_fee: 1_000_000,
        }
        .into_invoke();
        let expected = spl_token_2022::extension::transfer_fee::instruction::initialize_transfer_fee_config(
            &sol(&tp),
            &sol(&mint.key),
            c.map(sol).as_ref(),
            w.map(sol).as_ref(),
            250,
            1_000_000,
        )
        .unwrap();
        assert_encodes(&invocation.data, &expected.data);
        assert_eq!(invocation.data.len(), 78);
    }
}

#[test]
fn initialize_mint_and_account_match_builders() {
    let tp = token_2022_id();
    let mut mint = account(1, tp, 0, vec![]);
    mint.is_writable = false;
    let token_account = account(2, tp, 0, vec![]);
    let authority = Pubkey([8; 32]);
    let freeze = Pubkey([9; 32]);

    let invocation = InitializeMint {
        token_program_id: &tp,
        mint: &mint,
        mint_authority: &authority,
        freeze_authority: Some(&freeze),
        decimals: 9,
    }
    .into_invoke();
    let expected = spl_token_2022::instruction::initialize_mint2(
        &sol(&tp),
        &sol(&mint.key),
        &sol(&authority),
        Some(&sol(&freeze)),
        9,
    )
    .unwrap();
    assert_eq!(invocation.data, expected.data);

    let invocation = InitializeAccount {
        token_program_id: &tp,
        account: &token_account,
        mint: &mint,
        owner: &authority,
    }
    .into_invoke();
    let expected = spl_token_2022::instruction::initialize_account3(
        &sol(&tp),
        &sol(&token_account.key),
        &sol(&mint.key),
        &sol(&authority),
    )
    .unwrap();
    assert_eq!(invocation.data, expected.data);
    assert_eq!(invocation.accounts.len(), 2);
    assert!(invocation.accounts[0].is_writable);
    assert!(!invocation.accounts[1].is_writable);
}

fn create_mint<'a, 'b>(
    token_program_id: &'a Pubkey,
    payer: &'b NoStdAccountInfo,
    mint: &'b NoStdAccountInfo,
    authority: &'a Pubkey,
    extensions: InitializeMintExtensions<'a>,
) -> CreateMint<'a, 'b> {
    CreateMint {
        token_program_id,
        payer: unsigned(payer),
        mint: unsigned(mint),
        mint_authority: authority,
        decimals: 6,
        freeze_authority: None,
        extensions,
    }
}

#[test]
fn mint_space_matches_crate_calculation() {
    let tp = token_2022_id();
    let payer = account(1, Pubkey([0; 32]), 1_000_000_000, vec![]);
    let mint = account(2, Pubkey([0; 32]), 0, vec![]);
    let authority = Pubkey([3; 32]);
    let target = Pubkey([4; 32]);

    let plain = create_mint(&tp, &payer, &mint, &authority, InitializeMintExtensions::new());
    assert_eq!(plain.try_account_space().unwrap(), 82);

    let mut ext = InitializeMintExtensions::new();
    ext.close_authority = Some(&authority);
    let args = create_mint(&tp, &payer, &mint, &authority, ext);
    assert_eq!(
        args.try_account_space().unwrap() as usize,
        Ext::try_calculate_account_len::<spl_token_2022::state::Mint>(&[Ext::MintCloseAuthority])
            .unwrap()
    );

    let mut ext = InitializeMintExtensions::new();
    ext.metadata_pointer = Some(InitializeMetadataPointerData {
        authority: None,
        metadata: &target,
    });
    ext.group_pointer = Some(InitializeGroupPointerData {
        authority: Some(&authority),
        group: &target,
    });
    ext.non_transferable = true;
    ext.permanent_delegate = Some(&authority);
    ext.transfer_fee_config = Some(InitializeTransferFeeConfigData {
        config_authority: None,
        withdraw_withheld_authority: None,
        basis_points: 10,
        maximum_fee: 10,
    });
    ext.transfer_hook = Some(InitializeTransferHookData {
        authority: None,
        program_id: &target,
    });
    let args = create_mint(&tp, &payer, &mint, &authority, ext);
    assert_eq!(
        args.try_account_space().unwrap() as usize,
        Ext::try_calculate_account_len::<spl_token_2022::state::Mint>(&[
            Ext::MetadataPointer,
            Ext::GroupPointer,
            Ext::NonTransferable,
            Ext::PermanentDelegate,
            Ext::TransferFeeConfig,
            Ext::TransferHook,
        ])
        .unwrap()
    );
}

#[test]
fn create_mint_rejects_wrong_programs() {
    let legacy = legacy_token_program_id();
    let other = Pubkey([42; 32]);
    let payer = account(1, Pubkey([0; 32]), 1_000_000_000, vec![]);
    let mint = account(2, Pubkey([0; 32]), 0, vec![]);
    let authority = Pubkey([3; 32]);

    let mut ext = InitializeMintExtensions::new();
    ext.non_transferable = true;
    let err = create_mint(&legacy, &payer, &mint, &authority, ext)
        .try_into_invoke(1)
        .err()
        .unwrap();
    assert_eq!(
        cpi_messages(&err),
        vec!["Extensions only supported with SPL Token Extensions program".to_string()]
    );

    let err = create_mint(&other, &payer, &mint, &authority, InitializeMintExtensions::new())
        .try_into_invoke(1)
        .err()
        .unwrap();
    assert_eq!(
        cpi_messages(&err),
        vec!["Expected legacy SPL Token or Token Extensions program as ID".to_string()]
    );

    let plain = create_mint(&legacy, &payer, &mint, &authority, InitializeMintExtensions::new());
    assert_eq!(plain.try_account_space().unwrap(), 82);
}

#[test]
fn create_mint_plan_order() {
    let tp = token_2022_id();
    let payer = account(1, Pubkey([0; 32]), 1_000_000_000, vec![]);
    let mint = account(2, Pubkey([0; 32]), 0, vec![]);
    let authority = Pubkey([3; 32]);

    let mut ext = InitializeMintExtensions::new();
    ext.close_authority = Some(&authority);
    ext.non_transferable = true;
    let invocations = create_mint(&tp, &payer, &mint, &authority, ext)
        .try_into_invoke(5_000)
        .unwrap();
    assert_eq!(invocations.len(), 4);
    assert_eq!(
        bincode::deserialize::<SystemInstruction>(&invocations[0].data).unwrap(),
        SystemInstruction::CreateAccount {
            lamports: 5_000,
            space: 82 + 83 + 1 + 36 + 4,
            owner: sol(&tp),
        }
    );
    assert_eq!(invocations[1].data[0], 25);
    assert_eq!(invocations[2].data, vec![32]);
    assert_eq!(invocations[3].data[0], 20);
    assert_eq!(invocations[3].program_id.0, tp.0);
}

#[test]
fn create_mint_reports_borrowed_lamports() {
    let tp = token_2022_id();
    let payer = account(1, Pubkey([0; 32]), 1_000_000_000, vec![]);
    let mut mint = account(2, Pubkey([0; 32]), 0, vec![]);
    mint.borrow_state = 0x80;
    let authority = Pubkey([3; 32]);
    let err = create_mint(&tp, &payer, &mint, &authority, InitializeMintExtensions::new())
        .try_into_invoke(5_000)
        .err()
        .unwrap();
    assert!(matches!(
        err,
        SealevelToolsError::PassThrough(ProgramError::AccountBorrowFailed)
    ));
}

fn create_token_account<'a, 'b>(
    payer: &'b NoStdAccountInfo,
    token_account: &'b NoStdAccountInfo,
    mint: &'b NoStdAccountInfo,
    owner: &'a Pubkey,
    immutable_owner: bool,
) -> CreateTokenAccount<'a, 'b> {
    CreateTokenAccount {
        payer: unsigned(payer),
        token_account: unsigned(token_account),
        mint,
        token_account_owner: owner,
        immutable_owner,
    }
}

#[test]
fn token_account_space_follows_mint_extensions() {
    let tp = token_2022_id();
    let payer = account(1, Pubkey([0; 32]), 1_000_000_000, vec![]);
    let token_account = account(2, Pubkey([0; 32]), 0, vec![]);
    let owner = Pubkey([3; 32]);
    let account_len = |types: &[Ext]| {
        Ext::try_calculate_account_len::<spl_token_2022::state::Account>(types).unwrap() as u64
    };

    let mint = account(4, tp, 0, mint_data(false, false, false));
    let args = create_token_account(&payer, &token_account, &mint, &owner, false);
    assert_eq!(args.try_account_space().unwrap(), 165);
    let args = create_token_account(&payer, &token_account, &mint, &owner, true);
    assert_eq!(args.try_account_space().unwrap(), account_len(&[Ext::ImmutableOwner]));

    let mint = account(4, tp, 0, mint_data(true, false, false));
    let args = create_token_account(&payer, &token_account, &mint, &owner, false);
    assert_eq!(args.try_account_space().unwrap(), account_len(&[Ext::TransferFeeAmount]));

    let mint = account(4, tp, 0, mint_data(false, true, false));
    let args = create_token_account(&payer, &token_account, &mint, &owner, true);
    assert_eq!(
        args.try_account_space().unwrap(),
        account_len(&[Ext::NonTransferableAccount, Ext::ImmutableOwner])
    );

    let mint = account(4, tp, 0, mint_data(true, true, true));
    let args = create_token_account(&payer, &token_account, &mint, &owner, false);
    assert_eq!(
        args.try_account_space().unwrap(),
        account_len(&[
            Ext::TransferFeeAmount,
            Ext::NonTransferableAccount,
            Ext::ImmutableOwner,
            Ext::TransferHookAccount,
        ])
    );
}

#[test]
fn token_account_errors() {
    let tp = token_2022_id();
    let legacy = legacy_token_program_id();
    let payer = account(1, Pubkey([0; 32]), 1_000_000_000, vec![]);
    let token_account = account(2, Pubkey([0; 32]), 0, vec![]);
    let owner = Pubkey([3; 32]);

    let bad_data = account(4, tp, 0, vec![1, 2, 3]);
    let err = create_token_account(&payer, &token_account, &bad_data, &owner, false)
        .try_account_space()
        .err()
        .unwrap();
    assert!(matches!(
        err,
        SealevelToolsError::PassThrough(ProgramError::InvalidAccountData)
    ));

    let uninitialized = account(4, tp, 0, vec![0; 82]);
    let err = create_token_account(&payer, &token_account, &uninitialized, &owner, false)
        .try_account_space()
        .err()
        .unwrap();
    assert!(matches!(
        err,
        SealevelToolsError::PassThrough(ProgramError::UninitializedAccount)
    ));

    let mut borrowed = account(4, tp, 0, mint_data(false, false, false));
    borrowed.borrow_state = 0x08;
    let err = create_token_account(&payer, &token_account, &borrowed, &owner, false)
        .try_account_space()
        .err()
        .unwrap();
    assert!(matches!(
        err,
        SealevelToolsError::PassThrough(ProgramError::AccountBorrowFailed)
    ));

    let legacy_mint = account(4, legacy, 0, mint_data(false, false, false)[..82].to_vec());
    let err = create_token_account(&payer, &token_account, &legacy_mint, &owner, true)
        .try_account_space()
        .err()
        .unwrap();
    assert_eq!(
        cpi_messages(&err),
        vec!["Extensions only supported with SPL Token Extensions program".to_string()]
    );
    let args = create_token_account(&payer, &token_account, &legacy_mint, &owner, false);
    assert_eq!(args.try_account_space().unwrap(), 165);

    let foreign_mint = account(4, Pubkey([42; 32]), 0, mint_data(false, false, false));
    let err = create_token_account(&payer, &token_account, &foreign_mint, &owner, false)
        .try_account_space()
        .err()
        .unwrap();
    assert_eq!(
        cpi_messages(&err),
        vec!["Expected legacy SPL Token or Token Extensions program as ID".to_string()]
    );
}

#[test]
fn create_token_account_plan() {
    let tp = token_2022_id();
    let payer = account(1, Pubkey([0; 32]), 1_000_000_000, vec![]);
    let owner = Pubkey([3; 32]);
    let mint = account(4, tp, 0, mint_data(false, false, false));

    let token_account = account(2, Pubkey([0; 32]), 0, vec![]);
    let invocations = create_token_account(&payer, &token_account, &mint, &owner, true)
        .try_into_invoke(2_000)
        .unwrap();
    assert_eq!(invocations.len(), 3);
    assert_eq!(invocations[1].data, vec![22]);
    assert_eq!(invocations[2].data[0], 18);
    assert_eq!(&invocations[2].data[1..], &owner.0[..]);

    // An account that already holds lamports is topped up, allocated and assigned.
    let funded = account(2, Pubkey([0; 32]), 500, vec![]);
    let invocations = create_token_account(&payer, &funded, &mint, &owner, false)
        .try_into_invoke(2_000)
        .unwrap();
    assert_eq!(invocations.len(), 4);
    assert_eq!(
        bincode::deserialize::<SystemInstruction>(&invocations[0].data).unwrap(),
        SystemInstruction::Transfer { lamports: 1_500 }
    );
    assert_eq!(
        bincode::deserialize::<SystemInstruction>(&invocations[1].data).unwrap(),
        SystemInstruction::Allocate { space: 165 }
    );
    assert_eq!(
        bincode::deserialize::<SystemInstruction>(&invocations[2].data).unwrap(),
        SystemInstruction::Assign { owner: sol(&tp) }
    );
    assert_eq!(invocations[3].data[0], 18);

    // A non-transferable mint implies the immutable owner extension: no separate invocation.
    let nt_mint = account(4, tp, 0, mint_data(false, true, false));
    let invocations = create_token_account(&payer, &token_account, &nt_mint, &owner, true)
        .try_into_invoke(2_000)
        .unwrap();
    assert_eq!(invocations.len(), 2);
}

#[test]
fn transfer_checked_passes_extra_accounts_to_token_2022_only() {
    let tp = token_2022_id();
    let legacy = legacy_token_program_id();
    let source = account(1, tp, 0, vec![]);
    let mint = account(2, tp, 0, vec![]);
    let destination = account(3, tp, 0, vec![]);
    let authority = account(4, Pubkey([0; 32]), 0, vec![]);
    let extra = [account(5, tp, 0, vec![]), account(6, tp, 0, vec![])];

    let invocation = TransferChecked {
        token_program_id: &tp,
        source: &source,
        mint: &mint,
        destination: &destination,
        authority: unsigned(&authority),
        amount: 77,
        decimals: 2,
        additional_accounts: Some(&extra),
    }
    .try_into_invoke()
    .unwrap();
    assert_eq!(invocation.accounts.len(), 6);
    assert_eq!(invocation.infos.len(), 6);
    assert_eq!(invocation.accounts[4].pubkey.0, [5; 32]);
    let expected = spl_token_2022::instruction::transfer_checked(
        &sol(&tp),
        &sol(&source.key),
        &sol(&mint.key),
        &sol(&destination.key),
        &sol(&authority.key),
        &[],
        77,
        2,
    )
    .unwrap();
    assert_eq!(invocation.data, expected.data);

    let invocation = TransferChecked {
        token_program_id: &legacy,
        source: &source,
        mint: &mint,
        destination: &destination,
        authority: unsigned(&authority),
        amount: 77,
        decimals: 2,
        additional_accounts: Some(&extra),
    }
    .try_into_invoke()
    .unwrap();
    assert_eq!(invocation.accounts.len(), 4);

    let invocation = Transfer {
        token_program_id: &tp,
        source: &source,
        destination: &destination,
        authority: unsigned(&authority),
        amount: 77,
        checked: Some(UseTransferChecked {
            mint: &mint,
            decimals: 2,
            additional_accounts: Some(&[]),
        }),
    }
    .into_invoke();
    assert_eq!(invocation.accounts.len(), 4);
    assert_eq!(invocation.data, expected.data);

    let invocation = Transfer {
        token_program_id: &tp,
        source: &source,
        destination: &destination,
        authority: unsigned(&authority),
        amount: 77,
        checked: None,
    }
    .into_invoke();
    assert_eq!(invocation.accounts.len(), 3);
    assert_eq!(invocation.data, vec![3, 77, 0, 0, 0, 0, 0, 0, 0]);
}

#[test]
fn get_account_data_size_matches_builder() {
    let tp = token_2022_id();
    let mut mint = account(1, tp, 0, vec![]);
    mint.is_writable = false;
    let invocation = GetAccountDataSize {
        token_program_id: &tp,
        mint: &mint,
        extensions: &[ExtensionType::ImmutableOwner, ExtensionType::TransferFeeAmount],
    }
    .into_return_data();
    let expected = spl_token_2022::instruction::get_account_data_size(
        &sol(&tp),
        &sol(&mint.key),
        &[Ext::ImmutableOwner, Ext::TransferFeeAmount],
    )
    .unwrap();
    assert_eq!(invocation.data, expected.data);
    assert_eq!(invocation.accounts.len(), 1);
    assert!(!invocation.accounts[0].is_writable);

    assert_eq!(ExtensionType::TransferFeeConfig.to_u16(), Ext::TransferFeeConfig as u16);
    assert_eq!(ExtensionType::TokenGroupMember.to_u16(), Ext::TokenGroupMember as u16);
    assert_eq!(ExtensionType::Pausable.to_bytes(), (Ext::Pausable as u16).to_le_bytes());
}

#[test]
fn account_data_size_reads_little_endian() {
    let size = account_data_size_from_return_data(Some((Pubkey([0; 32]), [0xaa, 1, 0, 0, 0, 0, 0, 0])));
    assert_eq!(size, 0x01aa);
}

#[test]
fn space_for_mint_flags_by_program() {
    let tp = token_2022_id();
    let legacy = legacy_token_program_id();
    let none = MintExtensionFlags {
        transfer_fee: false,
        non_transferable: false,
        transfer_hook: false,
    };
    let fee_and_hook = MintExtensionFlags {
        transfer_fee: true,
        non_transferable: false,
        transfer_hook: true,
    };
    assert_eq!(space_for_mint_flags(&tp, none, false).unwrap(), 165);
    assert_eq!(space_for_mint_flags(&legacy, none, false).unwrap(), 165);
    assert_eq!(space_for_mint_flags(&tp, none, true).unwrap(), 170);
    assert_eq!(space_for_mint_flags(&tp, fee_and_hook, false).unwrap(), 183);
    assert_eq!(space_for_mint_flags(&tp, fee_and_hook, true).unwrap(), 187);
    assert_eq!(
        cpi_messages(&space_for_mint_flags(&legacy, fee_and_hook, false).err().unwrap()),
        vec!["Extensions only supported with SPL Token Extensions program".to_string()]
    );
    assert_eq!(
        cpi_messages(&space_for_mint_flags(&Pubkey([1; 32]), none, false).err().unwrap()),
        vec!["Expected legacy SPL Token or Token Extensions program as ID".to_string()]
    );
}
