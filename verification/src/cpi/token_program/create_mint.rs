//! Creating mint accounts, with optional Token Extensions, and initializing them.

use vstd::prelude::*;

use crate::bytes::{write_bytes, zeros};
use crate::cpi::system_program::{
    create_account_data, failsafe_create_plan, system_program_id_bytes, try_failsafe_create_account,
    FailsafeCreateAccount,
};
use crate::cpi::token_program::extensions::{
    compact_option_pubkey, initialize_close_authority_data,
    initialize_confidential_transfer_data, initialize_confidential_transfer_fee_config_data,
    initialize_pointer_data, initialize_transfer_fee_config_data, key_or_zeros,
    single_account_invocation, InitializeConfidentialTransfer,
    InitializeConfidentialTransferFeeConfig, InitializeGroupMemberPointer, InitializeGroupPointer,
    InitializeMetadataPointer, InitializeMintCloseAuthority, InitializeNonTransferable,
    InitializePermanentDelegate, InitializeTransferFeeConfig, InitializeTransferHook,
};
use crate::cpi::token_program::{
    authority_data, base_with_extensions_len, coption_pubkey_data, empty_extension_len,
    error_expected_token_program, error_extensions_unsupported, is_any_token_program_id,
    mint_len, token_2022_program_id, token_2022_program_id_bytes, token_account_len,
    token_program_id_bytes, write_coption_pubkey,
};
use crate::cpi::{
    infos_of, invocation_views, invoke_unsigned, metas_of, CpiAuthority, Invocation, InvocationView,
};
use crate::entrypoint::{lamports_borrowable, NoStdAccountInfo};
use crate::error::SealevelToolsError;
use crate::program_error::ProgramError;
use crate::pubkey::Pubkey;

verus! {

/// Instruction data of `InitializeMint2`: selector 20, the decimals, the mint authority, then
/// the optional freeze authority.
pub open spec fn initialize_mint2_data(
    decimals: u8,
    mint_authority: Pubkey,
    freeze_authority: Option<&Pubkey>,
) -> Seq<u8> {
    seq![20u8, decimals] + mint_authority@ + coption_pubkey_data(freeze_authority)
}

/// The `InitializeMint2` invocation of `token_program_id` on `mint`.
pub fn invoke_initialize_mint2<'s, 't>(
    token_program_id: &Pubkey,
    mint: &NoStdAccountInfo,
    mint_authority: &Pubkey,
    freeze_authority: Option<&Pubkey>,
    decimals: u8,
) -> (r: Invocation<'s, 't>)
    ensures
        r@ == single_account_invocation(
            *token_program_id,
            mint,
            initialize_mint2_data(decimals, *mint_authority, freeze_authority),
        ),
{
    let mut instruction_data = [0u8; 67];
    instruction_data[0] = 20;
    instruction_data[1] = decimals;
    let authority = mint_authority.to_bytes();
    write_bytes(&mut instruction_data, 2, &authority);
    assert(instruction_data@.subrange(34, 67) =~= zeros(33));
    write_coption_pubkey(&mut instruction_data, 34, freeze_authority);
    assert(instruction_data@ =~= initialize_mint2_data(decimals, *mint_authority, freeze_authority));
    let accounts = [mint];
    assert(accounts@ =~= seq![mint]);
    invoke_unsigned(token_program_id, &accounts, &instruction_data)
}

/// Arguments of `InitializeMint2`, which initializes an account already created for a token
/// program as a mint. Prefer [CreateMint], which creates the account too.
pub struct InitializeMint<'a> {
    pub token_program_id: &'a Pubkey,
    pub mint: &'a NoStdAccountInfo,
    pub mint_authority: &'a Pubkey,
    pub freeze_authority: Option<&'a Pubkey>,
    pub decimals: u8,
}

impl<'a> InitializeMint<'a> {
    /// The `InitializeMint2` invocation (selector 20).
    pub fn into_invoke<'s, 't>(self) -> (r: Invocation<'s, 't>)
        ensures
            r@ == single_account_invocation(
                *self.token_program_id,
                self.mint,
                initialize_mint2_data(self.decimals, *self.mint_authority, self.freeze_authority),
            ),
    {
        invoke_initialize_mint2(
            self.token_program_id,
            self.mint,
            self.mint_authority,
            self.freeze_authority,
            self.decimals,
        )
    }
}

/// Data to initialize the group pointer extension, which establishes a collection of mints.
pub struct InitializeGroupPointerData<'a> {
    /// Who may update the group; [None] when it cannot be changed.
    pub authority: Option<&'a Pubkey>,
    /// Where the group is stored.
    pub group: &'a Pubkey,
}

/// Data to initialize the group member pointer extension, which associates a mint with a group.
pub struct InitializeGroupMemberPointerData<'a> {
    /// Who may update the group member; [None] when it cannot be changed.
    pub authority: Option<&'a Pubkey>,
    /// Where the group member is stored.
    pub group_member: &'a Pubkey,
}

/// Data to initialize the metadata pointer extension, which adds descriptive information to a
/// mint.
pub struct InitializeMetadataPointerData<'a> {
    /// Who may update the metadata; [None] when it cannot be changed.
    pub authority: Option<&'a Pubkey>,
    /// Where the metadata is stored.
    pub metadata: &'a Pubkey,
}

/// Data to initialize the transfer fee extension, which charges a fee on transfers.
pub struct InitializeTransferFeeConfigData<'a> {
    /// Who may update the configuration; [None] when it cannot be changed.
    pub config_authority: Option<&'a Pubkey>,
    /// Who may withdraw withheld fees; [None] when no one can.
    pub withdraw_withheld_authority: Option<&'a Pubkey>,
    /// The fee in basis points.
    pub basis_points: u16,
    /// The maximum fee.
    pub maximum_fee: u64,
}

/// Data to initialize the transfer hook extension, which runs custom logic on transfers.
pub struct InitializeTransferHookData<'a> {
    /// Who may update the hook program; [None] when it cannot be changed.
    pub authority: Option<&'a Pubkey>,
    /// The program invoked on transfers.
    pub program_id: &'a Pubkey,
}

/// Data to initialize the confidential transfer extension, which hides transfer amounts.
pub struct InitializeConfidentialTransferData<'a> {
    /// Who may modify the configuration and approve new accounts.
    pub authority: Option<&'a Pubkey>,
    /// Whether new accounts may be used without approval by [Self::authority].
    pub auto_approve_new_accounts: bool,
    /// The ElGamal key of an auditor who can decode any transfer amount.
    pub auditor_elgamal: Option<&'a [u8; 32]>,
}

/// Data to initialize the confidential transfer fee extension, which hides transfer fees.
pub struct InitializeConfidentialTransferFeeConfigData<'a> {
    /// Who may set the withdraw-withheld authority's ElGamal key.
    pub authority: Option<&'a Pubkey>,
    /// The ElGamal key under which withheld fees are encrypted.
    pub withdraw_withheld_authority_elgamal: &'a [u8; 32],
}

/// Optional extensions of a new mint: each is initialized when present.
pub struct InitializeMintExtensions<'a> {
    pub close_authority: Option<&'a Pubkey>,
    pub group_pointer: Option<InitializeGroupPointerData<'a>>,
    pub group_member_pointer: Option<InitializeGroupMemberPointerData<'a>>,
    pub metadata_pointer: Option<InitializeMetadataPointerData<'a>>,
    pub non_transferable: bool,
    pub permanent_delegate: Option<&'a Pubkey>,
    pub transfer_fee_config: Option<InitializeTransferFeeConfigData<'a>>,
    pub transfer_hook: Option<InitializeTransferHookData<'a>>,
    /// When present, [Self::transfer_fee_config] cannot be present unless
    /// [Self::confidential_transfer_fee_config] is too.
    pub confidential_transfer: Option<InitializeConfidentialTransferData<'a>>,
    /// When present, [Self::transfer_fee_config] and [Self::confidential_transfer] must be too.
    pub confidential_transfer_fee_config: Option<InitializeConfidentialTransferFeeConfigData<'a>>,
}

impl<'a> InitializeMintExtensions<'a> {
    /// No extensions.
    pub fn new() -> (r: InitializeMintExtensions<'a>)
        ensures
            !r.spec_any(),
    {
        InitializeMintExtensions {
            close_authority: None,
            group_pointer: None,
            group_member_pointer: None,
            metadata_pointer: None,
            non_transferable: false,
            permanent_delegate: None,
            transfer_fee_config: None,
            transfer_hook: None,
            confidential_transfer: None,
            confidential_transfer_fee_config: None,
        }
    }

    /// Whether any extension is requested.
    pub open spec fn spec_any(&self) -> bool {
        self.close_authority is Some || self.group_pointer is Some
            || self.group_member_pointer is Some || self.metadata_pointer is Some
            || self.non_transferable || self.permanent_delegate is Some
            || self.transfer_fee_config is Some || self.transfer_hook is Some
            || self.confidential_transfer is Some || self.confidential_transfer_fee_config is Some
    }
}

/// Arguments to create a mint: the account is created for one of the token programs,
/// its extensions are initialized, and it is initialized as a mint.
pub struct CreateMint<'a, 'b: 'a> {
    pub token_program_id: &'a Pubkey,
    pub payer: CpiAuthority<'a, 'b>,
    pub mint: CpiAuthority<'a, 'b>,
    pub mint_authority: &'a Pubkey,
    pub decimals: u8,
    pub freeze_authority: Option<&'a Pubkey>,
    pub extensions: InitializeMintExtensions<'a>,
}

/// The size of an extension that holds one address: type, length and the address.
pub open spec fn only_authority_len() -> nat {
    empty_extension_len() + 32
}

/// The size of a pointer extension: type, length, the authority and the pointer.
pub open spec fn authority_pointer_len() -> nat {
    only_authority_len() + 32
}

/// The size of the transfer fee configuration: type, length, two authorities, the withheld
/// amount, and the older and newer fees (epoch, maximum fee and basis points each).
pub open spec fn transfer_fee_config_len() -> nat {
    empty_extension_len() + 32 + 32 + 8 + 8 + 8 + 2 + 8 + 8 + 2
}

/// The size of the confidential transfer configuration: type, length, the authority, the
/// auto-approve flag and the auditor's ElGamal key.
pub open spec fn confidential_transfer_len() -> nat {
    empty_extension_len() + 32 + 1 + 32
}

/// The size of the confidential transfer fee configuration: type, length, the authority, the
/// withdraw-withheld ElGamal key, the harvest flag and the encrypted withheld amount.
pub open spec fn confidential_transfer_fee_config_len() -> nat {
    empty_extension_len() + 32 + 32 + 1 + 64
}

/// `len` when `present`, else nothing.
pub open spec fn if_present(present: bool, len: nat) -> nat {
    if present {
        len
    } else {
        0
    }
}

/// The size of a mint with the requested extensions: a plain mint without any; otherwise the
/// base size with extensions plus the size of each requested extension.
pub open spec fn mint_space(extensions: InitializeMintExtensions) -> nat {
    if !extensions.spec_any() {
        82
    } else {
        base_with_extensions_len() + if_present(extensions.close_authority is Some, only_authority_len())
            + if_present(extensions.group_pointer is Some, authority_pointer_len()) + if_present(
            extensions.group_member_pointer is Some,
            authority_pointer_len(),
        ) + if_present(extensions.metadata_pointer is Some, authority_pointer_len()) + if_present(
            extensions.non_transferable,
            empty_extension_len(),
        ) + if_present(extensions.permanent_delegate is Some, only_authority_len()) + if_present(
            extensions.transfer_fee_config is Some,
            transfer_fee_config_len(),
        ) + if_present(extensions.transfer_hook is Some, authority_pointer_len()) + if_present(
            extensions.confidential_transfer is Some,
            confidential_transfer_len(),
        ) + if_present(
            extensions.confidential_transfer_fee_config is Some,
            confidential_transfer_fee_config_len(),
        )
    }
}

/// The invocation as a one-element sequence when `present`, else nothing.
pub open spec fn optional_step(present: bool, inv: InvocationView) -> Seq<InvocationView> {
    if present {
        seq![inv]
    } else {
        Seq::empty()
    }
}

/// The close authority initialization, if requested.
pub open spec fn close_authority_segment(tp: Pubkey, mint: &NoStdAccountInfo, close_authority: Option<&Pubkey>) -> Seq<InvocationView> {
    optional_step(
        close_authority is Some,
        single_account_invocation(tp, mint, initialize_close_authority_data(close_authority)),
    )
}

/// The group pointer initialization, if requested.
pub open spec fn group_pointer_segment(tp: Pubkey, mint: &NoStdAccountInfo, data: Option<InitializeGroupPointerData>) -> Seq<InvocationView> {
    match data {
        Some(d) => seq![
            single_account_invocation(tp, mint, initialize_pointer_data(40, key_or_zeros(d.authority), d.group@)),
        ],
        None => Seq::empty(),
    }
}

/// The group member pointer initialization, if requested.
pub open spec fn group_member_pointer_segment(tp: Pubkey, mint: &NoStdAccountInfo, data: Option<InitializeGroupMemberPointerData>) -> Seq<InvocationView> {
    match data {
        Some(d) => seq![
            single_account_invocation(tp, mint, initialize_pointer_data(41, key_or_zeros(d.authority), d.group_member@)),
        ],
        None => Seq::empty(),
    }
}

/// The metadata pointer initialization, if requested.
pub open spec fn metadata_pointer_segment(tp: Pubkey, mint: &NoStdAccountInfo, data: Option<InitializeMetadataPointerData>) -> Seq<InvocationView> {
    match data {
        Some(d) => seq![
            single_account_invocation(tp, mint, initialize_pointer_data(39, key_or_zeros(d.authority), d.metadata@)),
        ],
        None => Seq::empty(),
    }
}

/// The non-transferable initialization, if requested.
pub open spec fn non_transferable_segment(tp: Pubkey, mint: &NoStdAccountInfo, non_transferable: bool) -> Seq<InvocationView> {
    optional_step(non_transferable, single_account_invocation(tp, mint, seq![32u8]))
}

/// The permanent delegate initialization, if requested.
pub open spec fn permanent_delegate_segment(tp: Pubkey, mint: &NoStdAccountInfo, delegate: Option<&Pubkey>) -> Seq<InvocationView> {
    match delegate {
        Some(d) => seq![single_account_invocation(tp, mint, authority_data(35, *d))],
        None => Seq::empty(),
    }
}

/// The transfer fee initialization, if requested.
pub open spec fn transfer_fee_config_segment(tp: Pubkey, mint: &NoStdAccountInfo, data: Option<InitializeTransferFeeConfigData>) -> Seq<InvocationView> {
    match data {
        Some(d) => seq![
            single_account_invocation(
                tp,
                mint,
                initialize_transfer_fee_config_data(
                    d.config_authority,
                    d.withdraw_withheld_authority,
                    d.basis_points,
                    d.maximum_fee,
                ),
            ),
        ],
        None => Seq::empty(),
    }
}

/// The transfer hook initialization, if requested.
pub open spec fn transfer_hook_segment(tp: Pubkey, mint: &NoStdAccountInfo, data: Option<InitializeTransferHookData>) -> Seq<InvocationView> {
    match data {
        Some(d) => seq![
            single_account_invocation(tp, mint, initialize_pointer_data(36, key_or_zeros(d.authority), d.program_id@)),
        ],
        None => Seq::empty(),
    }
}

/// The confidential transfer initialization, if requested.
pub open spec fn confidential_transfer_segment(tp: Pubkey, mint: &NoStdAccountInfo, data: Option<InitializeConfidentialTransferData>) -> Seq<InvocationView> {
    match data {
        Some(d) => seq![
            single_account_invocation(
                tp,
                mint,
                initialize_confidential_transfer_data(d.authority, d.auto_approve_new_accounts, d.auditor_elgamal),
            ),
        ],
        None => Seq::empty(),
    }
}

/// The confidential transfer fee initialization, if requested.
pub open spec fn confidential_transfer_fee_config_segment(tp: Pubkey, mint: &NoStdAccountInfo, data: Option<InitializeConfidentialTransferFeeConfigData>) -> Seq<InvocationView> {
    match data {
        Some(d) => seq![
            single_account_invocation(
                tp,
                mint,
                initialize_confidential_transfer_fee_config_data(d.authority, d.withdraw_withheld_authority_elgamal@),
            ),
        ],
        None => Seq::empty(),
    }
}

/// The invocations that initialize the requested extensions of `mint`, in this order: close
/// authority, group pointer, group member pointer, metadata pointer, non-transferable, permanent
/// delegate, transfer fee, transfer hook, confidential transfer, confidential transfer fee.
pub open spec fn mint_extension_plan(
    token_program_id: Pubkey,
    mint: &NoStdAccountInfo,
    extensions: InitializeMintExtensions,
) -> Seq<InvocationView> {
    let tp = token_program_id;
    close_authority_segment(tp, mint, extensions.close_authority)
        + group_pointer_segment(tp, mint, extensions.group_pointer)
        + group_member_pointer_segment(tp, mint, extensions.group_member_pointer)
        + metadata_pointer_segment(tp, mint, extensions.metadata_pointer)
        + non_transferable_segment(tp, mint, extensions.non_transferable)
        + permanent_delegate_segment(tp, mint, extensions.permanent_delegate)
        + transfer_fee_config_segment(tp, mint, extensions.transfer_fee_config)
        + transfer_hook_segment(tp, mint, extensions.transfer_hook)
        + confidential_transfer_segment(tp, mint, extensions.confidential_transfer)
        + confidential_transfer_fee_config_segment(tp, mint, extensions.confidential_transfer_fee_config)
}

/// How many extensions are requested.
pub open spec fn requested_extension_count(extensions: InitializeMintExtensions) -> nat {
    (if extensions.close_authority is Some { 1nat } else { 0nat })
        + (if extensions.group_pointer is Some { 1nat } else { 0nat })
        + (if extensions.group_member_pointer is Some { 1nat } else { 0nat })
        + (if extensions.metadata_pointer is Some { 1nat } else { 0nat })
        + (if extensions.non_transferable { 1nat } else { 0nat })
        + (if extensions.permanent_delegate is Some { 1nat } else { 0nat })
        + (if extensions.transfer_fee_config is Some { 1nat } else { 0nat })
        + (if extensions.transfer_hook is Some { 1nat } else { 0nat })
        + (if extensions.confidential_transfer is Some { 1nat } else { 0nat })
        + (if extensions.confidential_transfer_fee_config is Some { 1nat } else { 0nat })
}

/// Whether some invocation of `plan` carries `data`.
pub open spec fn carries(plan: Seq<InvocationView>, data: Seq<u8>) -> bool {
    exists|i: int| 0 <= i < plan.len() && #[trigger] plan[i].data == data
}

/// Every requested extension is initialized, and nothing else: the extension invocations are as
/// many as the requested extensions, each is an unsigned invocation of the token program on the
/// mint alone, and for each requested extension one of them carries its initialize data (the
/// selectors differ, so each extension is initialized exactly once).
#[verifier::rlimit(40)]
pub proof fn lemma_mint_extension_plan_initializes_requested(
    tp: Pubkey,
    mint: &NoStdAccountInfo,
    extensions: InitializeMintExtensions,
)
    ensures
        mint_extension_plan(tp, mint, extensions).len() == requested_extension_count(extensions),
        all_on_mint(mint_extension_plan(tp, mint, extensions), tp, mint),
        extensions.close_authority is Some ==> carries(
            mint_extension_plan(tp, mint, extensions),
            seq![25u8] + coption_pubkey_data(extensions.close_authority),
        ),
        extensions.group_pointer matches Some(d) ==> carries(
            mint_extension_plan(tp, mint, extensions),
            seq![40u8, 0u8] + key_or_zeros(d.authority) + d.group@,
        ),
        extensions.group_member_pointer matches Some(d) ==> carries(
            mint_extension_plan(tp, mint, extensions),
            seq![41u8, 0u8] + key_or_zeros(d.authority) + d.group_member@,
        ),
        extensions.metadata_pointer matches Some(d) ==> carries(
            mint_extension_plan(tp, mint, extensions),
            seq![39u8, 0u8] + key_or_zeros(d.authority) + d.metadata@,
        ),
        extensions.non_transferable ==> carries(mint_extension_plan(tp, mint, extensions), seq![32u8]),
        extensions.permanent_delegate matches Some(d) ==> carries(
            mint_extension_plan(tp, mint, extensions),
            seq![35u8] + d@,
        ),
        extensions.transfer_fee_config matches Some(d) ==> carries(
            mint_extension_plan(tp, mint, extensions),
            initialize_transfer_fee_config_data(
                d.config_authority,
                d.withdraw_withheld_authority,
                d.basis_points,
                d.maximum_fee,
            ),
        ),
        extensions.transfer_hook matches Some(d) ==> carries(
            mint_extension_plan(tp, mint, extensions),
            seq![36u8, 0u8] + key_or_zeros(d.authority) + d.program_id@,
        ),
        extensions.confidential_transfer matches Some(d) ==> carries(
            mint_extension_plan(tp, mint, extensions),
            initialize_confidential_transfer_data(d.authority, d.auto_approve_new_accounts, d.auditor_elgamal),
        ),
        extensions.confidential_transfer_fee_config matches Some(d) ==> carries(
            mint_extension_plan(tp, mint, extensions),
            seq![37u8, 0u8] + key_or_zeros(d.authority) + d.withdraw_withheld_authority_elgamal@,
        ),
{
    let e = extensions;
    let s1 = close_authority_segment(tp, mint, e.close_authority);
    let s2 = group_pointer_segment(tp, mint, e.group_pointer);
    let s3 = group_member_pointer_segment(tp, mint, e.group_member_pointer);
    let s4 = metadata_pointer_segment(tp, mint, e.metadata_pointer);
    let s5 = non_transferable_segment(tp, mint, e.non_transferable);
    let s6 = permanent_delegate_segment(tp, mint, e.permanent_delegate);
    let s7 = transfer_fee_config_segment(tp, mint, e.transfer_fee_config);
    let s8 = transfer_hook_segment(tp, mint, e.transfer_hook);
    let s9 = confidential_transfer_segment(tp, mint, e.confidential_transfer);
    let s10 = confidential_transfer_fee_config_segment(tp, mint, e.confidential_transfer_fee_config);
    let p1 = s1;
    let p2 = p1 + s2;
    let p3 = p2 + s3;
    let p4 = p3 + s4;
    let p5 = p4 + s5;
    let p6 = p5 + s6;
    let p7 = p6 + s7;
    let p8 = p7 + s8;
    let p9 = p8 + s9;
    let plan = p9 + s10;
    assert(plan == mint_extension_plan(tp, mint, e));
    assert(plan.len() == requested_extension_count(e));

    lemma_mint_extension_plan_on_mint(tp, mint, e);

    if let Some(a) = e.close_authority {
        assert(carries(plan, seq![25u8] + coption_pubkey_data(e.close_authority))) by {
            broadcast use lemma_carries_extend;

            assert(p1[0].data == seq![25u8] + coption_pubkey_data(e.close_authority));
            assert(carries(p1, seq![25u8] + coption_pubkey_data(e.close_authority)));
        }
    }
    if let Some(d) = e.group_pointer {
        let data = seq![40u8, 0u8] + key_or_zeros(d.authority) + d.group@;
        assert(carries(plan, data)) by {
            broadcast use lemma_carries_extend;

            lemma_carries_appended(p1, s2);
            assert(s2[0].data == data);
        }
    }
    if let Some(d) = e.group_member_pointer {
        let data = seq![41u8, 0u8] + key_or_zeros(d.authority) + d.group_member@;
        assert(carries(plan, data)) by {
            broadcast use lemma_carries_extend;

            lemma_carries_appended(p2, s3);
            assert(s3[0].data == data);
        }
    }
    if let Some(d) = e.metadata_pointer {
        let data = seq![39u8, 0u8] + key_or_zeros(d.authority) + d.metadata@;
        assert(carries(plan, data)) by {
            broadcast use lemma_carries_extend;

            lemma_carries_appended(p3, s4);
            assert(s4[0].data == data);
        }
    }
    if e.non_transferable {
        assert(carries(plan, seq![32u8])) by {
            broadcast use lemma_carries_extend;

            lemma_carries_appended(p4, s5);
            assert(s5[0].data == seq![32u8]);
        }
    }
    if let Some(d) = e.permanent_delegate {
        assert(carries(plan, seq![35u8] + d@)) by {
            broadcast use lemma_carries_extend;

            lemma_carries_appended(p5, s6);
            assert(s6[0].data == seq![35u8] + d@);
        }
    }
    if let Some(d) = e.transfer_fee_config {
        let data = initialize_transfer_fee_config_data(
            d.config_authority,
            d.withdraw_withheld_authority,
            d.basis_points,
            d.maximum_fee,
        );
        assert(carries(plan, data)) by {
            broadcast use lemma_carries_extend;

            lemma_carries_appended(p6, s7);
            assert(s7[0].data == data);
        }
    }
    if let Some(d) = e.transfer_hook {
        let data = seq![36u8, 0u8] + key_or_zeros(d.authority) + d.program_id@;
        assert(carries(plan, data)) by {
            broadcast use lemma_carries_extend;

            lemma_carries_appended(p7, s8);
            assert(s8[0].data == data);
        }
    }
    if let Some(d) = e.confidential_transfer {
        let data = initialize_confidential_transfer_data(
            d.authority,
            d.auto_approve_new_accounts,
            d.auditor_elgamal,
        );
        assert(carries(plan, data)) by {
            broadcast use lemma_carries_extend;

            lemma_carries_appended(p8, s9);
            assert(s9[0].data == data);
        }
    }
    if let Some(d) = e.confidential_transfer_fee_config {
        let data = seq![37u8, 0u8] + key_or_zeros(d.authority) + d.withdraw_withheld_authority_elgamal@;
        assert(carries(plan, data)) by {
            lemma_carries_appended(p9, s10);
            assert(s10[0].data == data);
        }
    }
}

/// Every extension invocation is an unsigned invocation of the token program on the mint alone.
proof fn lemma_mint_extension_plan_on_mint(
    tp: Pubkey,
    mint: &NoStdAccountInfo,
    e: InitializeMintExtensions,
)
    ensures
        all_on_mint(mint_extension_plan(tp, mint, e), tp, mint),
{
    let s1 = close_authority_segment(tp, mint, e.close_authority);
    let s2 = group_pointer_segment(tp, mint, e.group_pointer);
    let s3 = group_member_pointer_segment(tp, mint, e.group_member_pointer);
    let s4 = metadata_pointer_segment(tp, mint, e.metadata_pointer);
    let s5 = non_transferable_segment(tp, mint, e.non_transferable);
    let s6 = permanent_delegate_segment(tp, mint, e.permanent_delegate);
    let s7 = transfer_fee_config_segment(tp, mint, e.transfer_fee_config);
    let s8 = transfer_hook_segment(tp, mint, e.transfer_hook);
    let s9 = confidential_transfer_segment(tp, mint, e.confidential_transfer);
    let s10 = confidential_transfer_fee_config_segment(tp, mint, e.confidential_transfer_fee_config);
    let p1 = s1;
    let p2 = p1 + s2;
    let p3 = p2 + s3;
    let p4 = p3 + s4;
    let p5 = p4 + s5;
    let p6 = p5 + s6;
    let p7 = p6 + s7;
    let p8 = p7 + s8;
    let p9 = p8 + s9;
    let plan = p9 + s10;
    assert(all_on_mint(plan, tp, mint)) by {
        broadcast use lemma_on_mint_add;

        assert(metas_of(seq![mint]) =~= seq![mint.spec_meta()]);
        assert(infos_of(seq![mint]) =~= seq![mint.spec_info()]);
        assert(all_on_mint(s1, tp, mint));
        assert(all_on_mint(s2, tp, mint));
        assert(all_on_mint(s3, tp, mint));
        assert(all_on_mint(s4, tp, mint));
        assert(all_on_mint(s5, tp, mint));
        assert(all_on_mint(s6, tp, mint));
        assert(all_on_mint(s7, tp, mint));
        assert(all_on_mint(s8, tp, mint));
        assert(all_on_mint(s9, tp, mint));
        assert(all_on_mint(s10, tp, mint));
        assert(all_on_mint(p2, tp, mint));
        assert(all_on_mint(p3, tp, mint));
        assert(all_on_mint(p4, tp, mint));
        assert(all_on_mint(p5, tp, mint));
        assert(all_on_mint(p6, tp, mint));
        assert(all_on_mint(p7, tp, mint));
        assert(all_on_mint(p8, tp, mint));
        assert(all_on_mint(p9, tp, mint));
    }

}

/// An unsigned invocation of `tp` on `mint` alone.
pub open spec fn on_mint(inv: InvocationView, tp: Pubkey, mint: &NoStdAccountInfo) -> bool {
    &&& inv.program_id == tp@
    &&& inv.accounts == seq![mint.spec_meta()]
    &&& inv.infos == seq![mint.spec_info()]
    &&& inv.signers_seeds.len() == 0
}

/// Every invocation of `plan` is an unsigned invocation of `tp` on `mint` alone.
pub open spec fn all_on_mint(plan: Seq<InvocationView>, tp: Pubkey, mint: &NoStdAccountInfo) -> bool {
    forall|i: int| 0 <= i < plan.len() ==> #[trigger] on_mint(plan[i], tp, mint)
}

/// Appending keeps every invocation on the mint.
pub broadcast proof fn lemma_on_mint_add(
    a: Seq<InvocationView>,
    b: Seq<InvocationView>,
    tp: Pubkey,
    mint: &NoStdAccountInfo,
)
    requires
        all_on_mint(a, tp, mint),
        all_on_mint(b, tp, mint),
    ensures
        #[trigger] all_on_mint(a + b, tp, mint),
{
    assert forall|i: int| 0 <= i < (a + b).len() implies #[trigger] on_mint((a + b)[i], tp, mint) by {
        if i < a.len() {
            assert((a + b)[i] == a[i]);
            assert(on_mint(a[i], tp, mint));
        } else {
            assert((a + b)[i] == b[i - a.len()]);
            assert(on_mint(b[i - a.len()], tp, mint));
        }
    }
}

/// Appending keeps what a plan carries.
pub broadcast proof fn lemma_carries_extend(a: Seq<InvocationView>, b: Seq<InvocationView>, data: Seq<u8>)
    requires
        carries(a, data),
    ensures
        #[trigger] carries(a + b, data),
{
    let i = choose|i: int| 0 <= i < a.len() && #[trigger] a[i].data == data;
    assert((a + b)[i] == a[i]);
}

/// The first appended invocation is carried.
pub proof fn lemma_carries_appended(a: Seq<InvocationView>, b: Seq<InvocationView>)
    requires
        b.len() > 0,
    ensures
        carries(a + b, b[0].data),
        (a + b)[a.len() as int] == b[0],
{
    assert((a + b)[a.len() as int] == b[0]);
}

/// The token program is acceptable for the mint: Token Extensions when extensions are
/// requested, either token program otherwise.
pub open spec fn mint_program_accepted(token_program_id: Pubkey, extensions: InitializeMintExtensions) -> bool {
    if extensions.spec_any() {
        token_program_id@ == token_2022_program_id_bytes()
    } else {
        token_program_id@ == token_2022_program_id_bytes() || token_program_id@
            == token_program_id_bytes()
    }
}

/// The error for an unacceptable token program: extensions unsupported when extensions are
/// requested, a token program expected otherwise.
pub open spec fn program_rejection(e: SealevelToolsError, extensions: InitializeMintExtensions) -> bool {
    if extensions.spec_any() {
        e matches SealevelToolsError::Cpi(msgs) && msgs@.len() == 1 && msgs@[0]@
            == "Extensions only supported with SPL Token Extensions program"@
    } else {
        e matches SealevelToolsError::Cpi(msgs) && msgs@.len() == 1 && msgs@[0]@
            == "Expected legacy SPL Token or Token Extensions program as ID"@
    }
}

/// Adds `len` to `total` when `present`.
fn add_if(total: usize, present: bool, len: usize) -> (r: usize)
    requires
        total + len <= usize::MAX,
    ensures
        r == total + if_present(present, len as nat),
{
    if present {
        total + len
    } else {
        total
    }
}

impl<'a, 'b: 'a> CreateMint<'a, 'b> {
    /// The size of the mint account, or the error for a token program that cannot hold the
    /// requested extensions.
    #[verifier::rlimit(40)]
    pub fn try_account_space(&self) -> (r: Result<u64, SealevelToolsError<'static>>)
        ensures
            mint_program_accepted(*self.token_program_id, self.extensions) ==> r == Ok::<
                u64,
                SealevelToolsError<'static>,
            >(mint_space(self.extensions) as u64),
            !mint_program_accepted(*self.token_program_id, self.extensions) ==> r is Err
                && program_rejection(r->Err_0, self.extensions),
    {
        let e = &self.extensions;
        let any = e.close_authority.is_some() || e.group_pointer.is_some()
            || e.group_member_pointer.is_some() || e.metadata_pointer.is_some()
            || e.non_transferable || e.permanent_delegate.is_some()
            || e.transfer_fee_config.is_some() || e.transfer_hook.is_some()
            || e.confidential_transfer.is_some() || e.confidential_transfer_fee_config.is_some();
        if any {
            if !(*self.token_program_id == token_2022_program_id()) {
                return Err(error_extensions_unsupported());
            }
            let mut total_space: usize = token_account_len() + 1;
            total_space = add_if(total_space, e.close_authority.is_some(), 36);
            total_space = add_if(total_space, e.group_pointer.is_some(), 68);
            total_space = add_if(total_space, e.group_member_pointer.is_some(), 68);
            total_space = add_if(total_space, e.metadata_pointer.is_some(), 68);
            total_space = add_if(total_space, e.non_transferable, 4);
            total_space = add_if(total_space, e.permanent_delegate.is_some(), 36);
            total_space = add_if(total_space, e.transfer_fee_config.is_some(), 112);
            total_space = add_if(total_space, e.transfer_hook.is_some(), 68);
            total_space = add_if(total_space, e.confidential_transfer.is_some(), 69);
            total_space = add_if(total_space, e.confidential_transfer_fee_config.is_some(), 133);
            Ok(total_space as u64)
        } else {
            if !is_any_token_program_id(self.token_program_id) {
                return Err(error_expected_token_program());
            }
            Ok(mint_len() as u64)
        }
    }
}

/// Appends an invocation to a plan, keeping track of the contents.
pub fn push_invocation<'a, 'b>(
    invocations: &mut Vec<Invocation<'a, 'b>>,
    inv: Invocation<'a, 'b>,
)
    ensures
        invocation_views(final(invocations)@) == invocation_views(old(invocations)@).push(inv@),
{
    let ghost before = invocations@;
    invocations.push(inv);
    assert(invocation_views(invocations@) =~= invocation_views(before).push(inv@));
}

fn push_close_authority<'a, 'b>(
    invocations: &mut Vec<Invocation<'a, 'b>>,
    token_program_id: &Pubkey,
    mint: &NoStdAccountInfo,
    data: Option<&Pubkey>,
)
    ensures
        invocation_views(final(invocations)@) == invocation_views(old(invocations)@)
            + close_authority_segment(*token_program_id, mint, data),
{
    let ghost start = invocation_views(invocations@);
    if let Some(close_authority) = data {
        push_invocation(invocations, InitializeMintCloseAuthority { token_program_id, mint, authority: Some(close_authority) }.into_invoke());
    }
    assert(invocation_views(invocations@) =~= start + close_authority_segment(*token_program_id, mint, data));
}

fn push_group_pointer<'a, 'b>(
    invocations: &mut Vec<Invocation<'a, 'b>>,
    token_program_id: &Pubkey,
    mint: &NoStdAccountInfo,
    data: Option<InitializeGroupPointerData>,
)
    ensures
        invocation_views(final(invocations)@) == invocation_views(old(invocations)@)
            + group_pointer_segment(*token_program_id, mint, data),
{
    let ghost start = invocation_views(invocations@);
    if let Some(InitializeGroupPointerData { authority, group }) = data {
        push_invocation(invocations, InitializeGroupPointer { token_program_id, mint, authority, group: Some(group) }.into_invoke());
    }
    assert(invocation_views(invocations@) =~= start + group_pointer_segment(*token_program_id, mint, data));
}

fn push_group_member_pointer<'a, 'b>(
    invocations: &mut Vec<Invocation<'a, 'b>>,
    token_program_id: &Pubkey,
    mint: &NoStdAccountInfo,
    data: Option<InitializeGroupMemberPointerData>,
)
    ensures
        invocation_views(final(invocations)@) == invocation_views(old(invocations)@)
            + group_member_pointer_segment(*token_program_id, mint, data),
{
    let ghost start = invocation_views(invocations@);
    if let Some(InitializeGroupMemberPointerData { authority, group_member }) = data {
        push_invocation(invocations, InitializeGroupMemberPointer { token_program_id, mint, authority, group_member: Some(group_member) }.into_invoke());
    }
    assert(invocation_views(invocations@) =~= start + group_member_pointer_segment(*token_program_id, mint, data));
}

fn push_metadata_pointer<'a, 'b>(
    invocations: &mut Vec<Invocation<'a, 'b>>,
    token_program_id: &Pubkey,
    mint: &NoStdAccountInfo,
    data: Option<InitializeMetadataPointerData>,
)
    ensures
        invocation_views(final(invocations)@) == invocation_views(old(invocations)@)
            + metadata_pointer_segment(*token_program_id, mint, data),
{
    let ghost start = invocation_views(invocations@);
    if let Some(InitializeMetadataPointerData { authority, metadata }) = data {
        push_invocation(invocations, InitializeMetadataPointer { token_program_id, mint, authority, metadata: Some(metadata) }.into_invoke());
    }
    assert(invocation_views(invocations@) =~= start + metadata_pointer_segment(*token_program_id, mint, data));
}

fn push_permanent_delegate<'a, 'b>(
    invocations: &mut Vec<Invocation<'a, 'b>>,
    token_program_id: &Pubkey,
    mint: &NoStdAccountInfo,
    data: Option<&Pubkey>,
)
    ensures
        invocation_views(final(invocations)@) == invocation_views(old(invocations)@)
            + permanent_delegate_segment(*token_program_id, mint, data),
{
    let ghost start = invocation_views(invocations@);
    if let Some(delegate) = data {
        push_invocation(invocations, InitializePermanentDelegate { token_program_id, mint, delegate }.into_invoke());
    }
    assert(invocation_views(invocations@) =~= start + permanent_delegate_segment(*token_program_id, mint, data));
}

fn push_transfer_fee_config<'a, 'b>(
    invocations: &mut Vec<Invocation<'a, 'b>>,
    token_program_id: &Pubkey,
    mint: &NoStdAccountInfo,
    data: Option<InitializeTransferFeeConfigData>,
)
    ensures
        invocation_views(final(invocations)@) == invocation_views(old(invocations)@)
            + transfer_fee_config_segment(*token_program_id, mint, data),
{
    let ghost start = invocation_views(invocations@);
    if let Some(InitializeTransferFeeConfigData { config_authority, withdraw_withheld_authority, basis_points, maximum_fee }) = data {
        push_invocation(invocations, InitializeTransferFeeConfig { token_program_id, mint, config_authority, withdraw_withheld_authority, basis_points, maximum_fee }.into_invoke());
    }
    assert(invocation_views(invocations@) =~= start + transfer_fee_config_segment(*token_program_id, mint, data));
}

fn push_transfer_hook<'a, 'b>(
    invocations: &mut Vec<Invocation<'a, 'b>>,
    token_program_id: &Pubkey,
    mint: &NoStdAccountInfo,
    data: Option<InitializeTransferHookData>,
)
    ensures
        invocation_views(final(invocations)@) == invocation_views(old(invocations)@)
            + transfer_hook_segment(*token_program_id, mint, data),
{
    let ghost start = invocation_views(invocations@);
    if let Some(InitializeTransferHookData { authority, program_id }) = data {
        push_invocation(invocations, InitializeTransferHook { token_program_id, mint, authority, program_id: Some(program_id) }.into_invoke());
    }
    assert(invocation_views(invocations@) =~= start + transfer_hook_segment(*token_program_id, mint, data));
}

fn push_confidential_transfer<'a, 'b>(
    invocations: &mut Vec<Invocation<'a, 'b>>,
    token_program_id: &Pubkey,
    mint: &NoStdAccountInfo,
    data: Option<InitializeConfidentialTransferData>,
)
    ensures
        invocation_views(final(invocations)@) == invocation_views(old(invocations)@)
            + confidential_transfer_segment(*token_program_id, mint, data),
{
    let ghost start = invocation_views(invocations@);
    if let Some(InitializeConfidentialTransferData { authority, auto_approve_new_accounts, auditor_elgamal }) = data {
        push_invocation(invocations, InitializeConfidentialTransfer { token_program_id, mint, authority, auto_approve_new_accounts, auditor_elgamal }.into_invoke());
    }
    assert(invocation_views(invocations@) =~= start + confidential_transfer_segment(*token_program_id, mint, data));
}

fn push_confidential_transfer_fee_config<'a, 'b>(
    invocations: &mut Vec<Invocation<'a, 'b>>,
    token_program_id: &Pubkey,
    mint: &NoStdAccountInfo,
    data: Option<InitializeConfidentialTransferFeeConfigData>,
)
    ensures
        invocation_views(final(invocations)@) == invocation_views(old(invocations)@)
            + confidential_transfer_fee_config_segment(*token_program_id, mint, data),
{
    let ghost start = invocation_views(invocations@);
    if let Some(InitializeConfidentialTransferFeeConfigData { authority, withdraw_withheld_authority_elgamal }) = data {
        push_invocation(invocations, InitializeConfidentialTransferFeeConfig { token_program_id, mint, authority, withdraw_withheld_authority_elgamal }.into_invoke());
    }
    assert(invocation_views(invocations@) =~= start + confidential_transfer_fee_config_segment(*token_program_id, mint, data));
}

fn push_non_transferable<'a, 'b>(
    invocations: &mut Vec<Invocation<'a, 'b>>,
    token_program_id: &Pubkey,
    mint: &NoStdAccountInfo,
    data: bool,
)
    ensures
        invocation_views(final(invocations)@) == invocation_views(old(invocations)@)
            + non_transferable_segment(*token_program_id, mint, data),
{
    let ghost start = invocation_views(invocations@);
    if data {
        push_invocation(invocations, InitializeNonTransferable { token_program_id, mint }.into_invoke());
    }
    assert(invocation_views(invocations@) =~= start + non_transferable_segment(*token_program_id, mint, data));
}

/// Appends the invocations that initialize the requested extensions of `mint`.
fn push_mint_extensions<'a, 'b>(
    invocations: &mut Vec<Invocation<'a, 'b>>,
    token_program_id: &Pubkey,
    mint: &NoStdAccountInfo,
    extensions: InitializeMintExtensions,
)
    ensures
        invocation_views(final(invocations)@) == invocation_views(old(invocations)@)
            + mint_extension_plan(*token_program_id, mint, extensions),
{
    let ghost start = invocation_views(invocations@);
    let ghost tp = *token_program_id;
    let InitializeMintExtensions {
        close_authority,
        group_pointer,
        group_member_pointer,
        metadata_pointer,
        non_transferable,
        permanent_delegate,
        transfer_fee_config,
        transfer_hook,
        confidential_transfer,
        confidential_transfer_fee_config,
    } = extensions;
    push_close_authority(invocations, token_program_id, mint, close_authority);
    push_group_pointer(invocations, token_program_id, mint, group_pointer);
    push_group_member_pointer(invocations, token_program_id, mint, group_member_pointer);
    push_metadata_pointer(invocations, token_program_id, mint, metadata_pointer);
    push_non_transferable(invocations, token_program_id, mint, non_transferable);
    push_permanent_delegate(invocations, token_program_id, mint, permanent_delegate);
    push_transfer_fee_config(invocations, token_program_id, mint, transfer_fee_config);
    push_transfer_hook(invocations, token_program_id, mint, transfer_hook);
    push_confidential_transfer(invocations, token_program_id, mint, confidential_transfer);
    push_confidential_transfer_fee_config(
        invocations,
        token_program_id,
        mint,
        confidential_transfer_fee_config,
    );
    assert(invocation_views(invocations@) =~= start + mint_extension_plan(tp, mint, extensions));
}

impl<'a, 'b: 'a> CreateMint<'a, 'b> {
    /// The invocations that create the mint: the account is created (failsafe) with the mint's
    /// space for the token program, then each requested extension is initialized, then the mint.
    pub open spec fn spec_plan(self, rent_required: u64) -> Seq<InvocationView> {
        failsafe_create_plan(
            self.payer,
            self.mint,
            mint_space(self.extensions) as u64,
            *self.token_program_id,
            rent_required,
        ) + mint_extension_plan(*self.token_program_id, self.mint.account, self.extensions)
            + seq![
            single_account_invocation(
                *self.token_program_id,
                self.mint.account,
                initialize_mint2_data(self.decimals, *self.mint_authority, self.freeze_authority),
            ),
        ]
    }

    /// The invocations that create the mint: the mint account is created (or, if it already
    /// holds lamports, topped up, allocated and assigned) for the token program with
    /// `rent_required` lamports, which must be the rent-exempt minimum for
    /// [CreateMint::try_account_space]; then each requested extension is initialized; then the
    /// mint itself. Fails when the token program cannot hold the requested extensions, or when
    /// the mint account's lamports cannot be read.
    pub fn try_into_invoke(self, rent_required: u64) -> (r: Result<
        Vec<Invocation<'a, 'b>>,
        SealevelToolsError<'static>,
    >)
        ensures
            !mint_program_accepted(*self.token_program_id, self.extensions) ==> r is Err
                && program_rejection(r->Err_0, self.extensions),
            mint_program_accepted(*self.token_program_id, self.extensions) && !lamports_borrowable(
                self.mint.account.borrow_state,
            ) ==> r is Err && r->Err_0 == SealevelToolsError::PassThrough(
                ProgramError::AccountBorrowFailed,
            ),
            mint_program_accepted(*self.token_program_id, self.extensions) && lamports_borrowable(
                self.mint.account.borrow_state,
            ) ==> r is Ok && invocation_views(r->Ok_0@) == self.spec_plan(rent_required),
    {
        let space = self.try_account_space()?;
        let Self {
            token_program_id,
            payer,
            mint,
            mint_authority,
            decimals,
            freeze_authority,
            extensions,
        } = self;
        let mut invocations = match try_failsafe_create_account(
            FailsafeCreateAccount { payer, to: mint, space, program_id: token_program_id },
            rent_required,
        ) {
            Ok(v) => v,
            Err(e) => {
                return Err(SealevelToolsError::PassThrough(e));
            },
        };
        push_mint_extensions(&mut invocations, token_program_id, mint.account, extensions);
        push_invocation(
            &mut invocations,
            invoke_initialize_mint2(
                token_program_id,
                mint.account,
                mint_authority,
                freeze_authority,
                decimals,
            ),
        );
        Ok(invocations)
    }
}

/// Creating a mint whose account holds no lamports takes one System `CreateAccount` of the
/// mint's space for the token program with the given rent, signed by the payer and the mint;
/// then one invocation per requested extension, each on the mint alone and each carrying a
/// requested extension's initialize data; then `InitializeMint2` on the mint with the decimals
/// and the mint authority, last.
#[verifier::rlimit(60)]
pub proof fn lemma_create_mint_plan<'a, 'b>(args: CreateMint<'a, 'b>, rent_required: u64)
    requires
        args.mint.account.lamports == 0,
    ensures
        args.spec_plan(rent_required).len() == requested_extension_count(args.extensions) + 2,
        args.spec_plan(rent_required)[0].program_id == system_program_id_bytes(),
        args.spec_plan(rent_required)[0].data == create_account_data(
            rent_required,
            mint_space(args.extensions) as u64,
            *args.token_program_id,
        ),
        args.spec_plan(rent_required)[0].accounts == seq![
            args.payer.account.spec_meta_signer(),
            args.mint.account.spec_meta_signer(),
        ],
        forall|i: int|
            1 <= i <= requested_extension_count(args.extensions) ==> #[trigger] on_mint(
                args.spec_plan(rent_required)[i],
                *args.token_program_id,
                args.mint.account,
            ),
        args.spec_plan(rent_required).subrange(
            1,
            requested_extension_count(args.extensions) + 1 as int,
        ) == mint_extension_plan(*args.token_program_id, args.mint.account, args.extensions),
        on_mint(
            args.spec_plan(rent_required).last(),
            *args.token_program_id,
            args.mint.account,
        ),
        args.spec_plan(rent_required).last().data.len() == 67,
        args.spec_plan(rent_required).last().data[0] == 20u8,
        args.spec_plan(rent_required).last().data[1] == args.decimals,
        args.spec_plan(rent_required).last().data.subrange(2, 34) == args.mint_authority@,
{
    let tp = *args.token_program_id;
    let ext = mint_extension_plan(tp, args.mint.account, args.extensions);
    let created = failsafe_create_plan(
        args.payer,
        args.mint,
        mint_space(args.extensions) as u64,
        tp,
        rent_required,
    );
    let last = single_account_invocation(
        tp,
        args.mint.account,
        initialize_mint2_data(args.decimals, *args.mint_authority, args.freeze_authority),
    );
    let plan = args.spec_plan(rent_required);
    lemma_mint_extension_plan_initializes_requested(tp, args.mint.account, args.extensions);
    assert(created.len() == 1);
    assert(plan == created + ext + seq![last]);
    assert(plan.subrange(1, ext.len() + 1 as int) =~= ext);
    assert forall|i: int| 1 <= i <= ext.len() implies #[trigger] on_mint(plan[i], tp, args.mint.account) by {
        assert(plan[i] == ext[i - 1]);
        assert(on_mint(ext[i - 1], tp, args.mint.account));
    }
    assert(metas_of(seq![args.mint.account]) =~= seq![args.mint.account.spec_meta()]);
    assert(infos_of(seq![args.mint.account]) =~= seq![args.mint.account.spec_info()]);
    assert(plan.last() == last);
    assert(last.data.subrange(2, 34) =~= args.mint_authority@);
}

/// `InitializeMint2` data, 67 bytes: selector 20, the decimals, the mint authority, then `1` and
/// the freeze authority or `0` and 32 zeros.
pub proof fn lemma_initialize_mint2_data(
    decimals: u8,
    mint_authority: Pubkey,
    freeze_authority: Option<&Pubkey>,
)
    ensures
        ({
            let d = initialize_mint2_data(decimals, mint_authority, freeze_authority);
            &&& d.len() == 67
            &&& d[0] == 20u8
            &&& d[1] == decimals
            &&& d.subrange(2, 34) == mint_authority@
            &&& d[34] == (if freeze_authority is Some { 1u8 } else { 0u8 })
            &&& d.subrange(35, 67) == key_or_zeros(freeze_authority)
        }),
{
    let d = initialize_mint2_data(decimals, mint_authority, freeze_authority);
    assert(d.subrange(2, 34) =~= mint_authority@);
    assert(d.subrange(35, 67) =~= key_or_zeros(freeze_authority));
}

/// The mint's space: the 82-byte base mint exactly when no extension is requested; otherwise the
/// 165-byte base account, the account-type byte, and for each requested extension its 4-byte
/// type and length plus its value (32 bytes per address and ElGamal key, 8 per amount or epoch,
/// 2 per basis points, 1 per flag, 64 for an encrypted amount), so requesting an extension never
/// shrinks the account.
pub proof fn lemma_mint_space_sizes(extensions: InitializeMintExtensions)
    ensures
        requested_extension_count(extensions) == 0 <==> mint_space(extensions) == 82,
        requested_extension_count(extensions) > 0 ==> mint_space(extensions) == 166
            + (if extensions.close_authority is Some { 4 + 32 } else { 0nat })
            + (if extensions.group_pointer is Some { 4 + 32 + 32 } else { 0nat })
            + (if extensions.group_member_pointer is Some { 4 + 32 + 32 } else { 0nat })
            + (if extensions.metadata_pointer is Some { 4 + 32 + 32 } else { 0nat })
            + (if extensions.non_transferable { 4nat } else { 0nat })
            + (if extensions.permanent_delegate is Some { 4 + 32 } else { 0nat })
            + (if extensions.transfer_fee_config is Some {
                4 + 32 + 32 + 8 + (8 + 8 + 2) + (8 + 8 + 2)
            } else {
                0nat
            })
            + (if extensions.transfer_hook is Some { 4 + 32 + 32 } else { 0nat })
            + (if extensions.confidential_transfer is Some { 4 + 32 + 1 + 32 } else { 0nat })
            + (if extensions.confidential_transfer_fee_config is Some {
                4 + 32 + 32 + 1 + 64
            } else {
                0nat
            }),
        requested_extension_count(extensions) > 0 ==> mint_space(extensions) >= 166 + 4
            * requested_extension_count(extensions),
{
}

} // verus!
