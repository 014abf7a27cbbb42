//! Invocations of an Associated Token Account program, which creates token accounts at addresses
//! derived from their owner and mint. Any program with the same interface can be invoked by
//! passing its address.

use vstd::prelude::*;

use crate::cpi::{
    infos_of, invocation, metas_of, present_seeds, CpiAuthority, CpiInstruction, Invocation,
    InvocationView,
};
use crate::entrypoint::NoStdAccountInfo;
use crate::pubkey::Pubkey;

use crate::cpi::system_program::{lemma_present_seeds_of_one, signer_if_seeded};

verus! {

/// The canonical Associated Token Account program's address,
/// "ATokenGPvbdGVxr1b2hvZbsiqW5xWH25efTNsLJA8knL" in base 58.
pub open spec fn ata_program_id_bytes() -> Seq<u8> {
    seq![
        140u8, 151, 37, 143, 78, 36, 137, 241, 187, 61, 16, 41, 20, 142, 13, 131, 11, 90, 19, 153,
        218, 255, 16, 132, 4, 142, 123, 216, 219, 233, 248, 89,
    ]
}

/// The canonical Associated Token Account program's address.
pub fn id() -> (r: Pubkey)
    ensures
        r@ == ata_program_id_bytes(),
{
    let r = Pubkey(
        [
            140u8, 151, 37, 143, 78, 36, 137, 241, 187, 61, 16, 41, 20, 142, 13, 131, 11, 90, 19,
            153, 218, 255, 16, 132, 4, 142, 123, 216, 219, 233, 248, 89,
        ],
    );
    assert(r@ =~= ata_program_id_bytes());
    r
}

/// Arguments of the Associated Token Account program's create instruction, which creates a
/// token account at the address derived from its owner and mint.
pub struct Create<'a, 'b: 'a> {
    pub associated_token_account_program_id: &'a Pubkey,
    pub payer: CpiAuthority<'a, 'b>,
    pub associated_account: &'b NoStdAccountInfo,
    pub account_owner: &'b NoStdAccountInfo,
    pub mint: &'b NoStdAccountInfo,
    pub system_program: &'b NoStdAccountInfo,
    pub token_program: &'b NoStdAccountInfo,
    /// Whether to succeed when the account already exists.
    pub idempotent: bool,
}

impl<'a, 'b: 'a> Create<'a, 'b> {
    /// The instruction data: empty for `Create`, the selector 1 for `CreateIdempotent`.
    pub open spec fn spec_data(self) -> Seq<u8> {
        if self.idempotent {
            seq![1u8]
        } else {
            Seq::empty()
        }
    }

    /// The invocation: the payer signs, followed by the new account, its owner, the mint, the
    /// System program and the token program.
    pub open spec fn spec_invocation(self) -> InvocationView {
        let accounts = seq![
            self.associated_account,
            self.account_owner,
            self.mint,
            self.system_program,
            self.token_program,
        ];
        invocation(
            self.associated_token_account_program_id@,
            seq![self.payer.account.spec_meta_signer()] + metas_of(accounts),
            self.spec_data(),
            seq![self.payer.account.spec_info()] + infos_of(accounts),
            present_seeds(seq![self.payer.signer_seeds]),
        )
    }

    /// The create invocation.
    pub fn into_invoke(self) -> (r: Invocation<'a, 'b>)
        ensures
            r@ == self.spec_invocation(),
    {
        if self.idempotent {
            let data = [1u8];
            assert(data@ =~= self.spec_data());
            self._into_invoke(&data)
        } else {
            let data: [u8; 0] = [];
            assert(data@ =~= self.spec_data());
            self._into_invoke(&data)
        }
    }

    fn _into_invoke(self, data: &[u8]) -> (r: Invocation<'a, 'b>)
        ensures
            r@ == invocation(
                self.associated_token_account_program_id@,
                self.spec_invocation().accounts,
                data@,
                self.spec_invocation().infos,
                self.spec_invocation().signers_seeds,
            ),
    {
        let Self {
            associated_token_account_program_id,
            payer,
            associated_account,
            account_owner,
            mint,
            system_program,
            token_program,
            idempotent: _,
        } = self;
        let accounts = [
            payer.account.to_meta_c_signer(),
            associated_account.to_meta_c(),
            account_owner.to_meta_c(),
            mint.to_meta_c(),
            system_program.to_meta_c(),
            token_program.to_meta_c(),
        ];
        let infos = [
            payer.account.to_info_c(),
            associated_account.to_info_c(),
            account_owner.to_info_c(),
            mint.to_info_c(),
            system_program.to_info_c(),
            token_program.to_info_c(),
        ];
        let possible = [payer.signer_seeds];
        let r = CpiInstruction { program_id: associated_token_account_program_id, accounts: &accounts, data }
            .invoke_possibly_signed(&infos, &possible);
        assert(accounts@ =~= self.spec_invocation().accounts);
        assert(infos@ =~= self.spec_invocation().infos);
        assert(possible@ =~= seq![payer.signer_seeds]);
        r
    }
}

/// The associated token account program reads its accounts in this order: the payer (signing,
/// with its seeds when it has some), the new associated account, the wallet that will own it,
/// the mint, the System program and the token program, each of the others with its own
/// privileges, infos in the same order; the data is empty for `Create` and `[1]` for
/// `CreateIdempotent`.
pub proof fn lemma_create_account_order<'a, 'b>(args: Create<'a, 'b>)
    ensures
        ({
            let inv = args.spec_invocation();
            &&& inv.program_id == args.associated_token_account_program_id@
            &&& inv.accounts == seq![
                args.payer.account.spec_meta_signer(),
                args.associated_account.spec_meta(),
                args.account_owner.spec_meta(),
                args.mint.spec_meta(),
                args.system_program.spec_meta(),
                args.token_program.spec_meta(),
            ]
            &&& inv.infos == seq![
                args.payer.account.spec_info(),
                args.associated_account.spec_info(),
                args.account_owner.spec_info(),
                args.mint.spec_info(),
                args.system_program.spec_info(),
                args.token_program.spec_info(),
            ]
            &&& inv.accounts[2].pubkey == args.account_owner.key
            &&& inv.accounts[3].pubkey == args.mint.key
            &&& inv.data == (if args.idempotent { seq![1u8] } else { Seq::<u8>::empty() })
            &&& inv.signers_seeds == signer_if_seeded(args.payer.signer_seeds)
        }),
{
    lemma_present_seeds_of_one(args.payer.signer_seeds);
    let inv = args.spec_invocation();
    assert(inv.accounts =~= seq![
        args.payer.account.spec_meta_signer(),
        args.associated_account.spec_meta(),
        args.account_owner.spec_meta(),
        args.mint.spec_meta(),
        args.system_program.spec_meta(),
        args.token_program.spec_meta(),
    ]);
    assert(inv.infos =~= seq![
        args.payer.account.spec_info(),
        args.associated_account.spec_info(),
        args.account_owner.spec_info(),
        args.mint.spec_info(),
        args.system_program.spec_info(),
        args.token_program.spec_info(),
    ]);
}

} // verus!
