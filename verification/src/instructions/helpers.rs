//! Checks of program-owned accounts and associated token accounts.
use vstd::prelude::*;

use crate::account::{same_address, AccountRecord};
use crate::config::Config;
use crate::error::FaucetError;
use crate::ids::{associated_token_program_address, associated_token_program_id, program_address, program_id};
use crate::instructions::account_checkers::TokenAccount;
use crate::ids::token_program_address;
use crate::pda::{address_to_vec, find_program_address, program_derived_address};

verus! {

/// An account type stored by this program, with the size of its data.
pub trait AccountData {
    /// The size of the account's data in bytes.
    const LEN: usize;
}

impl AccountData for Config {
    const LEN: usize = 139;
}

/// The seeds of the associated token account of `wallet` for `mint`: the
/// wallet, the token program and the mint.
pub open spec fn ata_seeds(wallet: Seq<u8>, token_program: Seq<u8>, mint: Seq<u8>) -> Seq<Seq<u8>> {
    seq![wallet, token_program, mint]
}

/// The outcome of [`AssociatedTokenAccount::check`].
pub open spec fn ata_check_result(
    account: AccountRecord,
    authority: AccountRecord,
    mint: AccountRecord,
    token_program: AccountRecord,
) -> Result<(), FaucetError> {
    let data = account.data@;
    if data.len() != 165 {
        Err(FaucetError::InvalidAccountData)
    } else if account.owner@ != token_program_address() {
        Err(FaucetError::IncorrectProgramId)
    } else if data.subrange(32, 64) != authority.address@ {
        Err(FaucetError::InvalidAccountOwner)
    } else if data.subrange(0, 32) != mint.address@ {
        Err(FaucetError::InvalidAccountData)
    } else {
        match program_derived_address(
            ata_seeds(authority.address@, token_program.address@, mint.address@),
            associated_token_program_address(),
        ) {
            Some((expected, _)) => if expected == account.address@ {
                Ok(())
            } else {
                Err(FaucetError::InvalidSeeds)
            },
            None => Err(FaucetError::InvalidSeeds),
        }
    }
}

/// What an accepted associated token account is: a token account of the
/// token program (165 bytes) whose owner field (bytes 32 to 63) is the
/// authority's address and whose mint field (bytes 0 to 31) is the mint's
/// address, standing at the program address that the associated token
/// account program derives from the authority, the token program and the
/// mint, in that order.
pub proof fn lemma_ata_check_accepts(
    account: AccountRecord,
    authority: AccountRecord,
    mint: AccountRecord,
    token_program: AccountRecord,
)
    ensures
        ata_check_result(account, authority, mint, token_program) is Ok <==> {
            &&& account.data@.len() == 165
            &&& account.owner@ == token_program_address()
            &&& account.data@.subrange(32, 64) == authority.address@
            &&& account.data@.subrange(0, 32) == mint.address@
            &&& program_derived_address(
                seq![authority.address@, token_program.address@, mint.address@],
                associated_token_program_address(),
            ) matches Some((expected, _)) && expected == account.address@
        },
{
}

/// Associated token accounts.
pub struct AssociatedTokenAccount;

impl AssociatedTokenAccount {
    /// Checks that `account` is a token account (as [`TokenAccount::load`]
    /// reads it) owned by `authority` (else `InvalidAccountOwner`), holding
    /// tokens of `mint` (else `InvalidAccountData`), at the canonical
    /// associated token account address of `authority` and `mint` (else
    /// `InvalidSeeds`, which is also the outcome should no bump seed give an
    /// address).
    pub fn check(
        account: &AccountRecord,
        authority: &AccountRecord,
        mint: &AccountRecord,
        token_program: &AccountRecord,
    ) -> (result: Result<(), FaucetError>)
        ensures
            result == ata_check_result(*account, *authority, *mint, *token_program),
    {
        let token = TokenAccount::load(account)?;
        TokenAccount::check_owner(token, &authority.address)?;
        TokenAccount::check_mint(token, &mint.address)?;
        let wallet_seed = address_to_vec(&authority.address);
        let program_seed = address_to_vec(&token_program.address);
        let mint_seed = address_to_vec(&mint.address);
        let seeds = vec![wallet_seed, program_seed, mint_seed];
        assert(seeds.deep_view() =~= ata_seeds(authority.address@, token_program.address@, mint.address@)) by {
            assert(seeds.deep_view()[0] =~= authority.address@);
            assert(seeds.deep_view()[1] =~= token_program.address@);
            assert(seeds.deep_view()[2] =~= mint.address@);
        }
        let ata_program = associated_token_program_id();
        match find_program_address(&seeds, &ata_program) {
            Some((expected, _)) => {
                if !same_address(&expected, &account.address) {
                    return Err(FaucetError::InvalidSeeds);
                }
                Ok(())
            },
            None => Err(FaucetError::InvalidSeeds),
        }
    }

    /// Whether the associated token account still has to be created: exactly
    /// when [`AssociatedTokenAccount::check`] fails for it with `payer` as the
    /// authority.
    pub fn needs_init(
        account: &AccountRecord,
        payer: &AccountRecord,
        mint: &AccountRecord,
        token_program: &AccountRecord,
    ) -> (needed: bool)
        ensures
            needed == (ata_check_result(*account, *payer, *mint, *token_program) is Err),
    {
        Self::check(account, payer, mint, token_program).is_err()
    }
}

/// Accounts owned by this program.
pub struct ProgramAccount;

impl AccountData for ProgramAccount {
    const LEN: usize = 0;
}

/// The outcome of [`ProgramAccount::check`] for an account type of size `len`.
pub open spec fn program_account_check_result(account: AccountRecord, len: nat) -> Result<(), FaucetError> {
    if account.owner@ != program_address() {
        Err(FaucetError::IllegalOwner)
    } else if account.data@.len() != len {
        Err(FaucetError::InvalidAccountData)
    } else {
        Ok(())
    }
}

impl ProgramAccount {
    /// The size of a `ProgramAccount`'s data: it has none.
    pub const LEN: usize = 0;

    /// Checks that the account is owned by this program (else `IllegalOwner`)
    /// and that its data has the size of `T` (else `InvalidAccountData`).
    pub fn check<T: AccountData>(account: &AccountRecord) -> (result: Result<(), FaucetError>)
        ensures
            result == program_account_check_result(*account, T::LEN as nat),
    {
        let id = program_id();
        if !account.owned_by(&id) {
            return Err(FaucetError::IllegalOwner);
        }
        if account.data_len() != T::LEN {
            return Err(FaucetError::InvalidAccountData);
        }
        Ok(())
    }

    /// Closes `account` in favour of `destination`: its data becomes the
    /// one-byte tombstone `0xff` before the account is closed, its lamports
    /// move to `destination`, and closing clears its data length, lamports
    /// and owner.
    pub fn close(account: &mut AccountRecord, destination: &mut AccountRecord) -> (result: Result<(), FaucetError>)
        requires
            old(destination).lamports + old(account).lamports <= u64::MAX,
        ensures
            result is Ok,
            final(destination).lamports == old(destination).lamports + old(account).lamports,
            final(destination).address == old(destination).address,
            final(destination).owner == old(destination).owner,
            final(destination).data == old(destination).data,
            final(destination).is_signer == old(destination).is_signer,
            final(destination).is_writable == old(destination).is_writable,
            final(account).lamports == 0,
            final(account).data@.len() == 0,
            final(account).owner@ == Seq::new(32, |i: int| 0u8),
            final(account).address == old(account).address,
            final(account).is_signer == old(account).is_signer,
            final(account).is_writable == old(account).is_writable,
    {
        account.data = vec![0xffu8];
        let new_balance = destination.lamports + account.lamports;
        destination.lamports = new_balance;
        account.lamports = 0;
        account.data = Vec::new();
        account.owner = [0u8; 32];
        assert(account.owner@ =~= Seq::new(32, |i: int| 0u8));
        Ok(())
    }
}

} // verus!
