//! Account checks, and the token program's mint and token account layouts.
use vstd::prelude::*;
use vstd::bytes::{spec_u64_from_le_bytes, u64_from_le_bytes};
use vstd::slice::slice_subrange;

use crate::account::{address_at, same_address, AccountRecord};
use crate::error::FaucetError;
use crate::ids::{
    mint_len, system_program_address, system_program_id, token_account_len, token_program_address,
    token_program_id,
};

verus! {

/// Fails with `MissingRequiredSignature` exactly when the account did not sign.
pub fn signer_check(account: &AccountRecord) -> (result: Result<(), FaucetError>)
    ensures
        result == (if account.is_signer {
            Ok::<(), FaucetError>(())
        } else {
            Err(FaucetError::MissingRequiredSignature)
        }),
{
    if !account.is_signer {
        return Err(FaucetError::MissingRequiredSignature);
    }
    Ok(())
}

/// Fails with `IncorrectProgramId` exactly when the account is not owned by
/// the system program.
pub fn system_account_check(account: &AccountRecord) -> (result: Result<(), FaucetError>)
    ensures
        result == (if account.owner@ == system_program_address() {
            Ok::<(), FaucetError>(())
        } else {
            Err(FaucetError::IncorrectProgramId)
        }),
{
    let system = system_program_id();
    if !account.owned_by(&system) {
        return Err(FaucetError::IncorrectProgramId);
    }
    Ok(())
}

/// The outcome of the mint account check: the owner is checked first, then the
/// size of the mint layout.
pub open spec fn mint_check_result(account: AccountRecord) -> Result<(), FaucetError> {
    if account.owner@ != token_program_address() {
        Err(FaucetError::IncorrectProgramId)
    } else if account.data@.len() != 82 {
        Err(FaucetError::InvalidAccountData)
    } else {
        Ok(())
    }
}

/// The outcome of the token account check: the owner is checked first, then
/// the size of the token account layout.
pub open spec fn token_check_result(account: AccountRecord) -> Result<(), FaucetError> {
    if account.owner@ != token_program_address() {
        Err(FaucetError::IncorrectProgramId)
    } else if account.data@.len() != 165 {
        Err(FaucetError::InvalidAccountData)
    } else {
        Ok(())
    }
}

/// The fields of a token mint that the faucet reads.
#[derive(Debug, Clone, Copy, PartialEq, Eq)]
pub struct MintState {
    /// The authority allowed to mint new tokens, if any.
    pub mint_authority: Option<[u8; 32]>,
    /// The total supply.
    pub supply: u64,
    /// The number of decimal digits of the token.
    pub decimals: u8,
    /// Whether the mint has been initialized.
    pub is_initialized: bool,
}

/// The fields of a token account that the faucet reads.
#[derive(Debug, Clone, Copy, PartialEq, Eq)]
pub struct TokenAccountState {
    /// The mint of the tokens held.
    pub mint: [u8; 32],
    /// The owner of the account.
    pub owner: [u8; 32],
    /// The number of tokens held.
    pub amount: u64,
}

/// Whether `state` holds the mint fields stored in the 82 bytes `data`: a
/// 4-byte flag and the mint authority, the supply (little-endian), the
/// decimals and the initialized flag.
pub open spec fn mint_state_matches(state: MintState, data: Seq<u8>) -> bool {
    &&& (data[0] == 1 ==> (state.mint_authority matches Some(a) && a@ == data.subrange(4, 36)))
    &&& (data[0] != 1 ==> state.mint_authority is None)
    &&& state.supply == spec_u64_from_le_bytes(data.subrange(36, 44))
    &&& state.decimals == data[44]
    &&& state.is_initialized == (data[45] == 1)
}

/// Whether `state` holds the token account fields stored in the 165 bytes
/// `data`: the mint, the owner and the amount (little-endian).
pub open spec fn token_state_matches(state: TokenAccountState, data: Seq<u8>) -> bool {
    &&& state.mint@ == data.subrange(0, 32)
    &&& state.owner@ == data.subrange(32, 64)
    &&& state.amount == spec_u64_from_le_bytes(data.subrange(64, 72))
}

/// The token program's mint accounts.
pub struct MintAccount;

impl MintAccount {
    /// Checks that the account is owned by the token program (else
    /// `IncorrectProgramId`) and has the size of a mint (else
    /// `InvalidAccountData`).
    pub fn check(account: &AccountRecord) -> (result: Result<(), FaucetError>)
        ensures
            result == mint_check_result(*account),
    {
        let token = token_program_id();
        if !account.owned_by(&token) {
            return Err(FaucetError::IncorrectProgramId);
        }
        if account.data_len() != mint_len() {
            return Err(FaucetError::InvalidAccountData);
        }
        Ok(())
    }

    /// Whether the mint still has to be created and initialized: exactly when
    /// [`MintAccount::check`] fails.
    pub fn needs_init(account: &AccountRecord) -> (needed: bool)
        ensures
            needed == (mint_check_result(*account) is Err),
    {
        Self::check(account).is_err()
    }

    /// Reads a mint account: fails with `InvalidAccountData` when the data
    /// does not have the size of a mint, then with `IncorrectProgramId` when
    /// the account is not owned by the token program.
    pub fn load(account: &AccountRecord) -> (result: Result<MintState, FaucetError>)
        ensures
            account.data@.len() != 82 ==> result == Err::<MintState, FaucetError>(
                FaucetError::InvalidAccountData,
            ),
            account.data@.len() == 82 && account.owner@ != token_program_address() ==> result
                == Err::<MintState, FaucetError>(FaucetError::IncorrectProgramId),
            account.data@.len() == 82 && account.owner@ == token_program_address() ==> (result matches Ok(
                state,
            ) && mint_state_matches(state, account.data@)),
    {
        if account.data_len() != mint_len() {
            return Err(FaucetError::InvalidAccountData);
        }
        let token = token_program_id();
        if !account.owned_by(&token) {
            return Err(FaucetError::IncorrectProgramId);
        }
        let data = account.data.as_slice();
        let mint_authority = if data[0] == 1 {
            Some(address_at(data, 4))
        } else {
            None
        };
        let supply = u64_from_le_bytes(slice_subrange(data, 36, 44));
        Ok(MintState { mint_authority, supply, decimals: data[44], is_initialized: data[45] == 1 })
    }

    /// Fails with `UninitializedAccount` exactly when the mint is not initialized.
    pub fn check_initialized(mint: MintState) -> (result: Result<(), FaucetError>)
        ensures
            result == (if mint.is_initialized {
                Ok::<(), FaucetError>(())
            } else {
                Err(FaucetError::UninitializedAccount)
            }),
    {
        if !mint.is_initialized {
            return Err(FaucetError::UninitializedAccount);
        }
        Ok(())
    }

    /// Fails with `IncorrectAuthority` exactly when `authority` is not the
    /// mint's authority.
    pub fn check_mint_authority(mint: MintState, authority: &[u8; 32]) -> (result: Result<(), FaucetError>)
        ensures
            result is Ok <==> (mint.mint_authority matches Some(a) && a@ == authority@),
            result is Err ==> result == Err::<(), FaucetError>(FaucetError::IncorrectAuthority),
    {
        match mint.mint_authority {
            Some(a) => {
                if same_address(&a, authority) {
                    Ok(())
                } else {
                    Err(FaucetError::IncorrectAuthority)
                }
            },
            None => Err(FaucetError::IncorrectAuthority),
        }
    }
}

/// The token program's token accounts.
pub struct TokenAccount;

impl TokenAccount {
    /// Checks that the account is owned by the token program (else
    /// `IncorrectProgramId`) and has the size of a token account (else
    /// `InvalidAccountData`).
    pub fn check(account: &AccountRecord) -> (result: Result<(), FaucetError>)
        ensures
            result == token_check_result(*account),
    {
        let token = token_program_id();
        if !account.owned_by(&token) {
            return Err(FaucetError::IncorrectProgramId);
        }
        if account.data_len() != token_account_len() {
            return Err(FaucetError::InvalidAccountData);
        }
        Ok(())
    }

    /// Whether the token account still has to be created and initialized:
    /// exactly when [`TokenAccount::check`] fails.
    pub fn needs_init(account: &AccountRecord) -> (needed: bool)
        ensures
            needed == (token_check_result(*account) is Err),
    {
        Self::check(account).is_err()
    }

    /// Reads a token account: fails with `InvalidAccountData` when the data
    /// does not have the size of a token account, then with
    /// `IncorrectProgramId` when the account is not owned by the token program.
    pub fn load(account: &AccountRecord) -> (result: Result<TokenAccountState, FaucetError>)
        ensures
            account.data@.len() != 165 ==> result == Err::<TokenAccountState, FaucetError>(
                FaucetError::InvalidAccountData,
            ),
            account.data@.len() == 165 && account.owner@ != token_program_address() ==> result
                == Err::<TokenAccountState, FaucetError>(FaucetError::IncorrectProgramId),
            account.data@.len() == 165 && account.owner@ == token_program_address() ==> (result matches Ok(
                state,
            ) && token_state_matches(state, account.data@)),
    {
        if account.data_len() != token_account_len() {
            return Err(FaucetError::InvalidAccountData);
        }
        let token = token_program_id();
        if !account.owned_by(&token) {
            return Err(FaucetError::IncorrectProgramId);
        }
        let data = account.data.as_slice();
        let amount = u64_from_le_bytes(slice_subrange(data, 64, 72));
        Ok(TokenAccountState { mint: address_at(data, 0), owner: address_at(data, 32), amount })
    }

    /// Fails with `InvalidAccountOwner` exactly when `owner` does not own the
    /// token account.
    pub fn check_owner(token: TokenAccountState, owner: &[u8; 32]) -> (result: Result<(), FaucetError>)
        ensures
            result == (if token.owner@ == owner@ {
                Ok::<(), FaucetError>(())
            } else {
                Err(FaucetError::InvalidAccountOwner)
            }),
    {
        if !same_address(&token.owner, owner) {
            return Err(FaucetError::InvalidAccountOwner);
        }
        Ok(())
    }

    /// Fails with `InvalidAccountData` exactly when the token account does not
    /// hold tokens of `mint`.
    pub fn check_mint(token: TokenAccountState, mint: &[u8; 32]) -> (result: Result<(), FaucetError>)
        ensures
            result == (if token.mint@ == mint@ {
                Ok::<(), FaucetError>(())
            } else {
                Err(FaucetError::InvalidAccountData)
            }),
    {
        if !same_address(&token.mint, mint) {
            return Err(FaucetError::InvalidAccountData);
        }
        Ok(())
    }
}

} // verus!
