//! The smaller variant of the program: initialization with a dispense limit,
//! and loading more tokens into the faucet.
use vstd::prelude::*;
use vstd::bytes::{spec_u64_from_le_bytes, spec_u64_to_le_bytes, u64_from_le_bytes};
use vstd::slice::slice_subrange;

use crate::account::AccountRecord;
use crate::error::FaucetError;
use crate::instructions::account_checkers::{
    mint_check_result, token_check_result, MintAccount, TokenAccount,
};

pub use crate::instructions::account_checkers::{signer_check, system_account_check};

verus! {

/// Mint accounts of the token program.
pub struct Mint;

impl Mint {
    /// Checks that the account is owned by the token program (else
    /// `IncorrectProgramId`) and has the size of a mint (else
    /// `InvalidAccountData`).
    pub fn check(account: &AccountRecord) -> (result: Result<(), FaucetError>)
        ensures
            result == mint_check_result(*account),
    {
        MintAccount::check(account)
    }

    /// Whether the mint still has to be created: exactly when the check fails.
    pub fn needs_init(account: &AccountRecord) -> (needed: bool)
        ensures
            needed == (mint_check_result(*account) is Err),
    {
        Self::check(account).is_err()
    }
}

/// Token accounts of the token program.
pub struct Token;

impl Token {
    /// Checks that the account is owned by the token program (else
    /// `IncorrectProgramId`) and has the size of a token account (else
    /// `InvalidAccountData`).
    pub fn check(account: &AccountRecord) -> (result: Result<(), FaucetError>)
        ensures
            result == token_check_result(*account),
    {
        TokenAccount::check(account)
    }

    /// Whether the token account still has to be created: exactly when the
    /// check fails.
    pub fn needs_init(account: &AccountRecord) -> (needed: bool)
        ensures
            needed == (token_check_result(*account) is Err),
    {
        Self::check(account).is_err()
    }
}

/// The accounts of the initialize instruction, in order.
pub struct InitializeAccounts<'a> {
    /// The program's authority; it must sign.
    pub initializer: &'a AccountRecord,
    pub token_program: &'a AccountRecord,
    pub ata_token_program: &'a AccountRecord,
    pub system_program: &'a AccountRecord,
}

impl<'a> InitializeAccounts<'a> {
    /// Takes the four accounts of the instruction in order; fails with
    /// `InvalidAccountData` unless there are exactly four, then with
    /// `MissingRequiredSignature` unless the initializer signed.
    pub fn try_from(accounts: &'a [AccountRecord]) -> (result: Result<InitializeAccounts<'a>, FaucetError>)
        ensures
            accounts@.len() != 4 ==> result == Err::<InitializeAccounts<'a>, FaucetError>(
                FaucetError::InvalidAccountData,
            ),
            accounts@.len() == 4 && !accounts@[0].is_signer ==> result == Err::<
                InitializeAccounts<'a>,
                FaucetError,
            >(FaucetError::MissingRequiredSignature),
            accounts@.len() == 4 && accounts@[0].is_signer ==> (result matches Ok(a) && {
                &&& *a.initializer == accounts@[0]
                &&& *a.token_program == accounts@[1]
                &&& *a.ata_token_program == accounts@[2]
                &&& *a.system_program == accounts@[3]
            }),
    {
        if accounts.len() != 4 {
            return Err(FaucetError::InvalidAccountData);
        }
        signer_check(&accounts[0])?;
        Ok(InitializeAccounts {
            initializer: &accounts[0],
            token_program: &accounts[1],
            ata_token_program: &accounts[2],
            system_program: &accounts[3],
        })
    }
}

/// The data of the initialize instruction: the dispense limit and the
/// protocol version.
#[derive(Debug, Clone, Copy, PartialEq, Eq)]
pub struct InitializeInstructionData {
    pub dispense_limit: u64,
    pub protocol_version: u8,
}

/// The 9 bytes that encode the initialize instruction's data: the dispense
/// limit (little-endian) and the protocol version.
pub open spec fn encode_initialize_data(data: InitializeInstructionData) -> Seq<u8> {
    spec_u64_to_le_bytes(data.dispense_limit) + seq![data.protocol_version]
}

/// The instruction data that 9 bytes hold.
pub open spec fn decode_initialize_data(bytes: Seq<u8>) -> InitializeInstructionData {
    InitializeInstructionData {
        dispense_limit: spec_u64_from_le_bytes(bytes.subrange(0, 8)),
        protocol_version: bytes[8],
    }
}

impl InitializeInstructionData {
    /// Reads the instruction data; fails with `InvalidInstructionData` exactly
    /// when it is not 9 bytes long.
    pub fn try_from(data: &[u8]) -> (result: Result<InitializeInstructionData, FaucetError>)
        ensures
            data@.len() != 9 ==> result == Err::<InitializeInstructionData, FaucetError>(
                FaucetError::InvalidInstructionData,
            ),
            data@.len() == 9 ==> result == Ok::<InitializeInstructionData, FaucetError>(
                decode_initialize_data(data@),
            ),
            data@.len() == 9 ==> (result matches Ok(read) && read.dispense_limit == spec_u64_from_le_bytes(
                data@.subrange(0, 8),
            ) && read.protocol_version == data@[8]),
    {
        if data.len() != 9 {
            return Err(FaucetError::InvalidInstructionData);
        }
        let dispense_limit = u64_from_le_bytes(slice_subrange(data, 0, 8));
        Ok(InitializeInstructionData { dispense_limit, protocol_version: data[8] })
    }
}

/// Reading the encoding of any initialize data gives it back, and encoding
/// what 9 bytes hold gives the same bytes.
pub proof fn lemma_initialize_data_roundtrip(data: InitializeInstructionData, bytes: Seq<u8>)
    ensures
        encode_initialize_data(data).len() == 9,
        decode_initialize_data(encode_initialize_data(data)) == data,
        bytes.len() == 9 ==> encode_initialize_data(decode_initialize_data(bytes)) == bytes,
{
    vstd::bytes::lemma_auto_spec_u64_to_from_le_bytes();
    assert(encode_initialize_data(data).subrange(0, 8) =~= spec_u64_to_le_bytes(data.dispense_limit));
    if bytes.len() == 9 {
        let prefix = bytes.subrange(0, 8);
        assert(spec_u64_to_le_bytes(spec_u64_from_le_bytes(prefix)) == prefix);
        assert(encode_initialize_data(decode_initialize_data(bytes)) =~= bytes);
    }
}

/// The initialize instruction: its accounts and its data.
pub struct Initialize<'a> {
    pub accounts: InitializeAccounts<'a>,
    pub instruction_data: InitializeInstructionData,
}

impl<'a> Initialize<'a> {
    /// The instruction's discriminator.
    pub const DISCRIMINATOR: u8 = 0;

    /// Takes the instruction data and accounts: the accounts are checked
    /// first, then the data.
    pub fn try_from(data: &'a [u8], ix_accounts: &'a [AccountRecord]) -> (result: Result<Initialize<'a>, FaucetError>)
        ensures
            ix_accounts@.len() != 4 ==> result == Err::<Initialize<'a>, FaucetError>(
                FaucetError::InvalidAccountData,
            ),
            ix_accounts@.len() == 4 && !ix_accounts@[0].is_signer ==> result == Err::<
                Initialize<'a>,
                FaucetError,
            >(FaucetError::MissingRequiredSignature),
            ix_accounts@.len() == 4 && ix_accounts@[0].is_signer && data@.len() != 9 ==> result
                == Err::<Initialize<'a>, FaucetError>(FaucetError::InvalidInstructionData),
            ix_accounts@.len() == 4 && ix_accounts@[0].is_signer && data@.len() == 9 ==> (result matches Ok(
                ix,
            ) && ix.instruction_data == decode_initialize_data(data@) && *ix.accounts.initializer
                == ix_accounts@[0]),
    {
        let accounts = InitializeAccounts::try_from(ix_accounts)?;
        let instruction_data = InitializeInstructionData::try_from(data)?;
        Ok(Initialize { accounts, instruction_data })
    }

    /// Initializes the protocol; in this variant it only announces itself and
    /// always succeeds.
    pub fn process(&mut self) -> (result: Result<(), FaucetError>)
        ensures
            result is Ok,
    {
        Ok(())
    }
}

/// The accounts of the load instruction, in order.
pub struct LoadingAccounts<'a> {
    /// The program's authority; it must sign.
    pub initializer: &'a AccountRecord,
    pub config: &'a AccountRecord,
}

impl<'a> LoadingAccounts<'a> {
    /// Takes the two accounts of the instruction in order; fails with
    /// `InvalidAccountData` unless there are exactly two, then with
    /// `MissingRequiredSignature` unless the initializer signed.
    pub fn try_from(accounts: &'a [AccountRecord]) -> (result: Result<LoadingAccounts<'a>, FaucetError>)
        ensures
            accounts@.len() != 2 ==> result == Err::<LoadingAccounts<'a>, FaucetError>(
                FaucetError::InvalidAccountData,
            ),
            accounts@.len() == 2 && !accounts@[0].is_signer ==> result == Err::<
                LoadingAccounts<'a>,
                FaucetError,
            >(FaucetError::MissingRequiredSignature),
            accounts@.len() == 2 && accounts@[0].is_signer ==> (result matches Ok(a) && *a.initializer
                == accounts@[0] && *a.config == accounts@[1]),
    {
        if accounts.len() != 2 {
            return Err(FaucetError::InvalidAccountData);
        }
        signer_check(&accounts[0])?;
        Ok(LoadingAccounts { initializer: &accounts[0], config: &accounts[1] })
    }
}

/// The data of the load instruction: the amount of tokens to mint.
#[derive(Debug, Clone, Copy, PartialEq, Eq)]
pub struct LoadIxData {
    pub amount_to_mint: u64,
}

impl LoadIxData {
    /// Reads the instruction data; fails with `InvalidInstructionData` exactly
    /// when it is not 8 bytes long.
    pub fn try_from(data: &[u8]) -> (result: Result<LoadIxData, FaucetError>)
        ensures
            data@.len() != 8 ==> result == Err::<LoadIxData, FaucetError>(FaucetError::InvalidInstructionData),
            data@.len() == 8 ==> result == Ok::<LoadIxData, FaucetError>(
                LoadIxData { amount_to_mint: spec_u64_from_le_bytes(data@) },
            ),
    {
        if data.len() != 8 {
            return Err(FaucetError::InvalidInstructionData);
        }
        Ok(LoadIxData { amount_to_mint: u64_from_le_bytes(data) })
    }
}

} // verus!
