//! Initializing the protocol: the config account, the two mints, the two
//! vaults and their seed supply.
use vstd::prelude::*;
use vstd::bytes::{spec_u64_from_le_bytes, u64_from_le_bytes};
use vstd::slice::slice_subrange;

use crate::account::AccountRecord;
use crate::config::{Config, ConfigView};
use crate::error::FaucetError;
use crate::ids::{program_address, program_id};
use crate::instructions::account_checkers::signer_check;
use crate::pda::{
    config_seeds, config_seeds_spec, find_program_address, mint_seeds, mint_seeds_spec, mint_x_label,
    mint_y_label, program_derived_address,
};

verus! {

/// The accounts of the initialize instruction, in order.
pub struct InitializeAccounts<'a> {
    /// The protocol's authority, who pays for the new accounts.
    pub initializer: &'a AccountRecord,
    pub config: &'a AccountRecord,
    pub mint_x: &'a AccountRecord,
    pub mint_y: &'a AccountRecord,
    pub vault_x_ata: &'a AccountRecord,
    pub vault_y_ata: &'a AccountRecord,
    pub token_program: &'a AccountRecord,
    pub ata_token_program: &'a AccountRecord,
    pub system_program: &'a AccountRecord,
}

impl<'a> InitializeAccounts<'a> {
    /// Takes the nine accounts of the instruction in order; fails with
    /// `InvalidAccountData` unless there are exactly nine, then with
    /// `MissingRequiredSignature` unless the initializer signed.
    pub fn try_from(accounts: &'a [AccountRecord]) -> (result: Result<InitializeAccounts<'a>, FaucetError>)
        ensures
            accounts@.len() != 9 ==> result == Err::<InitializeAccounts<'a>, FaucetError>(
                FaucetError::InvalidAccountData,
            ),
            accounts@.len() == 9 && !accounts@[0].is_signer ==> result == Err::<
                InitializeAccounts<'a>,
                FaucetError,
            >(FaucetError::MissingRequiredSignature),
            accounts@.len() == 9 && accounts@[0].is_signer ==> (result matches Ok(a) && {
                &&& *a.initializer == accounts@[0]
                &&& *a.config == accounts@[1]
                &&& *a.mint_x == accounts@[2]
                &&& *a.mint_y == accounts@[3]
                &&& *a.vault_x_ata == accounts@[4]
                &&& *a.vault_y_ata == accounts@[5]
                &&& *a.token_program == accounts@[6]
                &&& *a.ata_token_program == accounts@[7]
                &&& *a.system_program == accounts@[8]
            }),
    {
        if accounts.len() != 9 {
            return Err(FaucetError::InvalidAccountData);
        }
        signer_check(&accounts[0])?;
        Ok(InitializeAccounts {
            initializer: &accounts[0],
            config: &accounts[1],
            mint_x: &accounts[2],
            mint_y: &accounts[3],
            vault_x_ata: &accounts[4],
            vault_y_ata: &accounts[5],
            token_program: &accounts[6],
            ata_token_program: &accounts[7],
            system_program: &accounts[8],
        })
    }
}

/// The data of the initialize instruction: the seed supply minted into each
/// vault, the decimals of the mints and the protocol version. The instruction
/// carries one decimals byte, which both mints take.
#[derive(Debug, Clone, Copy, PartialEq, Eq)]
pub struct InitializeInstructionData {
    pub seed_amount: u64,
    pub mint_decimals: u8,
    pub x_decimals: u8,
    pub y_decimals: u8,
    pub protocol_version: u8,
}

/// The 10 bytes that encode the initialize instruction's data: the seed
/// amount (little-endian), the mint decimals and the protocol version.
pub open spec fn encode_initialize_data(data: InitializeInstructionData) -> Seq<u8> {
    vstd::bytes::spec_u64_to_le_bytes(data.seed_amount) + seq![data.mint_decimals, data.protocol_version]
}

/// The instruction data that 10 bytes hold: both mints take the one
/// decimals byte.
pub open spec fn decode_initialize_data(data: Seq<u8>) -> InitializeInstructionData {
    InitializeInstructionData {
        seed_amount: spec_u64_from_le_bytes(data.subrange(0, 8)),
        mint_decimals: data[8],
        x_decimals: data[8],
        y_decimals: data[8],
        protocol_version: data[9],
    }
}

impl InitializeInstructionData {
    /// The size of the encoded data in bytes.
    pub const LEN: usize = 10;

    /// Reads the instruction data; fails with `InvalidInstructionData` exactly
    /// when it is not 10 bytes long.
    pub fn try_from(data: &[u8]) -> (result: Result<InitializeInstructionData, FaucetError>)
        ensures
            data@.len() != 10 ==> result == Err::<InitializeInstructionData, FaucetError>(
                FaucetError::InvalidInstructionData,
            ),
            data@.len() == 10 ==> result == Ok::<InitializeInstructionData, FaucetError>(
                decode_initialize_data(data@),
            ),
            data@.len() == 10 ==> (result matches Ok(read) && {
                &&& read.seed_amount == spec_u64_from_le_bytes(data@.subrange(0, 8))
                &&& read.mint_decimals == data@[8]
                &&& read.x_decimals == data@[8]
                &&& read.y_decimals == data@[8]
                &&& read.protocol_version == data@[9]
            }),
    {
        if data.len() != Self::LEN {
            return Err(FaucetError::InvalidInstructionData);
        }
        let seed_amount = u64_from_le_bytes(slice_subrange(data, 0, 8));
        let decimals = data[8];
        Ok(InitializeInstructionData {
            seed_amount,
            mint_decimals: decimals,
            x_decimals: decimals,
            y_decimals: decimals,
            protocol_version: data[9],
        })
    }
}

/// Reading the encoding of instruction data whose mints share the decimals
/// gives that data back, and reading 10 bytes and encoding the result gives
/// the same bytes.
pub proof fn lemma_initialize_data_roundtrip(data: InitializeInstructionData, bytes: Seq<u8>)
    ensures
        encode_initialize_data(data).len() == 10,
        data.x_decimals == data.mint_decimals && data.y_decimals == data.mint_decimals
            ==> decode_initialize_data(encode_initialize_data(data)) == data,
        bytes.len() == 10 ==> encode_initialize_data(decode_initialize_data(bytes)) == bytes,
{
    vstd::bytes::lemma_auto_spec_u64_to_from_le_bytes();
    let encoded = encode_initialize_data(data);
    assert(encoded.subrange(0, 8) =~= vstd::bytes::spec_u64_to_le_bytes(data.seed_amount));
    if bytes.len() == 10 {
        let prefix = bytes.subrange(0, 8);
        assert(vstd::bytes::spec_u64_to_le_bytes(spec_u64_from_le_bytes(prefix)) == prefix);
        assert(encode_initialize_data(decode_initialize_data(bytes)) =~= bytes);
    }
}

/// The initialize instruction: its accounts and its data.
pub struct Initialize<'a> {
    pub accounts: InitializeAccounts<'a>,
    pub instruction_data: InitializeInstructionData,
}

/// What initializing the protocol does, in order: create the config account
/// at its program derived address; create and initialize mint x and mint y
/// at their addresses derived from the config account, with the config
/// account as mint authority; create the two vaults, the config account's
/// associated token accounts of the two mints; mint the seed amount into
/// each vault; and store the configuration.
#[derive(Debug, Clone, Copy, PartialEq, Eq)]
pub struct InitializePlan {
    pub config_address: [u8; 32],
    pub config_bump: u8,
    pub mint_x: [u8; 32],
    pub mint_x_bump: u8,
    pub mint_y: [u8; 32],
    pub mint_y_bump: u8,
    pub x_decimals: u8,
    pub y_decimals: u8,
    pub seed_amount: u64,
    pub protocol_version: u8,
    /// The configuration stored at the end.
    pub config: Config,
}

/// Whether `result` is what initializing with `data` decides, given the
/// addresses of the two vault accounts (see [`Initialize::process`]).
pub open spec fn initialize_outcome_holds(
    result: Result<InitializePlan, FaucetError>,
    data: InitializeInstructionData,
    vault_x_ata: Seq<u8>,
    vault_y_ata: Seq<u8>,
) -> bool {
    let version = data.protocol_version;
    match program_derived_address(config_seeds_spec(version), program_address()) {
        None => result == Err::<InitializePlan, FaucetError>(FaucetError::InvalidSeeds),
        Some((config_address, config_bump)) => match program_derived_address(
            mint_seeds_spec(mint_x_label(), config_address),
            program_address(),
        ) {
            None => result == Err::<InitializePlan, FaucetError>(FaucetError::InvalidSeeds),
            Some((mint_x, mint_x_bump)) => match program_derived_address(
                mint_seeds_spec(mint_y_label(), config_address),
                program_address(),
            ) {
                None => result == Err::<InitializePlan, FaucetError>(
                    FaucetError::InvalidSeeds,
                ),
                Some((mint_y, mint_y_bump)) => result matches Ok(plan) && {
                    &&& plan.config_address@ == config_address
                    &&& plan.config_bump == config_bump
                    &&& plan.mint_x@ == mint_x
                    &&& plan.mint_x_bump == mint_x_bump
                    &&& plan.mint_y@ == mint_y
                    &&& plan.mint_y_bump == mint_y_bump
                    &&& plan.x_decimals == data.x_decimals
                    &&& plan.y_decimals == data.y_decimals
                    &&& plan.seed_amount == data.seed_amount
                    &&& plan.protocol_version == version
                    &&& plan.config@ == (ConfigView {
                        mint_x: mint_x,
                        x_decimal: data.x_decimals,
                        mint_y: mint_y,
                        y_decimal: data.y_decimals,
                        vault_x_ata: vault_x_ata,
                        vault_y_ata: vault_y_ata,
                        version: version,
                        limit: Seq::new(8, |i: int| 0u8),
                    })
                },
            },
        },
    }
}

impl<'a> Initialize<'a> {
    /// The instruction's discriminator.
    pub const DISCRIMINATOR: u8 = 0;

    /// Takes the instruction data and accounts: the accounts are checked
    /// first, then the data.
    pub fn try_from(data: &'a [u8], ix_accounts: &'a [AccountRecord]) -> (result: Result<Initialize<'a>, FaucetError>)
        ensures
            ix_accounts@.len() != 9 ==> result == Err::<Initialize<'a>, FaucetError>(
                FaucetError::InvalidAccountData,
            ),
            ix_accounts@.len() == 9 && !ix_accounts@[0].is_signer ==> result == Err::<
                Initialize<'a>,
                FaucetError,
            >(FaucetError::MissingRequiredSignature),
            ix_accounts@.len() == 9 && ix_accounts@[0].is_signer && data@.len() != 10 ==> result
                == Err::<Initialize<'a>, FaucetError>(FaucetError::InvalidInstructionData),
            result is Ok <==> (ix_accounts@.len() == 9 && ix_accounts@[0].is_signer && data@.len()
                == 10),
            result matches Ok(ix) ==> {
                &&& *ix.accounts.initializer == ix_accounts@[0]
                &&& *ix.accounts.config == ix_accounts@[1]
                &&& *ix.accounts.mint_x == ix_accounts@[2]
                &&& *ix.accounts.mint_y == ix_accounts@[3]
                &&& *ix.accounts.vault_x_ata == ix_accounts@[4]
                &&& *ix.accounts.vault_y_ata == ix_accounts@[5]
                &&& *ix.accounts.token_program == ix_accounts@[6]
                &&& *ix.accounts.ata_token_program == ix_accounts@[7]
                &&& *ix.accounts.system_program == ix_accounts@[8]
                &&& ix.instruction_data == decode_initialize_data(data@)
            },
    {
        let accounts = InitializeAccounts::try_from(ix_accounts)?;
        let instruction_data = InitializeInstructionData::try_from(data)?;
        Ok(Initialize { accounts, instruction_data })
    }

    /// Decides what initializing the protocol does (see [`InitializePlan`]).
    ///
    /// The config account's address comes from the seeds `config` and the
    /// protocol version, the mints' from `mint_x` / `mint_y` and the config
    /// account's address, all under this program. Should no bump seed give a
    /// program address, the instruction fails with `InvalidSeeds`. The stored
    /// configuration holds the two mints with their decimals, the two vaults
    /// given as accounts and the protocol version; its limit stays zero, as
    /// the freshly created config account holds zeros and the instruction
    /// carries no limit.
    pub fn process(&self) -> (result: Result<InitializePlan, FaucetError>)
        ensures
            initialize_outcome_holds(
                result,
                self.instruction_data,
                self.accounts.vault_x_ata.address@,
                self.accounts.vault_y_ata.address@,
            ),
    {
        let version = self.instruction_data.protocol_version;
        let program = program_id();
        let seeds = config_seeds(version);
        let (config_address, config_bump) = match find_program_address(&seeds, &program) {
            Some(found) => found,
            None => return Err(FaucetError::InvalidSeeds),
        };
        let x_seeds = mint_seeds(true, &config_address);
        let (mint_x, mint_x_bump) = match find_program_address(&x_seeds, &program) {
            Some(found) => found,
            None => return Err(FaucetError::InvalidSeeds),
        };
        let y_seeds = mint_seeds(false, &config_address);
        let (mint_y, mint_y_bump) = match find_program_address(&y_seeds, &program) {
            Some(found) => found,
            None => return Err(FaucetError::InvalidSeeds),
        };
        let config = Config {
            mint_x,
            x_decimal: self.instruction_data.x_decimals,
            mint_y,
            y_decimal: self.instruction_data.y_decimals,
            vault_x_ata: self.accounts.vault_x_ata.address,
            vault_y_ata: self.accounts.vault_y_ata.address,
            version,
            limit: [0u8; 8],
        };
        assert(config.limit@ =~= Seq::new(8, |i: int| 0u8));
        Ok(InitializePlan {
            config_address,
            config_bump,
            mint_x,
            mint_x_bump,
            mint_y,
            mint_y_bump,
            x_decimals: self.instruction_data.x_decimals,
            y_decimals: self.instruction_data.y_decimals,
            seed_amount: self.instruction_data.seed_amount,
            protocol_version: version,
            config,
        })
    }
}

/// Initialization places the config account at the program address of the
/// seeds `config` and the instruction's own protocol version, places the two
/// mints at the program addresses of `mint_x` / `mint_y` and that config
/// address, and stores exactly these mints, the instruction's decimals, the
/// vaults given and that version.
pub proof fn lemma_initialize_addresses(
    result: Result<InitializePlan, FaucetError>,
    data: InitializeInstructionData,
    vault_x_ata: Seq<u8>,
    vault_y_ata: Seq<u8>,
)
    requires
        initialize_outcome_holds(result, data, vault_x_ata, vault_y_ata),
        result is Ok,
    ensures
        ({
            let plan = result->Ok_0;
            let config_text = seq![99u8, 111, 110, 102, 105, 103];
            let mint_x_text = seq![109u8, 105, 110, 116, 95, 120];
            let mint_y_text = seq![109u8, 105, 110, 116, 95, 121];
            &&& program_derived_address(seq![config_text, seq![data.protocol_version]], program_address())
                == Some((plan.config_address@, plan.config_bump))
            &&& program_derived_address(seq![mint_x_text, plan.config_address@], program_address())
                == Some((plan.mint_x@, plan.mint_x_bump))
            &&& program_derived_address(seq![mint_y_text, plan.config_address@], program_address())
                == Some((plan.mint_y@, plan.mint_y_bump))
            &&& plan.protocol_version == data.protocol_version
            &&& plan.config.version == data.protocol_version
            &&& plan.config.mint_x@ == plan.mint_x@
            &&& plan.config.mint_y@ == plan.mint_y@
            &&& plan.config.x_decimal == data.x_decimals
            &&& plan.config.y_decimal == data.y_decimals
            &&& plan.config.vault_x_ata@ == vault_x_ata
            &&& plan.config.vault_y_ata@ == vault_y_ata
            &&& plan.seed_amount == data.seed_amount
        }),
{
    assert(config_seeds_spec(data.protocol_version) =~= seq![
        seq![99u8, 111, 110, 102, 105, 103],
        seq![data.protocol_version],
    ]);
}

} // verus!
