//! The program's entry: routing instruction data to an instruction.
use vstd::prelude::*;

use crate::account::AccountRecord;
use crate::error::FaucetError;
use crate::instructions::dispense::{
    dispense_accounts_result, dispense_outcome, rng_seed, token_side, Dispense, DispensePlan, TokenSide,
};
use vstd::bytes::spec_u32_from_le_bytes;
use crate::config::{lemma_config_view_well_formed, lemma_decode_encode};
use crate::ids::program_address;
use crate::instructions::initialize::{lemma_initialize_addresses, InitializeInstructionData};
use crate::instructions::initialize::{
    decode_initialize_data, initialize_outcome_holds, Initialize, InitializePlan,
};

verus! {

/// The instructions of the program.
#[derive(Debug, Clone, Copy, PartialEq, Eq, Structural)]
pub enum FaucetInstruction {
    Initialize,
    Dispense,
}

/// Splits the instruction data into the instruction its first byte selects
/// (0: initialize, 1: dispense) and the rest of the data. Fails with
/// `InvalidInstructionData` on empty data or any other first byte.
pub fn decode_instruction(instruction_data: &[u8]) -> (result: Result<(FaucetInstruction, &[u8]), FaucetError>)
    ensures
        instruction_data@.len() == 0 ==> result == Err::<(FaucetInstruction, &[u8]), FaucetError>(
            FaucetError::InvalidInstructionData,
        ),
        instruction_data@.len() > 0 ==> {
            let tag = instruction_data@[0];
            &&& tag == 0 ==> (result matches Ok((ix, rest)) && ix == FaucetInstruction::Initialize
                && rest@ == instruction_data@.subrange(1, instruction_data@.len() as int))
            &&& tag == 1 ==> (result matches Ok((ix, rest)) && ix == FaucetInstruction::Dispense
                && rest@ == instruction_data@.subrange(1, instruction_data@.len() as int))
            &&& tag > 1 ==> result == Err::<(FaucetInstruction, &[u8]), FaucetError>(
                FaucetError::InvalidInstructionData,
            )
        },
{
    if instruction_data.len() == 0 {
        return Err(FaucetError::InvalidInstructionData);
    }
    let rest = vstd::slice::slice_subrange(instruction_data, 1, instruction_data.len());
    if instruction_data[0] == Initialize::DISCRIMINATOR {
        Ok((FaucetInstruction::Initialize, rest))
    } else if instruction_data[0] == Dispense::DISCRIMINATOR {
        Ok((FaucetInstruction::Dispense, rest))
    } else {
        Err(FaucetError::InvalidInstructionData)
    }
}

/// What an instruction does, for the caller to carry out.
#[derive(Debug, Clone, Copy, PartialEq, Eq)]
pub enum ProgramAction {
    Initialize(InitializePlan),
    Dispense(DispensePlan),
}

/// The initialize plan in a result, if that is what it holds.
pub open spec fn initialize_part(result: Result<ProgramAction, FaucetError>) -> Result<InitializePlan, FaucetError> {
    match result {
        Ok(ProgramAction::Initialize(plan)) => Ok(plan),
        Ok(ProgramAction::Dispense(_)) => Err(FaucetError::InvalidArgument),
        Err(e) => Err(e),
    }
}

/// The dispense plan in a result, if that is what it holds.
pub open spec fn dispense_part(result: Result<ProgramAction, FaucetError>) -> Result<DispensePlan, FaucetError> {
    match result {
        Ok(ProgramAction::Dispense(plan)) => Ok(plan),
        Ok(ProgramAction::Initialize(_)) => Err(FaucetError::InvalidArgument),
        Err(e) => Err(e),
    }
}

/// The seed of the token choice for a dispense to `wallet`.
pub open spec fn wallet_seed(wallet: AccountRecord) -> u32 {
    spec_u32_from_le_bytes(wallet.address@.subrange(0, 4))
}

/// Processes one instruction: routes it by its first byte, takes and checks
/// its accounts and data, and decides what it does.
///
/// A dispense chooses its token from the seed taken from the receiving
/// wallet's address ([`rng_seed`]); the seed stands for the token-choice
/// generator's output, no generator beyond the seed being defined.
pub fn process_instructions(
    accounts: &[AccountRecord],
    instruction_data: &[u8],
) -> (result: Result<ProgramAction, FaucetError>)
    ensures
        instruction_data@.len() == 0 || instruction_data@[0] > 1 ==> result == Err::<
            ProgramAction,
            FaucetError,
        >(FaucetError::InvalidInstructionData),
        result matches Ok(ProgramAction::Initialize(_)) ==> instruction_data@[0] == 0,
        result matches Ok(ProgramAction::Dispense(_)) ==> instruction_data@[0] == 1,
        instruction_data@.len() > 0 && instruction_data@[0] == 0 ==> {
            let data = instruction_data@.subrange(1, instruction_data@.len() as int);
            &&& accounts@.len() != 9 ==> result == Err::<ProgramAction, FaucetError>(
                FaucetError::InvalidAccountData,
            )
            &&& accounts@.len() == 9 && !accounts@[0].is_signer ==> result == Err::<
                ProgramAction,
                FaucetError,
            >(FaucetError::MissingRequiredSignature)
            &&& accounts@.len() == 9 && accounts@[0].is_signer && data.len() != 10 ==> result
                == Err::<ProgramAction, FaucetError>(FaucetError::InvalidInstructionData)
            &&& accounts@.len() == 9 && accounts@[0].is_signer && data.len() == 10
                ==> initialize_outcome_holds(
                initialize_part(result),
                decode_initialize_data(data),
                accounts@[4].address@,
                accounts@[5].address@,
            )
        },
        instruction_data@.len() > 0 && instruction_data@[0] == 1 ==> {
            &&& dispense_accounts_result(accounts@) is Err ==> result == Err::<ProgramAction, FaucetError>(
                dispense_accounts_result(accounts@)->Err_0,
            )
            &&& dispense_accounts_result(accounts@) is Ok ==> dispense_part(result) == (if token_side(
                wallet_seed(accounts@[0]),
            ) == TokenSide::X {
                dispense_outcome(accounts@[3], accounts@[6], wallet_seed(accounts@[0]))
            } else {
                dispense_outcome(accounts@[3], accounts@[7], wallet_seed(accounts@[0]))
            })
        },
{
    let (instruction, data) = decode_instruction(instruction_data)?;
    match instruction {
        FaucetInstruction::Initialize => {
            let ix = Initialize::try_from(data, accounts)?;
            let plan = ix.process()?;
            Ok(ProgramAction::Initialize(plan))
        },
        FaucetInstruction::Dispense => {
            let ix = Dispense::try_from(data, accounts)?;
            let seed = rng_seed(&ix.accounts.destination_wallet.address);
            let plan = ix.process(seed)?;
            Ok(ProgramAction::Dispense(plan))
        },
    }
}

/// What initialization stores is what dispensing signs with: once the
/// configuration that an initialization plans is stored in a config account
/// of this program, a dispense from it derives the config account's bump and
/// version that the initialization planned (it cannot fail for want of a
/// program address) and dispenses with the decimals initialization stored.
pub proof fn lemma_dispense_agrees_with_initialize(
    planned: Result<InitializePlan, FaucetError>,
    data: InitializeInstructionData,
    vault_x_ata: Seq<u8>,
    vault_y_ata: Seq<u8>,
    config: AccountRecord,
    vault: AccountRecord,
    random: u32,
)
    requires
        initialize_outcome_holds(planned, data, vault_x_ata, vault_y_ata),
        planned is Ok,
        config.data@ == planned->Ok_0.config@.encode(),
        config.owner@ == program_address(),
    ensures
        dispense_outcome(config, vault, random) != Err::<DispensePlan, FaucetError>(FaucetError::InvalidSeeds),
        dispense_outcome(config, vault, random) matches Ok(plan) ==> {
            &&& plan.config_bump == planned->Ok_0.config_bump
            &&& plan.version == data.protocol_version
            &&& plan.decimals == (if token_side(random) == TokenSide::X {
                data.x_decimals
            } else {
                data.y_decimals
            })
        },
{
    let stored = planned->Ok_0.config;
    lemma_config_view_well_formed(stored);
    lemma_decode_encode(stored@);
    lemma_initialize_addresses(planned, data, vault_x_ata, vault_y_ata);
    let bytes = stored@.encode();
    assert(bytes[130] == stored.version);
    assert(bytes[32] == stored.x_decimal);
    assert(bytes[65] == stored.y_decimal);
    assert(crate::pda::config_seeds_spec(data.protocol_version) =~= seq![
        seq![99u8, 111, 110, 102, 105, 103],
        seq![data.protocol_version],
    ]);
}

} // verus!
