//! Dispensing tokens to wallets.
use vstd::prelude::*;
use vstd::arithmetic::power::pow;
use vstd::bytes::{spec_u32_from_le_bytes, spec_u64_from_le_bytes, u32_from_le_bytes};
use vstd::slice::slice_subrange;

use crate::account::AccountRecord;
use crate::config::Config;
use crate::error::FaucetError;
use crate::ids::{program_address, program_id, token_program_address};
use crate::instructions::account_checkers::{signer_check, MintAccount, TokenAccount};
use crate::instructions::dispense_controller::{
    calculate_faucet_payout, faucet_payout, lemma_payout_monotone_in_balance, lemma_payout_within_bounds,
};
use crate::instructions::helpers::{ata_check_result, AssociatedTokenAccount};
use crate::pda::{config_seeds, config_seeds_spec, find_program_address, program_derived_address};

verus! {

/// The first check's outcome if it failed, else the second's.
pub open spec fn then_check(first: Result<(), FaucetError>, next: Result<(), FaucetError>) -> Result<(), FaucetError> {
    if first is Err {
        first
    } else {
        next
    }
}

/// The outcome of checking that `mint` is an initialized mint of the token
/// program whose mint authority is the config account.
pub open spec fn mint_authority_check_result(mint: AccountRecord, config: AccountRecord) -> Result<(), FaucetError> {
    let data = mint.data@;
    if data.len() != 82 {
        Err(FaucetError::InvalidAccountData)
    } else if mint.owner@ != token_program_address() {
        Err(FaucetError::IncorrectProgramId)
    } else if data[45] != 1 {
        Err(FaucetError::UninitializedAccount)
    } else if !(data[0] == 1 && data.subrange(4, 36) == config.address@) {
        Err(FaucetError::IncorrectAuthority)
    } else {
        Ok(())
    }
}

/// The outcome of checking the accounts of the dispense instruction, in the
/// order of the checks.
pub open spec fn dispense_accounts_result(a: Seq<AccountRecord>) -> Result<(), FaucetError> {
    if a.len() != 9 {
        Err(FaucetError::InvalidAccountData)
    } else if !a[0].is_signer {
        Err(FaucetError::MissingRequiredSignature)
    } else {
        then_check(
            mint_authority_check_result(a[4], a[3]),
            then_check(
                mint_authority_check_result(a[5], a[3]),
                then_check(
                    ata_check_result(a[1], a[0], a[4], a[8]),
                    then_check(
                        ata_check_result(a[2], a[0], a[5], a[8]),
                        then_check(ata_check_result(a[6], a[3], a[4], a[8]), ata_check_result(a[7], a[3], a[5], a[8])),
                    ),
                ),
            ),
        )
    }
}

/// Whether two account records differ at most in bytes 64 to 71 of their
/// data, where a token account holds its amount.
pub open spec fn differ_only_in_amount(first: AccountRecord, second: AccountRecord) -> bool {
    &&& first.address@ == second.address@
    &&& first.owner@ == second.owner@
    &&& first.is_signer == second.is_signer
    &&& first.data@.len() == second.data@.len()
    &&& forall|j: int|
        0 <= j < first.data@.len() && !(64 <= j < 72) ==> #[trigger] first.data@[j] == second.data@[j]
}

/// What accepted dispense accounts are: nine accounts; the wallet signed;
/// both mints are initialized token-program mints (82 bytes, initialized flag
/// at byte 45) whose mint authority (flag at byte 0, address at bytes 4 to
/// 35) is the config account; and the wallet's and the config account's
/// token accounts of each mint pass the associated token account check.
pub proof fn lemma_dispense_accounts_accepted(a: Seq<AccountRecord>)
    ensures
        dispense_accounts_result(a) is Ok <==> {
            &&& a.len() == 9
            &&& a[0].is_signer
            &&& forall|m: int|
                #![trigger a[m]]
                m == 4 || m == 5 ==> {
                    &&& a[m].data@.len() == 82
                    &&& a[m].owner@ == token_program_address()
                    &&& a[m].data@[45] == 1
                    &&& a[m].data@[0] == 1
                    &&& a[m].data@.subrange(4, 36) == a[3].address@
                }
            &&& ata_check_result(a[1], a[0], a[4], a[8]) is Ok
            &&& ata_check_result(a[2], a[0], a[5], a[8]) is Ok
            &&& ata_check_result(a[6], a[3], a[4], a[8]) is Ok
            &&& ata_check_result(a[7], a[3], a[5], a[8]) is Ok
        },
{
}

proof fn lemma_ata_check_ignores_amount(
    account: AccountRecord,
    other: AccountRecord,
    authority: AccountRecord,
    mint: AccountRecord,
    token_program: AccountRecord,
)
    requires
        differ_only_in_amount(account, other),
    ensures
        ata_check_result(account, authority, mint, token_program) == ata_check_result(
            other,
            authority,
            mint,
            token_program,
        ),
{
    if account.data@.len() == 165 {
        assert(account.data@.subrange(0, 32) =~= other.data@.subrange(0, 32));
        assert(account.data@.subrange(32, 64) =~= other.data@.subrange(32, 64));
    }
}

/// The dispense account checks do not look at balances: two lists of
/// accounts that differ only in the amounts held by the four token accounts
/// (the wallet's and the vaults') are accepted or refused alike, with the
/// same error.
pub proof fn lemma_dispense_accounts_ignore_balances(a: Seq<AccountRecord>, b: Seq<AccountRecord>)
    requires
        a.len() == 9,
        b.len() == 9,
        b[0] == a[0],
        b[3] == a[3],
        b[4] == a[4],
        b[5] == a[5],
        b[8] == a[8],
        differ_only_in_amount(a[1], b[1]),
        differ_only_in_amount(a[2], b[2]),
        differ_only_in_amount(a[6], b[6]),
        differ_only_in_amount(a[7], b[7]),
    ensures
        dispense_accounts_result(a) == dispense_accounts_result(b),
{
    lemma_ata_check_ignores_amount(a[1], b[1], a[0], a[4], a[8]);
    lemma_ata_check_ignores_amount(a[2], b[2], a[0], a[5], a[8]);
    lemma_ata_check_ignores_amount(a[6], b[6], a[3], a[4], a[8]);
    lemma_ata_check_ignores_amount(a[7], b[7], a[3], a[5], a[8]);
}

/// The accounts of the dispense instruction, in order.
pub struct DispenseAccounts<'a> {
    /// The wallet receiving the tokens; it must sign.
    pub destination_wallet: &'a AccountRecord,
    pub destination_x_ata: &'a AccountRecord,
    pub destination_y_ata: &'a AccountRecord,
    pub config: &'a AccountRecord,
    pub mint_x: &'a AccountRecord,
    pub mint_y: &'a AccountRecord,
    pub vault_x_ata: &'a AccountRecord,
    pub vault_y_ata: &'a AccountRecord,
    pub token_program: &'a AccountRecord,
}

/// Checks that `mint` is an initialized mint whose authority is `config`.
fn check_mint_for(mint: &AccountRecord, config: &AccountRecord) -> (result: Result<(), FaucetError>)
    ensures
        result == mint_authority_check_result(*mint, *config),
{
    let state = MintAccount::load(mint)?;
    MintAccount::check_initialized(state)?;
    proof {
        if mint.data@[0] == 1 {
            assert(state.mint_authority is Some);
        } else {
            assert(state.mint_authority is None);
        }
    }
    match MintAccount::check_mint_authority(state, &config.address) {
        Ok(()) => Ok(()),
        Err(e) => Err(e),
    }
}

impl<'a> DispenseAccounts<'a> {
    /// Takes the nine accounts of the instruction in order and checks them:
    /// the wallet signed; both mints are initialized with the config account
    /// as mint authority; the wallet's and the config account's associated
    /// token accounts of both mints are the canonical ones.
    pub fn try_from(accounts: &'a [AccountRecord]) -> (result: Result<DispenseAccounts<'a>, FaucetError>)
        ensures
            dispense_accounts_result(accounts@) is Err ==> result == Err::<DispenseAccounts<'a>, FaucetError>(
                dispense_accounts_result(accounts@)->Err_0,
            ),
            dispense_accounts_result(accounts@) is Ok ==> (result matches Ok(d) && {
                &&& *d.destination_wallet == accounts@[0]
                &&& *d.destination_x_ata == accounts@[1]
                &&& *d.destination_y_ata == accounts@[2]
                &&& *d.config == accounts@[3]
                &&& *d.mint_x == accounts@[4]
                &&& *d.mint_y == accounts@[5]
                &&& *d.vault_x_ata == accounts@[6]
                &&& *d.vault_y_ata == accounts@[7]
                &&& *d.token_program == accounts@[8]
            }),
    {
        if accounts.len() != 9 {
            return Err(FaucetError::InvalidAccountData);
        }
        let destination_wallet = &accounts[0];
        let destination_x_ata = &accounts[1];
        let destination_y_ata = &accounts[2];
        let config = &accounts[3];
        let mint_x = &accounts[4];
        let mint_y = &accounts[5];
        let vault_x_ata = &accounts[6];
        let vault_y_ata = &accounts[7];
        let token_program = &accounts[8];
        signer_check(destination_wallet)?;
        check_mint_for(mint_x, config)?;
        check_mint_for(mint_y, config)?;
        AssociatedTokenAccount::check(destination_x_ata, destination_wallet, mint_x, token_program)?;
        AssociatedTokenAccount::check(destination_y_ata, destination_wallet, mint_y, token_program)?;
        AssociatedTokenAccount::check(vault_x_ata, config, mint_x, token_program)?;
        AssociatedTokenAccount::check(vault_y_ata, config, mint_y, token_program)?;
        Ok(DispenseAccounts {
            destination_wallet,
            destination_x_ata,
            destination_y_ata,
            config,
            mint_x,
            mint_y,
            vault_x_ata,
            vault_y_ata,
            token_program,
        })
    }
}

/// Which of the two tokens is dispensed.
#[derive(Debug, Clone, Copy, PartialEq, Eq, Structural)]
pub enum TokenSide {
    X,
    Y,
}

/// The token dispensed for a random number: x for an even one, y for an odd one.
pub open spec fn token_side(random: u32) -> TokenSide {
    if random % 2 == 0 {
        TokenSide::X
    } else {
        TokenSide::Y
    }
}

/// The tokens dispensed in one instruction: the amount moved from the vault to
/// the wallet, and the amount minted back into the vault when the automint
/// fires.
#[derive(Debug, Clone, Copy, PartialEq, Eq)]
pub struct Payout {
    pub amount: u64,
    pub automint: Option<u64>,
}

/// The controller's settings for a token with `decimals` decimals, scaled by
/// `10^decimals`: the target floor (100 000 tokens), the base payout
/// (50 000), the minimum payout (20 000), the maximum payout (70 000) and the
/// critical floor below which the automint fires (10 000).
pub open spec fn scaled(tokens: int, decimals: u8) -> int {
    tokens * pow(10, decimals as nat)
}

/// What one dispense of a token with `decimals` decimals from a vault holding
/// `balance` grants.
///
/// It fails with `InvalidInstructionData` when the scaled settings do not fit
/// in a `u64`. With zero decimals the controller's precision is zero and
/// nothing is dispensed. Otherwise the payout is the controller's, with a gain
/// of one over a precision of `decimals`: above the target floor it grows with
/// the surplus, below it shrinks with the deficit. The automint fires,
/// refilling the vault up to the target floor, exactly when the balance is
/// below the critical floor.
pub open spec fn dispense_schedule(balance: u64, decimals: u8) -> Result<Option<Payout>, FaucetError> {
    if pow(10, decimals as nat) > u64::MAX || scaled(100_000, decimals) > u64::MAX {
        Err(FaucetError::InvalidInstructionData)
    } else if decimals == 0 {
        Ok(None)
    } else {
        Ok(
            Some(
                Payout {
                    amount: faucet_payout(
                        balance,
                        scaled(100_000, decimals) as u64,
                        scaled(50_000, decimals) as u64,
                        1,
                        decimals as u128,
                        scaled(20_000, decimals) as u64,
                        scaled(70_000, decimals) as u64,
                    ) as u64,
                    automint: if balance < scaled(10_000, decimals) {
                        Some((scaled(100_000, decimals) - balance) as u64)
                    } else {
                        None
                    },
                },
            ),
        )
    }
}

/// The guard rails of a dispense: the amount lies between the scaled minimum
/// (20 000 tokens) and maximum (70 000 tokens) payouts; the automint fires
/// exactly when the vault holds less than the critical floor (10 000 tokens),
/// and then refills the vault's balance up to the target floor
/// (100 000 tokens).
pub proof fn lemma_dispense_guard_rails(balance: u64, decimals: u8)
    ensures
        dispense_schedule(balance, decimals) matches Ok(Some(payout)) ==> {
            &&& scaled(20_000, decimals) <= payout.amount <= scaled(70_000, decimals)
            &&& (payout.automint is Some <==> balance < scaled(10_000, decimals))
            &&& (payout.automint matches Some(minted) ==> balance + minted == scaled(100_000, decimals))
        },
{
    vstd::arithmetic::power::lemma_pow_positive(10, decimals as nat);
    if dispense_schedule(balance, decimals) is Ok {
        let m = scaled(100_000, decimals);
        lemma_payout_within_bounds(
            balance,
            m as u64,
            scaled(50_000, decimals) as u64,
            1,
            decimals as u128,
            scaled(20_000, decimals) as u64,
            scaled(70_000, decimals) as u64,
        );
    }
}

/// A fuller vault never pays out less than an emptier one: whenever the
/// emptier vault gets a payout, so does the fuller one, and at least as much,
/// on both sides of the target floor.
pub proof fn lemma_dispense_monotone(balance_low: u64, balance_high: u64, decimals: u8)
    requires
        balance_low <= balance_high,
    ensures
        dispense_schedule(balance_low, decimals) matches Ok(Some(low)) ==> (dispense_schedule(
            balance_high,
            decimals,
        ) matches Ok(Some(high)) && low.amount <= high.amount),
{
    vstd::arithmetic::power::lemma_pow_positive(10, decimals as nat);
    if dispense_schedule(balance_high, decimals) is Ok && decimals != 0 {
        lemma_payout_monotone_in_balance(
            balance_low,
            balance_high,
            scaled(100_000, decimals) as u64,
            scaled(50_000, decimals) as u64,
            1,
            decimals as u128,
            scaled(20_000, decimals) as u64,
            scaled(70_000, decimals) as u64,
        );
        lemma_payout_within_bounds(
            balance_low,
            scaled(100_000, decimals) as u64,
            scaled(50_000, decimals) as u64,
            1,
            decimals as u128,
            scaled(20_000, decimals) as u64,
            scaled(70_000, decimals) as u64,
        );
        lemma_payout_within_bounds(
            balance_high,
            scaled(100_000, decimals) as u64,
            scaled(50_000, decimals) as u64,
            1,
            decimals as u128,
            scaled(20_000, decimals) as u64,
            scaled(70_000, decimals) as u64,
        );
    }
}

proof fn lemma_pow_ten_fourteen()
    ensures
        pow(10, 14) == 100_000_000_000_000,
        pow(10, 15) == 1_000_000_000_000_000,
{
    reveal_with_fuel(pow, 16);
}

/// What a dispense grants, by the number of decimals of the token: nothing
/// with zero decimals; for 1 to 14 decimals always a payout, between the
/// minimum (20 000 tokens) and the maximum (70 000 tokens), whatever the
/// vault holds, with an automint exactly when the vault holds less than
/// 10 000 tokens, refilling it to 100 000 tokens; from 15 decimals on the
/// scaled settings overflow and the dispense is refused.
pub proof fn lemma_dispense_by_decimals(balance: u64, decimals: u8)
    ensures
        decimals == 0 ==> dispense_schedule(balance, decimals) == Ok::<Option<Payout>, FaucetError>(None),
        decimals >= 15 ==> dispense_schedule(balance, decimals) == Err::<Option<Payout>, FaucetError>(
            FaucetError::InvalidInstructionData,
        ),
        1 <= decimals <= 14 ==> {
            let unit = pow(10, decimals as nat);
            dispense_schedule(balance, decimals) matches Ok(Some(payout)) && {
                &&& 20_000 * unit <= payout.amount <= 70_000 * unit
                &&& (payout.automint is Some <==> balance < 10_000 * unit)
                &&& (payout.automint matches Some(minted) ==> balance + minted == 100_000 * unit)
            }
        },
{
    lemma_pow_ten_fourteen();
    vstd::arithmetic::power::lemma_pow_positive(10, decimals as nat);
    if decimals == 0 {
        vstd::arithmetic::power::lemma_pow0(10);
    } else if decimals >= 15 {
        vstd::arithmetic::power::lemma_pow_increases(10, 15, decimals as nat);
    } else {
        vstd::arithmetic::power::lemma_pow_increases(10, decimals as nat, 14);
        lemma_payout_within_bounds(
            balance,
            scaled(100_000, decimals) as u64,
            scaled(50_000, decimals) as u64,
            1,
            decimals as u128,
            scaled(20_000, decimals) as u64,
            scaled(70_000, decimals) as u64,
        );
    }
}

/// The amount of a dispense in plain arithmetic, for 1 to 14 decimals with
/// `unit = 10^decimals`: the base payout of 50 000 tokens plus one token per
/// `decimals` tokens of surplus above 100 000 tokens, or minus one token per
/// `decimals` tokens of deficit below it (not below zero), then at most
/// 70 000 tokens and at least 20 000 tokens.
pub proof fn lemma_dispense_amount_formula(balance: u64, decimals: u8)
    requires
        1 <= decimals <= 14,
    ensures
        ({
            let unit = pow(10, decimals as nat);
            let floor = 100_000 * unit;
            let raw: int = if balance > floor {
                50_000 * unit + (balance - floor) / (decimals as int)
            } else if (floor - balance) / (decimals as int) > 50_000 * unit {
                0
            } else {
                50_000 * unit - (floor - balance) / (decimals as int)
            };
            let capped: int = if raw < 70_000 * unit { raw } else { 70_000 * unit };
            dispense_schedule(balance, decimals) matches Ok(Some(payout)) && payout.amount == (if capped < 20_000
                * unit {
                20_000 * unit
            } else {
                capped
            })
        }),
{
    lemma_dispense_by_decimals(balance, decimals);
    let unit = pow(10, decimals as nat);
    vstd::arithmetic::power::lemma_pow_positive(10, decimals as nat);
    lemma_pow_ten_fourteen();
    vstd::arithmetic::power::lemma_pow_increases(10, decimals as nat, 14);
    let floor = 100_000 * unit;
    assert(1 * (balance - floor) == balance - floor);
    assert(1 * (floor - balance) == floor - balance);
    crate::instructions::dispense_controller::lemma_payout_formula(
        balance,
        floor as u64,
        (50_000 * unit) as u64,
        1,
        decimals as u128,
        (20_000 * unit) as u64,
        (70_000 * unit) as u64,
    );
}

/// What a dispense reads: the version from byte 130 of the stored
/// configuration, the decimals of the chosen token from byte 32 (x) or 65
/// (y), the side from the parity of the random number (even: x), and the
/// balance from bytes 64 to 71 of the vault's data.
pub proof fn lemma_dispense_reads(config: AccountRecord, vault: AccountRecord, random: u32)
    ensures
        dispense_outcome(config, vault, random) matches Ok(plan) ==> {
            &&& config.data@.len() == 139
            &&& plan.version == config.data@[130]
            &&& plan.side == (if random % 2 == 0 { TokenSide::X } else { TokenSide::Y })
            &&& plan.decimals == (if random % 2 == 0 { config.data@[32] } else { config.data@[65] })
            &&& vault.data@.len() == 165
            &&& Ok::<Option<Payout>, FaucetError>(plan.payout) == dispense_schedule(
                spec_u64_from_le_bytes(vault.data@.subrange(64, 72)),
                plan.decimals,
            )
        },
{
}

/// A vault above the target floor pays at least the base payout (50 000
/// tokens), more as its surplus grows, and gets no automint.
pub proof fn lemma_dispense_overflowing_pays_more(balance: u64, decimals: u8)
    requires
        balance > scaled(100_000, decimals),
    ensures
        dispense_schedule(balance, decimals) matches Ok(Some(payout)) ==> {
            &&& payout.amount >= scaled(50_000, decimals)
            &&& payout.automint is None
        },
{
    vstd::arithmetic::power::lemma_pow_positive(10, decimals as nat);
    if dispense_schedule(balance, decimals) is Ok && decimals != 0 {
        crate::instructions::dispense_controller::lemma_surplus_pays_at_least_deficit_at_most_base(
            balance,
            scaled(100_000, decimals) as u64,
            scaled(50_000, decimals) as u64,
            1,
            decimals as u128,
            scaled(20_000, decimals) as u64,
            scaled(70_000, decimals) as u64,
        );
    }
}

/// `base` raised to `exp`, or `None` when that does not fit in a `u64`
/// (the outcome of `u64::checked_pow`), by repeated checked multiplication.
fn checked_pow_u64(base: u64, exp: u32) -> (result: Option<u64>)
    requires
        base >= 1,
    ensures
        result == (if pow(base as int, exp as nat) <= u64::MAX {
            Some(pow(base as int, exp as nat) as u64)
        } else {
            None::<u64>
        }),
{
    let mut acc: u64 = 1;
    let mut i: u32 = 0;
    proof {
        vstd::arithmetic::power::lemma_pow0(base as int);
    }
    while i < exp
        invariant
            base >= 1,
            i <= exp,
            acc as int == pow(base as int, i as nat),
        decreases exp - i,
    {
        proof {
            vstd::arithmetic::power::lemma_pow_adds(base as int, i as nat, 1);
            vstd::arithmetic::power::lemma_pow1(base as int);
        }
        match acc.checked_mul(base) {
            Some(next) => {
                acc = next;
                i = i + 1;
            },
            None => {
                proof {
                    vstd::arithmetic::power::lemma_pow_increases(base as nat, (i + 1) as nat, exp as nat);
                }
                return None;
            },
        }
    }
    Some(acc)
}

/// Decides the payout of one dispense of a token with `decimals` decimals
/// from a vault holding `faucet_balance` (see [`dispense_schedule`]).
pub fn plan_payout(faucet_balance: u64, decimals: u8) -> (result: Result<Option<Payout>, FaucetError>)
    ensures
        result == dispense_schedule(faucet_balance, decimals),
{
    proof {
        vstd::arithmetic::power::lemma_pow_positive(10, decimals as nat);
    }
    let multiplier = match checked_pow_u64(10, decimals as u32) {
        Some(m) => m,
        None => return Err(FaucetError::InvalidInstructionData),
    };
    let target_floor = match 100_000u64.checked_mul(multiplier) {
        Some(v) => v,
        None => return Err(FaucetError::InvalidInstructionData),
    };
    let base_payout = match 50_000u64.checked_mul(multiplier) {
        Some(v) => v,
        None => return Err(FaucetError::InvalidInstructionData),
    };
    let min_payout = match 20_000u64.checked_mul(multiplier) {
        Some(v) => v,
        None => return Err(FaucetError::InvalidInstructionData),
    };
    let max_payout = match 70_000u64.checked_mul(multiplier) {
        Some(v) => v,
        None => return Err(FaucetError::InvalidInstructionData),
    };
    let k_scaled: u64 = 1;
    let precision = decimals as u128;
    match calculate_faucet_payout(
        faucet_balance,
        target_floor,
        base_payout,
        k_scaled,
        precision,
        min_payout,
        max_payout,
    ) {
        Some(amount) => {
            let critical_floor: u64 = 10_000;
            let critical_balance = match critical_floor.checked_mul(multiplier) {
                Some(v) => v,
                None => return Err(FaucetError::InvalidInstructionData),
            };
            // Below the critical floor the vault is below the target floor,
            // so the refill amount cannot underflow.
            let automint = if faucet_balance < critical_balance {
                Some(target_floor - faucet_balance)
            } else {
                None
            };
            Ok(Some(Payout { amount, automint }))
        },
        None => Ok(None),
    }
}

/// The balance of a token account as read for dispensing: fails as
/// [`TokenAccount::load`] does.
pub open spec fn token_balance_result(account: AccountRecord) -> Result<u64, FaucetError> {
    if account.data@.len() != 165 {
        Err(FaucetError::InvalidAccountData)
    } else if account.owner@ != token_program_address() {
        Err(FaucetError::IncorrectProgramId)
    } else {
        Ok(spec_u64_from_le_bytes(account.data@.subrange(64, 72)))
    }
}

/// What one dispense does: with the config account signing through its
/// program derived address (seeds `config`, the version and `config_bump`),
/// move `payout.amount` tokens of the chosen side, with `decimals` decimals,
/// from the vault to the wallet's token account, then mint
/// `payout.automint` tokens into the vault if it is set. Without a payout
/// nothing is done.
#[derive(Debug, Clone, Copy, PartialEq, Eq)]
pub struct DispensePlan {
    pub config_bump: u8,
    pub version: u8,
    pub side: TokenSide,
    pub decimals: u8,
    pub payout: Option<Payout>,
}

/// The decimals that the stored configuration (139 bytes) records for a side.
pub open spec fn config_decimals(config_data: Seq<u8>, side: TokenSide) -> u8 {
    match side {
        TokenSide::X => config_data[32],
        TokenSide::Y => config_data[65],
    }
}

/// The outcome of one dispense, from the config account, the chosen side's
/// vault, and the random number that chose the side.
pub open spec fn dispense_outcome(
    config: AccountRecord,
    vault: AccountRecord,
    random: u32,
) -> Result<DispensePlan, FaucetError> {
    if !(config.data@.len() == 139 && config.owner@ == program_address()) {
        Err(FaucetError::InvalidAccountData)
    } else {
        let version = config.data@[130];
        let side = token_side(random);
        let decimals = config_decimals(config.data@, side);
        match program_derived_address(config_seeds_spec(version), program_address()) {
            None => Err(FaucetError::InvalidSeeds),
            Some((_, bump)) => match token_balance_result(vault) {
                Err(e) => Err(e),
                Ok(balance) => match dispense_schedule(balance, decimals) {
                    Err(e) => Err(e),
                    Ok(payout) => Ok(DispensePlan { config_bump: bump, version, side, decimals, payout }),
                },
            },
        }
    }
}

/// The dispense instruction: its accounts.
pub struct Dispense<'a> {
    pub accounts: DispenseAccounts<'a>,
}

/// The seed of the token choice: the first four bytes of the wallet's
/// address, read as a little-endian integer.
pub fn rng_seed(wallet: &[u8; 32]) -> (seed: u32)
    ensures
        seed == spec_u32_from_le_bytes(wallet@.subrange(0, 4)),
{
    u32_from_le_bytes(slice_subrange(wallet.as_slice(), 0, 4))
}

/// The token chosen by a random number: x when it is even, y when it is odd.
pub fn choose_token(random: u32) -> (side: TokenSide)
    ensures
        side == token_side(random),
{
    if random % 2 == 0 {
        TokenSide::X
    } else {
        TokenSide::Y
    }
}

impl<'a> Dispense<'a> {
    /// The instruction's discriminator.
    pub const DISCRIMINATOR: u8 = 1;

    /// Takes the instruction's accounts and checks them as
    /// [`DispenseAccounts::try_from`] does; the data is not read.
    pub fn try_from(data: &'a [u8], ix_accounts: &'a [AccountRecord]) -> (result: Result<Dispense<'a>, FaucetError>)
        ensures
            dispense_accounts_result(ix_accounts@) is Err ==> result == Err::<Dispense<'a>, FaucetError>(
                dispense_accounts_result(ix_accounts@)->Err_0,
            ),
            dispense_accounts_result(ix_accounts@) is Ok ==> (result matches Ok(d) && {
                &&& *d.accounts.destination_wallet == ix_accounts@[0]
                &&& *d.accounts.destination_x_ata == ix_accounts@[1]
                &&& *d.accounts.destination_y_ata == ix_accounts@[2]
                &&& *d.accounts.config == ix_accounts@[3]
                &&& *d.accounts.mint_x == ix_accounts@[4]
                &&& *d.accounts.mint_y == ix_accounts@[5]
                &&& *d.accounts.vault_x_ata == ix_accounts@[6]
                &&& *d.accounts.vault_y_ata == ix_accounts@[7]
                &&& *d.accounts.token_program == ix_accounts@[8]
            }),
    {
        let accounts = DispenseAccounts::try_from(ix_accounts)?;
        Ok(Dispense { accounts })
    }

    /// Decides what dispensing does (see [`DispensePlan`]): loads the
    /// configuration, derives the config account's address from its version
    /// (failing with `InvalidSeeds` should no bump give one), chooses the
    /// token from `random`, reads the balance of that token's vault and takes
    /// the token's decimals from the configuration, and computes the payout
    /// and automint with [`plan_payout`].
    pub fn process(&self, random: u32) -> (result: Result<DispensePlan, FaucetError>)
        ensures
            result == (if token_side(random) == TokenSide::X {
                dispense_outcome(*self.accounts.config, *self.accounts.vault_x_ata, random)
            } else {
                dispense_outcome(*self.accounts.config, *self.accounts.vault_y_ata, random)
            }),
    {
        let config = Config::load(self.accounts.config)?;
        let version = config.version();
        let program = program_id();
        let seeds = config_seeds(version);
        let config_bump = match find_program_address(&seeds, &program) {
            Some((_, bump)) => bump,
            None => return Err(FaucetError::InvalidSeeds),
        };
        let side = choose_token(random);
        let (vault, decimals) = match side {
            TokenSide::X => (self.accounts.vault_x_ata, config.x_decimal()),
            TokenSide::Y => (self.accounts.vault_y_ata, config.y_decimal()),
        };
        let faucet_balance = TokenAccount::load(vault)?.amount;
        let payout = plan_payout(faucet_balance, decimals)?;
        Ok(DispensePlan { config_bump, version, side, decimals, payout })
    }
}

} // verus!
