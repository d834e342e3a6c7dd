# megaswap_faucet

The token issuer of the MegaSwap trading simulation, as a Verus-verified
library with a thin on-chain shell.

- `src/` — the verified library. It works on plain records of the accounts an
  instruction receives (`account::AccountRecord`) and decides what the
  instruction does:
  - `instructions::dispense_controller` — the proportional controller that sizes
    payouts, with its laws (bounds, monotonicity, behaviour at the target floor);
  - `instructions::dispense` — account checks and the dispense decision (token
    choice, payout, automint);
  - `instructions::initialize` — account checks, instruction data and the
    initialization plan (program derived addresses, stored configuration);
  - `instructions::account_checkers`, `instructions::helpers` — checks of
    signers, mints, token accounts, associated token accounts and program
    accounts;
  - `config` — the stored configuration and its byte layout;
  - `pda`, `ids` — program derived addresses and program ids (through trusted
    calls into `solana-address`, `pinocchio-token`, `pinocchio-system` and
    `pinocchio-associated-token-account`);
  - `processor` — routing of instruction data;
  - `lite` — the smaller program variant (initialize with a dispense limit, load).
- `app/` — the program entry: reads accounts into records, calls the library,
  and performs the cross-program invocations it decided on.
- `tests/` — tests of the library.
