//! Addresses of the programs the faucet works with, and account sizes.
use vstd::prelude::*;

verus! {

/// The faucet program's own address (`9uwR3ZyHXhnA2QvPDHtjg5ei3AT9VTzst6pbzj6eQjLn`).
pub const ID: [u8; 32] = [
    132, 109, 57, 102, 90, 112, 150, 162, 93, 154, 198, 126, 21, 12, 156, 57,
    244, 97, 170, 249, 230, 76, 45, 134, 31, 236, 128, 244, 78, 85, 38, 107,
];

/// The bytes of the faucet program's address.
pub open spec fn program_address() -> Seq<u8> {
    seq![
        132u8, 109, 57, 102, 90, 112, 150, 162, 93, 154, 198, 126, 21, 12, 156, 57,
        244, 97, 170, 249, 230, 76, 45, 134, 31, 236, 128, 244, 78, 85, 38, 107,
    ]
}

/// The bytes of the SPL token program's address
/// (`TokenkegQfeZyiNwAJbNbGKPFXCWuBvf9Ss623VQ5DA`).
pub open spec fn token_program_address() -> Seq<u8> {
    seq![
        6u8, 221, 246, 225, 215, 101, 161, 147, 217, 203, 225, 70, 206, 235, 121, 172,
        28, 180, 133, 237, 95, 91, 55, 145, 58, 140, 245, 133, 126, 255, 0, 169,
    ]
}

/// The bytes of the associated token account program's address
/// (`ATokenGPvbdGVxr1b2hvZbsiqW5xWH25efTNsLJA8knL`).
pub open spec fn associated_token_program_address() -> Seq<u8> {
    seq![
        140u8, 151, 37, 143, 78, 36, 137, 241, 187, 61, 16, 41, 20, 142, 13, 131,
        11, 90, 19, 153, 218, 255, 16, 132, 4, 142, 123, 216, 219, 233, 248, 89,
    ]
}

/// The bytes of the system program's address (`11111111111111111111111111111111`).
pub open spec fn system_program_address() -> Seq<u8> {
    Seq::new(32, |i: int| 0u8)
}

/// The program's own address, as the bytes of [`ID`].
pub fn program_id() -> (id: [u8; 32])
    ensures
        id@ == program_address(),
{
    let id = ID;
    assert(id@ =~= program_address());
    id
}

/// `pinocchio_token::ID`, the token program's address, which that crate
/// declares from the base58 text `TokenkegQfeZyiNwAJbNbGKPFXCWuBvf9Ss623VQ5DA`.
#[verifier::external_body]
pub(crate) fn token_program_id() -> (id: [u8; 32])
    ensures
        id@ == token_program_address(),
{
    pinocchio_token::ID.to_bytes()
}

/// `pinocchio_system::ID`, the system program's address, which that crate
/// declares from the base58 text `11111111111111111111111111111111` (all zero bytes).
#[verifier::external_body]
pub(crate) fn system_program_id() -> (id: [u8; 32])
    ensures
        id@ == system_program_address(),
{
    pinocchio_system::ID.to_bytes()
}

/// `pinocchio_associated_token_account::ID`, the associated token account
/// program's address, declared from `ATokenGPvbdGVxr1b2hvZbsiqW5xWH25efTNsLJA8knL`.
#[verifier::external_body]
pub(crate) fn associated_token_program_id() -> (id: [u8; 32])
    ensures
        id@ == associated_token_program_address(),
{
    pinocchio_associated_token_account::ID.to_bytes()
}

/// `pinocchio_token::state::Mint::LEN`: the size of the `repr(C)` mint layout
/// (4 + 32 + 8 + 1 + 1 + 4 + 32 bytes).
#[verifier::external_body]
pub(crate) fn mint_len() -> (len: usize)
    ensures
        len == 82,
{
    pinocchio_token::state::Mint::LEN
}

/// `pinocchio_token::state::Account::LEN`: the size of the `repr(C)` token
/// account layout (32 + 32 + 8 + 4 + 32 + 1 + 4 + 8 + 8 + 4 + 32 bytes).
#[verifier::external_body]
pub(crate) fn token_account_len() -> (len: usize)
    ensures
        len == 165,
{
    pinocchio_token::state::Account::LEN
}

} // verus!
