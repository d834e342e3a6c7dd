//! Program derived addresses and the seeds the faucet derives them from.
use vstd::prelude::*;

verus! {

/// What `solana_address::Address::try_find_program_address` returns for the
/// given seeds and program id: the first address, trying bump seeds from 255
/// downwards, that the seeds, the bump and the program id hash to off the
/// ed25519 curve, with its bump; or nothing when there are too many or too
/// long seeds or no bump gives such an address.
pub uninterp spec fn program_derived_address(seeds: Seq<Seq<u8>>, program_id: Seq<u8>) -> Option<(Seq<u8>, u8)>;

/// `solana_address::Address::try_find_program_address`: derives a program
/// address and bump from the seeds and the program id. The contract only
/// names the result ([`program_derived_address`] of the seeds' bytes and the
/// program id's bytes); the hash and curve test behind it are left unstated.
#[verifier::external_body]
pub(crate) fn find_program_address(seeds: &Vec<Vec<u8>>, program_id: &[u8; 32]) -> (found: Option<
    ([u8; 32], u8),
>)
    ensures
        match found {
            Some((address, bump)) => program_derived_address(seeds.deep_view(), program_id@) == Some(
                (address@, bump),
            ),
            None => program_derived_address(seeds.deep_view(), program_id@) is None,
        },
{
    let seed_refs: Vec<&[u8]> = seeds.iter().map(|seed| seed.as_slice()).collect();
    let program = solana_address::Address::new_from_array(*program_id);
    match solana_address::Address::try_find_program_address(&seed_refs, &program) {
        Some((address, bump)) => Some((address.to_bytes(), bump)),
        None => None,
    }
}

/// The bytes of the text `config`.
pub open spec fn config_label() -> Seq<u8> {
    seq![99u8, 111, 110, 102, 105, 103]
}

/// The bytes of the text `mint_x`.
pub open spec fn mint_x_label() -> Seq<u8> {
    seq![109u8, 105, 110, 116, 95, 120]
}

/// The bytes of the text `mint_y`.
pub open spec fn mint_y_label() -> Seq<u8> {
    seq![109u8, 105, 110, 116, 95, 121]
}

/// The seeds of the config account of a protocol version: `config` and the
/// version byte.
pub open spec fn config_seeds_spec(version: u8) -> Seq<Seq<u8>> {
    seq![config_label(), seq![version]]
}

/// The seeds of a mint derived from the config account: the mint's label and
/// the config account's address.
pub open spec fn mint_seeds_spec(label: Seq<u8>, config: Seq<u8>) -> Seq<Seq<u8>> {
    seq![label, config]
}

/// The seeds of the config account of a protocol version.
pub fn config_seeds(version: u8) -> (seeds: Vec<Vec<u8>>)
    ensures
        seeds.deep_view() == config_seeds_spec(version),
{
    let label: Vec<u8> = vec![99u8, 111, 110, 102, 105, 103];
    let version_bytes: Vec<u8> = vec![version];
    let seeds = vec![label, version_bytes];
    assert(seeds.deep_view() =~= config_seeds_spec(version)) by {
        assert(seeds.deep_view()[0] =~= config_label());
        assert(seeds.deep_view()[1] =~= seq![version]);
    }
    seeds
}

/// The seeds of mint x (`is_x`) or mint y, derived from the config account.
pub fn mint_seeds(is_x: bool, config: &[u8; 32]) -> (seeds: Vec<Vec<u8>>)
    ensures
        seeds.deep_view() == mint_seeds_spec(if is_x { mint_x_label() } else { mint_y_label() }, config@),
{
    let label: Vec<u8> = if is_x {
        vec![109u8, 105, 110, 116, 95, 120]
    } else {
        vec![109u8, 105, 110, 116, 95, 121]
    };
    let config_bytes: Vec<u8> = address_to_vec(config);
    let seeds = vec![label, config_bytes];
    assert(seeds.deep_view() =~= mint_seeds_spec(if is_x { mint_x_label() } else { mint_y_label() }, config@)) by {
        assert(seeds.deep_view()[0] =~= (if is_x { mint_x_label() } else { mint_y_label() }));
        assert(seeds.deep_view()[1] =~= config@);
    }
    seeds
}

/// The bytes of an address as a vector.
pub fn address_to_vec(address: &[u8; 32]) -> (bytes: Vec<u8>)
    ensures
        bytes@ == address@,
{
    let mut bytes: Vec<u8> = Vec::new();
    let mut i: usize = 0;
    while i < 32
        invariant
            0 <= i <= 32,
            address@.len() == 32,
            bytes@ == address@.subrange(0, i as int),
        decreases 32 - i,
    {
        bytes.push(address[i]);
        i = i + 1;
        assert(bytes@ =~= address@.subrange(0, i as int));
    }
    assert(address@.subrange(0, 32) =~= address@);
    bytes
}

} // verus!
