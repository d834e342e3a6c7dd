//! Protocol configuration, stored in the config account.
use vstd::prelude::*;
use vstd::bytes::{spec_u64_from_le_bytes, spec_u64_to_le_bytes, u64_from_le_bytes};

use crate::account::{address_at, AccountRecord};
use crate::error::FaucetError;
use crate::ids::{program_address, program_id};

verus! {

/// The configuration of the faucet: the two token mints with their decimals,
/// the two vault token accounts, the protocol version and the dispense limit
/// (little-endian).
///
/// Its byte layout has no padding and an alignment of one: `mint_x` (32
/// bytes), `x_decimal` (1), `mint_y` (32), `y_decimal` (1), `vault_x_ata` (32),
/// `vault_y_ata` (32), `version` (1) and `limit` (8), 139 bytes in all. The
/// first 131 bytes are what initialization stores and what clients read back.
#[derive(Debug, Clone, Copy, PartialEq, Eq)]
pub struct Config {
    pub mint_x: [u8; 32],
    pub x_decimal: u8,
    pub mint_y: [u8; 32],
    pub y_decimal: u8,
    pub vault_x_ata: [u8; 32],
    pub vault_y_ata: [u8; 32],
    pub version: u8,
    pub limit: [u8; 8],
}

/// The mathematical view of a [`Config`]: its fields as byte sequences.
pub struct ConfigView {
    pub mint_x: Seq<u8>,
    pub x_decimal: u8,
    pub mint_y: Seq<u8>,
    pub y_decimal: u8,
    pub vault_x_ata: Seq<u8>,
    pub vault_y_ata: Seq<u8>,
    pub version: u8,
    pub limit: Seq<u8>,
}

impl ConfigView {
    /// Every field has the length of its place in the layout.
    pub open spec fn well_formed(self) -> bool {
        &&& self.mint_x.len() == 32
        &&& self.mint_y.len() == 32
        &&& self.vault_x_ata.len() == 32
        &&& self.vault_y_ata.len() == 32
        &&& self.limit.len() == 8
    }

    /// The stored bytes of the configuration.
    pub open spec fn encode(self) -> Seq<u8> {
        self.mint_x + seq![self.x_decimal] + self.mint_y + seq![self.y_decimal] + self.vault_x_ata
            + self.vault_y_ata + seq![self.version] + self.limit
    }

    /// The dispense limit, read as a little-endian integer.
    pub open spec fn limit_value(self) -> u64 {
        spec_u64_from_le_bytes(self.limit)
    }
}

/// The configuration that the first 139 stored bytes of `bytes` hold.
pub open spec fn decode_config(bytes: Seq<u8>) -> ConfigView {
    ConfigView {
        mint_x: bytes.subrange(0, 32),
        x_decimal: bytes[32],
        mint_y: bytes.subrange(33, 65),
        y_decimal: bytes[65],
        vault_x_ata: bytes.subrange(66, 98),
        vault_y_ata: bytes.subrange(98, 130),
        version: bytes[130],
        limit: bytes.subrange(131, 139),
    }
}

impl View for Config {
    type V = ConfigView;

    open spec fn view(&self) -> ConfigView {
        ConfigView {
            mint_x: self.mint_x@,
            x_decimal: self.x_decimal,
            mint_y: self.mint_y@,
            y_decimal: self.y_decimal,
            vault_x_ata: self.vault_x_ata@,
            vault_y_ata: self.vault_y_ata@,
            version: self.version,
            limit: self.limit@,
        }
    }
}

/// `u64::to_le_bytes`: the eight bytes of `x`, least significant first.
#[verifier::external_body]
fn u64_le_bytes(x: u64) -> (bytes: [u8; 8])
    ensures
        bytes@ == spec_u64_to_le_bytes(x),
{
    x.to_le_bytes()
}

/// Copies the 8 bytes that start at `offset`.
fn eight_bytes_at(bytes: &[u8], offset: usize) -> (out: [u8; 8])
    requires
        offset + 8 <= bytes@.len(),
    ensures
        out@ == bytes@.subrange(offset as int, offset + 8),
{
    let mut out = [0u8; 8];
    let len = bytes.len();
    let mut i: usize = 0;
    while i < 8
        invariant
            0 <= i <= 8,
            len == bytes@.len(),
            offset + 8 <= bytes@.len(),
            out@.len() == 8,
            forall|j: int| 0 <= j < i ==> out@[j] == bytes@[offset + j],
        decreases 8 - i,
    {
        out[i] = bytes[offset + i];
        i = i + 1;
    }
    assert(out@ =~= bytes@.subrange(offset as int, offset + 8));
    out
}

impl Config {
    /// The size of the stored configuration in bytes.
    pub const LEN: usize = 139;

    /// The alignment of the stored configuration: every field is made of bytes.
    pub const ALIGN: usize = 1;

    /// Reads the configuration from its 139 stored bytes.
    ///
    /// Fails with `InvalidAccountData` exactly when `bytes` does not have the
    /// configuration's length. (With an alignment of one, any placement of the
    /// bytes is aligned.)
    pub fn from_bytes(bytes: &[u8]) -> (result: Result<Config, FaucetError>)
        ensures
            bytes@.len() != 139 ==> result == Err::<Config, FaucetError>(FaucetError::InvalidAccountData),
            bytes@.len() == 139 ==> (result matches Ok(config) && config@ == decode_config(bytes@)),
    {
        if bytes.len() != Self::LEN {
            return Err(FaucetError::InvalidAccountData);
        }
        Ok(Self::from_bytes_unchecked(bytes))
    }

    /// Reads the configuration from the start of bytes that the caller has
    /// checked to hold at least the configuration's length.
    pub fn from_bytes_unchecked(bytes: &[u8]) -> (config: Config)
        requires
            bytes@.len() >= 139,
        ensures
            config@ == decode_config(bytes@),
            config.mint_x@ == bytes@.subrange(0, 32),
            config.x_decimal == bytes@[32],
            config.mint_y@ == bytes@.subrange(33, 65),
            config.y_decimal == bytes@[65],
            config.vault_x_ata@ == bytes@.subrange(66, 98),
            config.vault_y_ata@ == bytes@.subrange(98, 130),
            config.version == bytes@[130],
            config.limit@ == bytes@.subrange(131, 139),
    {
        Config {
            mint_x: address_at(bytes, 0),
            x_decimal: bytes[32],
            mint_y: address_at(bytes, 33),
            y_decimal: bytes[65],
            vault_x_ata: address_at(bytes, 66),
            vault_y_ata: address_at(bytes, 98),
            version: bytes[130],
            limit: eight_bytes_at(bytes, 131),
        }
    }

    /// Reads the configuration for writing, from the start of bytes that the
    /// caller has checked to hold at least the configuration's length; changes
    /// are stored back with [`Config::save`].
    pub fn from_bytes_unchecked_mut(bytes: &[u8]) -> (config: Config)
        requires
            bytes@.len() >= 139,
        ensures
            config@ == decode_config(bytes@),
    {
        Self::from_bytes_unchecked(bytes)
    }

    /// The 139 bytes that store this configuration.
    pub fn to_bytes(&self) -> (bytes: Vec<u8>)
        ensures
            bytes@ == self@.encode(),
            bytes@.len() == 139,
            bytes@.subrange(0, 32) == self.mint_x@,
            bytes@[32] == self.x_decimal,
            bytes@.subrange(33, 65) == self.mint_y@,
            bytes@[65] == self.y_decimal,
            bytes@.subrange(66, 98) == self.vault_x_ata@,
            bytes@.subrange(98, 130) == self.vault_y_ata@,
            bytes@[130] == self.version,
            bytes@.subrange(131, 139) == self.limit@,
    {
        proof {
            lemma_config_view_well_formed(*self);
            lemma_config_layout(self@);
        }
        let mut bytes: Vec<u8> = Vec::new();
        Self::push_address(&mut bytes, &self.mint_x);
        bytes.push(self.x_decimal);
        Self::push_address(&mut bytes, &self.mint_y);
        bytes.push(self.y_decimal);
        Self::push_address(&mut bytes, &self.vault_x_ata);
        Self::push_address(&mut bytes, &self.vault_y_ata);
        bytes.push(self.version);
        let ghost before_limit = bytes@;
        let mut i: usize = 0;
        while i < 8
            invariant
                0 <= i <= 8,
                bytes@ == before_limit + self.limit@.subrange(0, i as int),
            decreases 8 - i,
        {
            bytes.push(self.limit[i]);
            i = i + 1;
            assert(bytes@ =~= before_limit + self.limit@.subrange(0, i as int));
        }
        assert(self.limit@.subrange(0, 8) =~= self.limit@);
        assert(bytes@ =~= self@.encode());
        bytes
    }

    fn push_address(bytes: &mut Vec<u8>, address: &[u8; 32])
        ensures
            final(bytes)@ == old(bytes)@ + address@,
    {
        let ghost start = bytes@;
        let mut i: usize = 0;
        while i < 32
            invariant
                0 <= i <= 32,
                address@.len() == 32,
                bytes@ == start + address@.subrange(0, i as int),
            decreases 32 - i,
        {
            bytes.push(address[i]);
            i = i + 1;
            assert(bytes@ =~= start + address@.subrange(0, i as int));
        }
        assert(address@.subrange(0, 32) =~= address@);
    }

    /// Whether the account has the configuration's size and is owned by this
    /// program; the checks of [`Config::load`].
    fn check_account(account: &AccountRecord) -> (result: Result<(), FaucetError>)
        ensures
            result is Ok <==> (account.data@.len() == 139 && account.owner@ == program_address()),
            result is Err ==> result == Err::<(), FaucetError>(FaucetError::InvalidAccountData),
    {
        if account.data_len() != Self::LEN {
            return Err(FaucetError::InvalidAccountData);
        }
        let id = program_id();
        if !account.owned_by(&id) {
            return Err(FaucetError::InvalidAccountData);
        }
        Ok(())
    }

    /// Loads the configuration stored in `account`.
    ///
    /// Fails with `InvalidAccountData` when the account's data does not have
    /// the configuration's size or the account is not owned by this program.
    pub fn load(account: &AccountRecord) -> (result: Result<Config, FaucetError>)
        ensures
            result is Ok <==> (account.data@.len() == 139 && account.owner@ == program_address()),
            result is Err ==> result == Err::<Config, FaucetError>(FaucetError::InvalidAccountData),
            result matches Ok(config) ==> config@ == decode_config(account.data@),
    {
        Self::check_account(account)?;
        Ok(Self::from_bytes_unchecked(account.data.as_slice()))
    }

    /// Loads the configuration stored in `account` without the borrow guard;
    /// it performs the same size and owner checks as [`Config::load`].
    pub fn load_unchecked(account: &AccountRecord) -> (result: Result<Config, FaucetError>)
        ensures
            result is Ok <==> (account.data@.len() == 139 && account.owner@ == program_address()),
            result is Err ==> result == Err::<Config, FaucetError>(FaucetError::InvalidAccountData),
            result matches Ok(config) ==> config@ == decode_config(account.data@),
    {
        Self::check_account(account)?;
        Ok(Self::from_bytes_unchecked(account.data.as_slice()))
    }

    /// Loads the configuration stored in `account` for writing; after the
    /// same checks as [`Config::load`], changes are stored back with
    /// [`Config::save`].
    pub fn load_mut(account: &AccountRecord) -> (result: Result<Config, FaucetError>)
        ensures
            result is Ok <==> (account.data@.len() == 139 && account.owner@ == program_address()),
            result is Err ==> result == Err::<Config, FaucetError>(FaucetError::InvalidAccountData),
            result matches Ok(config) ==> config@ == decode_config(account.data@),
    {
        Self::check_account(account)?;
        Ok(Self::from_bytes_unchecked_mut(account.data.as_slice()))
    }

    /// Stores this configuration into the account's data.
    pub fn save(&self, account: &mut AccountRecord)
        ensures
            final(account).data@ == self@.encode(),
            final(account).address == old(account).address,
            final(account).owner == old(account).owner,
            final(account).is_signer == old(account).is_signer,
            final(account).is_writable == old(account).is_writable,
            final(account).lamports == old(account).lamports,
    {
        account.data = self.to_bytes();
    }

    /// The dispense limit.
    pub fn limit(&self) -> (limit: u64)
        ensures
            limit == self@.limit_value(),
    {
        u64_from_le_bytes(self.limit.as_slice())
    }

    /// The mint of token x.
    pub fn mint_x(&self) -> (address: &[u8; 32])
        ensures
            *address == self.mint_x,
    {
        &self.mint_x
    }

    /// The mint of token y.
    pub fn mint_y(&self) -> (address: &[u8; 32])
        ensures
            *address == self.mint_y,
    {
        &self.mint_y
    }

    /// The decimals of token x.
    pub fn x_decimal(&self) -> (decimals: u8)
        ensures
            decimals == self.x_decimal,
    {
        self.x_decimal
    }

    /// The decimals of token y.
    pub fn y_decimal(&self) -> (decimals: u8)
        ensures
            decimals == self.y_decimal,
    {
        self.y_decimal
    }

    /// The vault token account of token x.
    pub fn vault_x_ata(&self) -> (address: &[u8; 32])
        ensures
            *address == self.vault_x_ata,
    {
        &self.vault_x_ata
    }

    /// The vault token account of token y.
    pub fn vault_y_ata(&self) -> (address: &[u8; 32])
        ensures
            *address == self.vault_y_ata,
    {
        &self.vault_y_ata
    }

    /// The protocol version.
    pub fn version(&self) -> (version: u8)
        ensures
            version == self.version,
    {
        self.version
    }

    /// Sets the dispense limit; always succeeds.
    pub fn set_limit(&mut self, limit: u64) -> (result: Result<(), FaucetError>)
        ensures
            result is Ok,
            final(self)@ == (ConfigView { limit: spec_u64_to_le_bytes(limit), ..old(self)@ }),
    {
        self.limit = u64_le_bytes(limit);
        Ok(())
    }

    /// Sets the mint of token x; always succeeds.
    pub fn set_mint_x(&mut self, mint_x: [u8; 32]) -> (result: Result<(), FaucetError>)
        ensures
            result is Ok,
            *final(self) == (Config { mint_x, ..*old(self) }),
    {
        self.mint_x = mint_x;
        Ok(())
    }

    /// Sets the mint of token y; always succeeds.
    pub fn set_mint_y(&mut self, mint_y: [u8; 32]) -> (result: Result<(), FaucetError>)
        ensures
            result is Ok,
            *final(self) == (Config { mint_y, ..*old(self) }),
    {
        self.mint_y = mint_y;
        Ok(())
    }

    /// Sets the decimals of token x; always succeeds.
    pub fn set_x_decimal(&mut self, x_decimal: u8) -> (result: Result<(), FaucetError>)
        ensures
            result is Ok,
            *final(self) == (Config { x_decimal, ..*old(self) }),
    {
        self.x_decimal = x_decimal;
        Ok(())
    }

    /// Sets the decimals of token y; always succeeds.
    pub fn set_y_decimal(&mut self, y_decimal: u8) -> (result: Result<(), FaucetError>)
        ensures
            result is Ok,
            *final(self) == (Config { y_decimal, ..*old(self) }),
    {
        self.y_decimal = y_decimal;
        Ok(())
    }

    /// Sets the vault token account of token x; always succeeds.
    pub fn set_vault_x_ata(&mut self, vault_x_ata: [u8; 32]) -> (result: Result<(), FaucetError>)
        ensures
            result is Ok,
            *final(self) == (Config { vault_x_ata, ..*old(self) }),
    {
        self.vault_x_ata = vault_x_ata;
        Ok(())
    }

    /// Sets the vault token account of token y; always succeeds.
    pub fn set_vault_y_ata(&mut self, vault_y_ata: [u8; 32]) -> (result: Result<(), FaucetError>)
        ensures
            result is Ok,
            *final(self) == (Config { vault_y_ata, ..*old(self) }),
    {
        self.vault_y_ata = vault_y_ata;
        Ok(())
    }

    /// Sets the protocol version; always succeeds.
    pub fn set_version(&mut self, version: u8) -> (result: Result<(), FaucetError>)
        ensures
            result is Ok,
            *final(self) == (Config { version, ..*old(self) }),
    {
        self.version = version;
        Ok(())
    }

    /// Sets what initialization stores: the mints with their decimals, the
    /// vaults and the version; the dispense limit is left as it is. Always
    /// succeeds.
    pub fn set_inner(
        &mut self,
        mint_x: [u8; 32],
        x_decimal: u8,
        mint_y: [u8; 32],
        y_decimal: u8,
        vault_x_ata: [u8; 32],
        vault_y_ata: [u8; 32],
        version: u8,
    ) -> (result: Result<(), FaucetError>)
        ensures
            result is Ok,
            *final(self) == (Config {
                mint_x,
                x_decimal,
                mint_y,
                y_decimal,
                vault_x_ata,
                vault_y_ata,
                version,
                limit: old(self).limit,
            }),
    {
        let _ = self.set_mint_x(mint_x);
        let _ = self.set_x_decimal(x_decimal);
        let _ = self.set_mint_y(mint_y);
        let _ = self.set_y_decimal(y_decimal);
        let _ = self.set_vault_x_ata(vault_x_ata);
        let _ = self.set_vault_y_ata(vault_y_ata);
        let _ = self.set_version(version);
        Ok(())
    }
}

/// Every configuration has fields of the layout's lengths.
pub proof fn lemma_config_view_well_formed(config: Config)
    ensures
        config@.well_formed(),
{
}

/// Storing a configuration and reading it back gives the same configuration;
/// the stored form is exactly 139 bytes long.
pub proof fn lemma_decode_encode(view: ConfigView)
    requires
        view.well_formed(),
    ensures
        view.encode().len() == 139,
        decode_config(view.encode()) == view,
{
    let b = view.encode();
    assert(b.subrange(0, 32) =~= view.mint_x);
    assert(b.subrange(33, 65) =~= view.mint_y);
    assert(b.subrange(66, 98) =~= view.vault_x_ata);
    assert(b.subrange(98, 130) =~= view.vault_y_ata);
    assert(b.subrange(131, 139) =~= view.limit);
}

/// Reading 139 stored bytes and storing the result gives back the same bytes.
pub proof fn lemma_encode_decode(bytes: Seq<u8>)
    requires
        bytes.len() == 139,
    ensures
        decode_config(bytes).well_formed(),
        decode_config(bytes).encode() == bytes,
{
    assert(decode_config(bytes).encode() =~= bytes);
}

/// The dispense limit read after setting it is the value that was set.
pub proof fn lemma_limit_set_get(view: ConfigView, limit: u64)
    ensures
        (ConfigView { limit: spec_u64_to_le_bytes(limit), ..view }).limit_value() == limit,
        view.well_formed() ==> (ConfigView { limit: spec_u64_to_le_bytes(limit), ..view }).well_formed(),
{
    vstd::bytes::lemma_auto_spec_u64_to_from_le_bytes();
}

/// The stored configuration is the plain concatenation of its fields: each
/// field's bytes stand verbatim at its offset (mint x at 0, x decimals at 32,
/// mint y at 33, y decimals at 65, vault x at 66, vault y at 98, version at
/// 130, limit at 131), and reading bytes takes each field from its offset.
pub proof fn lemma_config_layout(view: ConfigView)
    requires
        view.well_formed(),
    ensures
        view.encode().len() == 139,
        view.encode().subrange(0, 32) == view.mint_x,
        view.encode()[32] == view.x_decimal,
        view.encode().subrange(33, 65) == view.mint_y,
        view.encode()[65] == view.y_decimal,
        view.encode().subrange(66, 98) == view.vault_x_ata,
        view.encode().subrange(98, 130) == view.vault_y_ata,
        view.encode()[130] == view.version,
        view.encode().subrange(131, 139) == view.limit,
        forall|bytes: Seq<u8>|
            bytes.len() >= 139 ==> {
                let read = #[trigger] decode_config(bytes);
                &&& read.mint_x == bytes.subrange(0, 32)
                &&& read.x_decimal == bytes[32]
                &&& read.mint_y == bytes.subrange(33, 65)
                &&& read.y_decimal == bytes[65]
                &&& read.vault_x_ata == bytes.subrange(66, 98)
                &&& read.vault_y_ata == bytes.subrange(98, 130)
                &&& read.version == bytes[130]
                &&& read.limit == bytes.subrange(131, 139)
            },
{
    let b = view.encode();
    assert(b.subrange(0, 32) =~= view.mint_x);
    assert(b.subrange(33, 65) =~= view.mint_y);
    assert(b.subrange(66, 98) =~= view.vault_x_ata);
    assert(b.subrange(98, 130) =~= view.vault_y_ata);
    assert(b.subrange(131, 139) =~= view.limit);
}

} // verus!
