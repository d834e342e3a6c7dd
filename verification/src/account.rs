//! A plain-value record of an account as the program sees it.
use vstd::prelude::*;

verus! {

/// The state of one account handed to the program: its address, the program
/// that owns it, whether it signed the transaction, whether it may be
/// written, its lamports and its data.
#[derive(Debug)]
pub struct AccountRecord {
    pub address: [u8; 32],
    pub owner: [u8; 32],
    pub is_signer: bool,
    pub is_writable: bool,
    pub lamports: u64,
    pub data: Vec<u8>,
}

/// Compares two addresses byte by byte.
pub fn same_address(a: &[u8; 32], b: &[u8; 32]) -> (equal: bool)
    ensures
        equal == (a@ == b@),
{
    let mut i: usize = 0;
    while i < 32
        invariant
            0 <= i <= 32,
            a@.len() == 32,
            b@.len() == 32,
            forall|j: int| 0 <= j < i ==> a@[j] == b@[j],
        decreases 32 - i,
    {
        if a[i] != b[i] {
            assert(a@[i as int] != b@[i as int]);
            return false;
        }
        i = i + 1;
    }
    assert(a@ =~= b@);
    true
}

/// Copies the 32 bytes that start at `offset` into an address.
pub fn address_at(bytes: &[u8], offset: usize) -> (address: [u8; 32])
    requires
        offset + 32 <= bytes@.len(),
    ensures
        address@ == bytes@.subrange(offset as int, offset + 32),
{
    let mut address = [0u8; 32];
    let len = bytes.len();
    let mut i: usize = 0;
    while i < 32
        invariant
            0 <= i <= 32,
            len == bytes@.len(),
            offset + 32 <= bytes@.len(),
            address@.len() == 32,
            forall|j: int| 0 <= j < i ==> address@[j] == bytes@[offset + j],
        decreases 32 - i,
    {
        address[i] = bytes[offset + i];
        i = i + 1;
    }
    assert(address@ =~= bytes@.subrange(offset as int, offset + 32));
    address
}

impl AccountRecord {
    /// The length of the account's data.
    pub fn data_len(&self) -> (len: usize)
        ensures
            len == self.data@.len(),
    {
        self.data.len()
    }

    /// Whether the account is owned by `program`.
    pub fn owned_by(&self, program: &[u8; 32]) -> (owned: bool)
        ensures
            owned == (self.owner@ == program@),
    {
        same_address(&self.owner, program)
    }
}

} // verus!
