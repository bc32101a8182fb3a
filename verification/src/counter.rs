use vstd::bytes::*;
use vstd::prelude::*;

use crate::bytes::{append_u64_le, read_u64_le};
use crate::error::ProgramError;

verus! {

/// The account types of the checking-accounts program, by discriminator.
#[derive(Debug, Clone, Copy, PartialEq, Eq)]
pub enum CheckingAccountsAccount {
    Counter,
}

impl CheckingAccountsAccount {
    /// The discriminator byte of the account type.
    pub fn discriminator(&self) -> (r: u8)
        ensures
            r == 0,
    {
        0
    }
}

/// A counter account's state.
#[derive(Debug, Clone, Copy, PartialEq, Eq)]
pub struct Counter {
    pub value: u64,
}

impl Counter {
    /// The layout bytes: the value, little-endian.
    pub open spec fn body(&self) -> Seq<u8> {
        spec_u64_to_le_bytes(self.value)
    }

    /// The state bytes (without the account header).
    pub fn to_bytes(&self) -> (r: Vec<u8>)
        ensures
            r@ == self.body(),
    {
        let mut out: Vec<u8> = Vec::new();
        append_u64_le(&mut out, self.value);
        out
    }

    /// Reads a counter from an account's data: the discriminator byte, seven
    /// header bytes, then the value; `InvalidAccountData` unless the first byte
    /// is the `Counter` discriminator and exactly 8 bytes follow the header.
    /// Indexing panics when the data is empty, or shorter than the header while
    /// its first byte is the discriminator; those inputs are excluded.
    pub fn try_from_bytes(data: &[u8]) -> (r: Result<Counter, ProgramError>)
        requires
            data@.len() >= 1,
            data@[0] == 0 ==> data@.len() >= 8,
        ensures
            (data@[0] == 0 && data@.len() == 16) ==> (r matches Ok(c) && c.body() == data@.subrange(
                8,
                16,
            )),
            !(data@[0] == 0 && data@.len() == 16) ==> r == Err::<Counter, ProgramError>(
                ProgramError::InvalidAccountData,
            ),
    {
        if data[0] != 0 || data.len() != 16 {
            return Err(ProgramError::InvalidAccountData);
        }
        let value = read_u64_le(data, 8);
        Ok(Counter { value })
    }
}

/// Law: the layout determines the counter.
pub proof fn lemma_counter_roundtrip(a: Counter, b: Counter)
    requires
        a.body() == b.body(),
    ensures
        a == b,
{
    lemma_auto_spec_u64_to_from_le_bytes();
    assert(spec_u64_from_le_bytes(spec_u64_to_le_bytes(a.value)) == a.value);
    assert(spec_u64_from_le_bytes(spec_u64_to_le_bytes(b.value)) == b.value);
}

} // verus!
