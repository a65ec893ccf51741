use vstd::prelude::*;

use crate::instructions::{u32_from_le, u32_le_bytes};

verus! {

/// The identity of a program or of an account's owner: a 32-byte key.
#[derive(Debug, Clone, Copy)]
pub struct Identity {
    pub bytes: [u8; 32],
}

impl Identity {
    /// Whether the two keys hold the same bytes.
    pub fn same_as(&self, other: &Identity) -> (r: bool)
        ensures
            r == (self.bytes@ == other.bytes@),
    {
        let mut i: usize = 0;
        while i < 32
            invariant
                i <= 32,
                self.bytes@.len() == 32,
                other.bytes@.len() == 32,
                forall|j: int| 0 <= j < i ==> self.bytes@[j] == other.bytes@[j],
            decreases 32 - i,
        {
            if self.bytes[i] != other.bytes[i] {
                return false;
            }
            i = i + 1;
        }
        assert(self.bytes@ =~= other.bytes@);
        true
    }
}

/// An account as the program sees it: who owns it, and its data region.
#[derive(Debug)]
pub struct Account {
    pub owner: Identity,
    pub data: Vec<u8>,
}

/// The counter that a data region holds in its first four bytes.
pub open spec fn counter_of(data: Seq<u8>) -> u32 {
    u32_from_le(data.subrange(0, 4)) as u32
}

/// A data region with `counter` written over its first four bytes and the rest kept.
pub open spec fn with_counter(data: Seq<u8>, counter: u32) -> Seq<u8> {
    u32_le_bytes(counter) + data.subrange(4, data.len() as int)
}

/// Relies on borsh's `BorshDeserialize` for `u32`: it reads four bytes
/// little-endian from the front of the slice, and fails when fewer are there.
#[verifier::external_body]
fn borsh_read_u32(data: &[u8]) -> (r: Option<u32>)
    ensures
        data@.len() >= 4 ==> r == Some(u32_from_le(data@.subrange(0, 4)) as u32),
        data@.len() < 4 ==> r is None,
{
    let mut reader: &[u8] = data;
    <u32 as borsh::BorshDeserialize>::deserialize(&mut reader).ok()
}

/// Relies on borsh's `BorshSerialize` for `u32`: it writes the four
/// little-endian bytes with `write_all`, which on a slice of at least four
/// bytes overwrites its first four and leaves the rest.
#[verifier::external_body]
fn borsh_write_u32(dst: &mut Vec<u8>, v: u32)
    requires
        old(dst)@.len() >= 4,
    ensures
        final(dst)@ == u32_le_bytes(v) + old(dst)@.subrange(4, old(dst)@.len() as int),
{
    let mut writer: &mut [u8] = dst.as_mut_slice();
    let _ = borsh::BorshSerialize::serialize(&v, &mut writer);
}

/// The record that the program keeps in an account.
#[derive(Debug, Clone, Copy, PartialEq, Eq, Structural)]
pub struct GreetingAccount {
    /// How many times the account has been greeted.
    pub counter: u32,
}

impl GreetingAccount {
    /// Reads the record from the front of a data region; `None` when the
    /// region is shorter than the record.
    pub fn load(data: &[u8]) -> (r: Option<GreetingAccount>)
        ensures
            data@.len() >= 4 ==> r == Some(GreetingAccount { counter: counter_of(data@) }),
            data@.len() < 4 ==> r is None,
    {
        match borsh_read_u32(data) {
            Some(counter) => Some(GreetingAccount { counter }),
            None => None,
        }
    }

    /// Writes the record over the front of a data region, keeping its length
    /// and every byte past the record.
    pub fn store(&self, data: &mut Vec<u8>)
        requires
            old(data)@.len() >= 4,
        ensures
            final(data)@ == with_counter(old(data)@, self.counter),
            final(data)@.len() == old(data)@.len(),
    {
        borsh_write_u32(data, self.counter);
    }
}

} // verus!
