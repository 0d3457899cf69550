//! Packing of an (address, length) pair into the single 64-bit word that
//! crosses the guest/host boundary.

use vstd::prelude::*;

verus! {

/// The word that carries `address` in its high half and `length` in its low half.
pub open spec fn packed(address: u32, length: u32) -> u64 {
    (address as int * 0x1_0000_0000 + length as int) as u64
}

/// The address carried by `word`: its high 32 bits.
pub open spec fn address_of(word: u64) -> u32 {
    (word as int / 0x1_0000_0000) as u32
}

/// The length carried by `word`: its low 32 bits.
pub open spec fn length_of(word: u64) -> u32 {
    (word as int % 0x1_0000_0000) as u32
}

/// A region of guest memory named by a packed word.
#[derive(Clone, Copy, Debug, PartialEq, Eq, Structural)]
pub struct Region {
    pub address: u32,
    pub length: u32,
}

/// What a packed word received from the host stands for: a region to read,
/// or nothing when its address or its length is zero.
pub open spec fn region_of(word: u64) -> Option<Region> {
    if address_of(word) == 0 || length_of(word) == 0 {
        None
    } else {
        Some(Region { address: address_of(word), length: length_of(word) })
    }
}

/// Combines an address and a length into one word.
pub fn pack(address: u32, length: u32) -> (word: u64)
    ensures
        word == packed(address, length),
        address_of(word) == address,
        length_of(word) == length,
{
    let high: u64 = (address as u64) << 32;
    let word: u64 = high | (length as u64);
    assert(word == (address as u64) * 0x1_0000_0000 + (length as u64)) by (bit_vector)
        requires
            high == (address as u64) << 32,
            word == high | (length as u64),
    ;
    word
}

/// Splits a word into the address and the length it carries.
pub fn unpack(word: u64) -> (pair: (u32, u32))
    ensures
        pair.0 == address_of(word),
        pair.1 == length_of(word),
        packed(pair.0, pair.1) == word,
{
    let high: u64 = word >> 32;
    let low: u64 = word & 0xFFFF_FFFF;
    assert(high == word / 0x1_0000_0000 && high <= 0xFFFF_FFFF) by (bit_vector)
        requires
            high == word >> 32,
    ;
    assert(low == word % 0x1_0000_0000 && low <= 0xFFFF_FFFF) by (bit_vector)
        requires
            low == word & 0xFFFF_FFFF,
    ;
    (high as u32, low as u32)
}

/// Reads a word handed back by the host.  A word whose address or length is
/// zero names no data and yields `None`, so that it is never dereferenced.
pub fn received_region(word: u64) -> (region: Option<Region>)
    ensures
        region == region_of(word),
{
    let (address, length) = unpack(word);
    if address == 0 || length == 0 {
        None
    } else {
        Some(Region { address, length })
    }
}

/// Packing and then unpacking gives back the pair that was packed.
pub proof fn lemma_unpack_pack(address: u32, length: u32)
    ensures
        address_of(packed(address, length)) == address,
        length_of(packed(address, length)) == length,
{
}

/// Unpacking and then packing gives back the word that was unpacked.
pub proof fn lemma_pack_unpack(word: u64)
    ensures
        packed(address_of(word), length_of(word)) == word,
{
}

} // verus!
