use vstd::prelude::*;

/// A 32-byte identity of a record or a signer, as the host runtime defines it.
pub use pinocchio::pubkey::Pubkey;

verus! {


/// The identity whose bytes are all zero.
pub open spec fn zero_key() -> Pubkey {
    vstd::array::spec_array_fill_for_copy_type::<u8, 32>(0u8)
}

/// The identity whose bytes are all zero.
pub fn empty_key() -> (key: Pubkey)
    ensures
        key == zero_key(),
        forall|i: int| 0 <= i < 32 ==> key[i] == 0,
{
    [0u8; 32]
}

/// Whether two identities are the same.
pub fn keys_equal(a: &Pubkey, b: &Pubkey) -> (same: bool)
    ensures
        same == (*a == *b),
{
    let mut i: usize = 0;
    while i < 32
        invariant
            i <= 32,
            forall|j: int| 0 <= j < i ==> a[j] == b[j],
        decreases 32 - i,
    {
        if a[i] != b[i] {
            return false;
        }
        i += 1;
    }
    assert(*a =~= *b);
    true
}

/// The unsigned 16-bit value that `bytes` holds at `offset`, least significant
/// byte first.
pub open spec fn spec_u16_le(bytes: Seq<u8>, offset: int) -> u16
    recommends
        0 <= offset,
        offset + 2 <= bytes.len(),
{
    (bytes[offset] + bytes[offset + 1] * 0x100) as u16
}

/// The unsigned 32-bit value that `bytes` holds at `offset`, least significant
/// byte first.
pub open spec fn spec_u32_le(bytes: Seq<u8>, offset: int) -> u32
    recommends
        0 <= offset,
        offset + 4 <= bytes.len(),
{
    (bytes[offset] + bytes[offset + 1] * 0x100 + bytes[offset + 2] * 0x1_0000 + bytes[offset + 3]
        * 0x100_0000) as u32
}

/// The unsigned 64-bit value that `bytes` holds at `offset`, least significant
/// byte first.
pub open spec fn spec_u64_le(bytes: Seq<u8>, offset: int) -> u64
    recommends
        0 <= offset,
        offset + 8 <= bytes.len(),
{
    (bytes[offset] + bytes[offset + 1] * 0x100 + bytes[offset + 2] * 0x1_0000 + bytes[offset + 3]
        * 0x100_0000 + bytes[offset + 4] * 0x1_0000_0000 + bytes[offset + 5] * 0x100_0000_0000
        + bytes[offset + 6] * 0x1_0000_0000_0000 + bytes[offset + 7] * 0x100_0000_0000_0000) as u64
}

/// The signed 64-bit value that `bytes` holds at `offset` in two's complement,
/// least significant byte first.
pub open spec fn spec_i64_le(bytes: Seq<u8>, offset: int) -> i64
    recommends
        0 <= offset,
        offset + 8 <= bytes.len(),
{
    let raw = spec_u64_le(bytes, offset);
    if raw <= i64::MAX {
        raw as i64
    } else {
        (raw - 0x1_0000_0000_0000_0000) as i64
    }
}

/// The 32 bytes that `bytes` holds from `offset` on.
pub open spec fn spec_key_at(bytes: Seq<u8>, offset: int) -> Seq<u8>
    recommends
        0 <= offset,
        offset + 32 <= bytes.len(),
{
    bytes.subrange(offset, offset + 32)
}

/// Reads a little-endian `u16` at `offset`.
pub fn read_u16_le(bytes: &[u8], offset: usize) -> (value: u16)
    requires
        offset + 2 <= bytes@.len(),
    ensures
        value == spec_u16_le(bytes@, offset as int),
{
    let b0: u16 = bytes[offset] as u16;
    let b1: u16 = bytes[offset + 1] as u16;
    b0 + b1 * 0x100
}

/// Reads a little-endian `u32` at `offset`.
pub fn read_u32_le(bytes: &[u8], offset: usize) -> (value: u32)
    requires
        offset + 4 <= bytes@.len(),
    ensures
        value == spec_u32_le(bytes@, offset as int),
{
    let b0: u32 = bytes[offset] as u32;
    let b1: u32 = bytes[offset + 1] as u32;
    let b2: u32 = bytes[offset + 2] as u32;
    let b3: u32 = bytes[offset + 3] as u32;
    b0 + b1 * 0x100 + b2 * 0x1_0000 + b3 * 0x100_0000
}

/// Reads a little-endian `u64` at `offset`.
pub fn read_u64_le(bytes: &[u8], offset: usize) -> (value: u64)
    requires
        offset + 8 <= bytes@.len(),
    ensures
        value == spec_u64_le(bytes@, offset as int),
{
    let b0: u64 = bytes[offset] as u64;
    let b1: u64 = bytes[offset + 1] as u64;
    let b2: u64 = bytes[offset + 2] as u64;
    let b3: u64 = bytes[offset + 3] as u64;
    let b4: u64 = bytes[offset + 4] as u64;
    let b5: u64 = bytes[offset + 5] as u64;
    let b6: u64 = bytes[offset + 6] as u64;
    let b7: u64 = bytes[offset + 7] as u64;
    b0 + b1 * 0x100 + b2 * 0x1_0000 + b3 * 0x100_0000 + b4 * 0x1_0000_0000 + b5
        * 0x100_0000_0000 + b6 * 0x1_0000_0000_0000 + b7 * 0x100_0000_0000_0000
}

/// Reads a little-endian two's-complement `i64` at `offset`.
pub fn read_i64_le(bytes: &[u8], offset: usize) -> (value: i64)
    requires
        offset + 8 <= bytes@.len(),
    ensures
        value == spec_i64_le(bytes@, offset as int),
{
    let raw: u64 = read_u64_le(bytes, offset);
    if raw <= 0x7fff_ffff_ffff_ffff {
        raw as i64
    } else {
        let low: u64 = raw - 0x8000_0000_0000_0000;
        (low as i64) + i64::MIN
    }
}

/// Reads the 32-byte identity at `offset`.
pub fn read_key(bytes: &[u8], offset: usize) -> (key: Pubkey)
    requires
        offset + 32 <= bytes@.len(),
    ensures
        key@ == spec_key_at(bytes@, offset as int),
{
    let mut key: Pubkey = [0u8; 32];
    let total: usize = bytes.len();
    let mut i: usize = 0;
    while i < 32
        invariant
            i <= 32,
            total == bytes@.len(),
            offset + 32 <= total,
            forall|j: int| 0 <= j < i ==> key[j] == bytes@[offset + j],
        decreases 32 - i,
    {
        key[i] = bytes[offset + i];
        i += 1;
    }
    assert(key@ =~= spec_key_at(bytes@, offset as int));
    key
}

} // verus!
