//! Byte-order handling for the archive header fields.
//!
//! Archives may store their integers little- or big-endian; the parser tries
//! both. The decoding functions are specified against the place-value sums
//! below, so everything downstream speaks about bytes, not machine casts.

use vstd::prelude::*;

verus! {

/// Value of four bytes read as a little-endian 32-bit integer.
pub open spec fn le_u32(b: Seq<u8>) -> int
    recommends
        b.len() == 4,
{
    b[0] + b[1] * 0x100 + b[2] * 0x1_0000 + b[3] * 0x100_0000
}

/// Value of four bytes read as a big-endian 32-bit integer.
pub open spec fn be_u32(b: Seq<u8>) -> int
    recommends
        b.len() == 4,
{
    b[3] + b[2] * 0x100 + b[1] * 0x1_0000 + b[0] * 0x100_0000
}

/// Value of eight bytes read as a little-endian 64-bit integer.
pub open spec fn le_u64(b: Seq<u8>) -> int
    recommends
        b.len() == 8,
{
    b[0] + b[1] * 0x100 + b[2] * 0x1_0000 + b[3] * 0x100_0000 + b[4] * 0x1_0000_0000
        + b[5] * 0x100_0000_0000 + b[6] * 0x1_0000_0000_0000 + b[7] * 0x100_0000_0000_0000
}

/// Value of eight bytes read as a big-endian 64-bit integer.
pub open spec fn be_u64(b: Seq<u8>) -> int
    recommends
        b.len() == 8,
{
    b[7] + b[6] * 0x100 + b[5] * 0x1_0000 + b[4] * 0x100_0000 + b[3] * 0x1_0000_0000
        + b[2] * 0x100_0000_0000 + b[1] * 0x1_0000_0000_0000 + b[0] * 0x100_0000_0000_0000
}

/// Byte order used by one archive.
#[derive(Debug, Clone, Copy, PartialEq, Eq, Structural)]
pub enum ArchiveEndian {
    Little,
    Big,
}

impl ArchiveEndian {
    /// Value of four bytes under this byte order.
    pub open spec fn spec_u32(self, b: Seq<u8>) -> int {
        match self {
            ArchiveEndian::Little => le_u32(b),
            ArchiveEndian::Big => be_u32(b),
        }
    }

    /// Value of eight bytes under this byte order.
    pub open spec fn spec_u64(self, b: Seq<u8>) -> int {
        match self {
            ArchiveEndian::Little => le_u64(b),
            ArchiveEndian::Big => be_u64(b),
        }
    }

    /// Decodes four bytes into a 32-bit integer under this byte order.
    pub fn decode_u32(self, bytes: [u8; 4]) -> (r: u32)
        ensures
            r == self.spec_u32(bytes@),
    {
        let b0 = bytes[0] as u32;
        let b1 = bytes[1] as u32;
        let b2 = bytes[2] as u32;
        let b3 = bytes[3] as u32;
        match self {
            ArchiveEndian::Little => b0 + b1 * 0x100 + b2 * 0x1_0000 + b3 * 0x100_0000,
            ArchiveEndian::Big => b3 + b2 * 0x100 + b1 * 0x1_0000 + b0 * 0x100_0000,
        }
    }

    /// Decodes eight bytes into a 64-bit integer under this byte order.
    pub fn decode_u64(self, bytes: [u8; 8]) -> (r: u64)
        ensures
            r == self.spec_u64(bytes@),
    {
        let b0 = bytes[0] as u64;
        let b1 = bytes[1] as u64;
        let b2 = bytes[2] as u64;
        let b3 = bytes[3] as u64;
        let b4 = bytes[4] as u64;
        let b5 = bytes[5] as u64;
        let b6 = bytes[6] as u64;
        let b7 = bytes[7] as u64;
        match self {
            ArchiveEndian::Little => b0 + b1 * 0x100 + b2 * 0x1_0000 + b3 * 0x100_0000 + b4
                * 0x1_0000_0000 + b5 * 0x100_0000_0000 + b6 * 0x1_0000_0000_0000 + b7
                * 0x100_0000_0000_0000,
            ArchiveEndian::Big => b7 + b6 * 0x100 + b5 * 0x1_0000 + b4 * 0x100_0000 + b3
                * 0x1_0000_0000 + b2 * 0x100_0000_0000 + b1 * 0x1_0000_0000_0000 + b0
                * 0x100_0000_0000_0000,
        }
    }

    /// Encodes a 32-bit integer into four bytes under this byte order.
    pub fn encode_u32(self, value: u32) -> (r: [u8; 4])
        ensures
            self.spec_u32(r@) == value,
    {
        let b0 = (value & 0xff) as u8;
        let b1 = ((value >> 8) & 0xff) as u8;
        let b2 = ((value >> 16) & 0xff) as u8;
        let b3 = ((value >> 24) & 0xff) as u8;
        proof {
            assert(b0 + b1 * 0x100 + b2 * 0x1_0000 + b3 * 0x100_0000 == value) by (bit_vector)
                requires
                    b0 == (value & 0xff) as u8,
                    b1 == ((value >> 8) & 0xff) as u8,
                    b2 == ((value >> 16) & 0xff) as u8,
                    b3 == ((value >> 24) & 0xff) as u8,
            ;
        }
        match self {
            ArchiveEndian::Little => [b0, b1, b2, b3],
            ArchiveEndian::Big => [b3, b2, b1, b0],
        }
    }

    /// Encodes a 64-bit integer into eight bytes under this byte order.
    pub fn encode_u64(self, value: u64) -> (r: [u8; 8])
        ensures
            self.spec_u64(r@) == value,
    {
        let b0 = (value & 0xff) as u8;
        let b1 = ((value >> 8) & 0xff) as u8;
        let b2 = ((value >> 16) & 0xff) as u8;
        let b3 = ((value >> 24) & 0xff) as u8;
        let b4 = ((value >> 32) & 0xff) as u8;
        let b5 = ((value >> 40) & 0xff) as u8;
        let b6 = ((value >> 48) & 0xff) as u8;
        let b7 = ((value >> 56) & 0xff) as u8;
        proof {
            assert(b0 + b1 * 0x100 + b2 * 0x1_0000 + b3 * 0x100_0000 + b4 * 0x1_0000_0000 + b5
                * 0x100_0000_0000 + b6 * 0x1_0000_0000_0000 + b7 * 0x100_0000_0000_0000 == value)
                by (bit_vector)
                requires
                    b0 == (value & 0xff) as u8,
                    b1 == ((value >> 8) & 0xff) as u8,
                    b2 == ((value >> 16) & 0xff) as u8,
                    b3 == ((value >> 24) & 0xff) as u8,
                    b4 == ((value >> 32) & 0xff) as u8,
                    b5 == ((value >> 40) & 0xff) as u8,
                    b6 == ((value >> 48) & 0xff) as u8,
                    b7 == ((value >> 56) & 0xff) as u8,
            ;
        }
        match self {
            ArchiveEndian::Little => [b0, b1, b2, b3, b4, b5, b6, b7],
            ArchiveEndian::Big => [b7, b6, b5, b4, b3, b2, b1, b0],
        }
    }
}

} // verus!
