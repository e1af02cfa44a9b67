//! Cells: bounded bit buffers and the trees of nodes that hold them.
use vstd::prelude::*;

pub mod bits;
pub mod cell;
pub mod slice;

verus! {

/// Why an operation on a bit cursor or a cell was refused.
#[derive(Debug, Clone, Copy, PartialEq, Eq, Structural)]
pub enum Error {
    /// Storing would take a bit cursor past 1023 bits.
    CapacityExceeded,
    /// A read asked for more bits than the cursor holds.
    Underflow,
    /// Attaching a child would give a cell more than four children.
    TooManyChildren,
}

/// The magic numbers that open each variant of a serialized bag of cells.
#[derive(Debug, Clone, Copy, PartialEq, Eq, Structural)]
pub enum Prefixes {
    /// A bag of cells with a top-level cell index and no checksum.
    SerializedBocIdx,
    /// An indexed bag of cells followed by a CRC32C checksum.
    SerializedBocIdxCrc32c,
    /// The plain bag of cells.
    SerializedBoc,
}

/// Magic number of an indexed bag of cells.
pub const SERIALIZED_BOC_IDX: u32 = 0x68ff65f3;

/// Magic number of an indexed bag of cells with a CRC32C checksum.
pub const SERIALIZED_BOC_IDX_CRC32C: u32 = 0xacc3a728;

/// Magic number of a plain bag of cells.
pub const SERIALIZED_BOC: u32 = 0xb5ee9c72;

impl Prefixes {
    /// The magic number of this variant, in contracts.
    pub open spec fn spec_value(self) -> u32 {
        match self {
            Prefixes::SerializedBocIdx => SERIALIZED_BOC_IDX,
            Prefixes::SerializedBocIdxCrc32c => SERIALIZED_BOC_IDX_CRC32C,
            Prefixes::SerializedBoc => SERIALIZED_BOC,
        }
    }

    /// The 32-bit magic number of this variant.
    pub fn value(&self) -> (r: u32)
        ensures
            r == self.spec_value(),
    {
        match self {
            Prefixes::SerializedBocIdx => SERIALIZED_BOC_IDX,
            Prefixes::SerializedBocIdxCrc32c => SERIALIZED_BOC_IDX_CRC32C,
            Prefixes::SerializedBoc => SERIALIZED_BOC,
        }
    }

    /// The magic number as it is written at the head of a container, most
    /// significant byte first.
    pub fn to_be_bytes(&self) -> (r: [u8; 4])
        ensures
            r@ == seq![
                (self.spec_value() >> 24u32) as u8,
                (self.spec_value() >> 16u32) as u8,
                (self.spec_value() >> 8u32) as u8,
                self.spec_value() as u8,
            ],
    {
        let v = self.value();
        let r = [(v >> 24u32) as u8, (v >> 16u32) as u8, (v >> 8u32) as u8, v as u8];
        assert(r@ =~= seq![(v >> 24u32) as u8, (v >> 16u32) as u8, (v >> 8u32) as u8, v as u8]);
        r
    }
}

} // verus!
