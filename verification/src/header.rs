//! The coordination header: its fields, its defaults, and how it lies in
//! the first bytes of a region.
use vstd::prelude::*;
use crate::layout::{le_byte, word_at, HEADER_SIZE};

verus! {

/// Status of a buffer that holds no unread frame.
pub const STATUS_EMPTY: u8 = 0;

/// Status of a buffer that holds a published frame.
pub const STATUS_DATA_AVAILABLE: u8 = 1;

/// Status by which the consumer stops the writer.
pub const STATUS_FULL: u8 = 2;

/// Sample rate of a freshly initialised header. A stored rate of zero marks
/// a region whose header was never initialised.
pub const DEFAULT_SAMPLE_RATE: u32 = 16000;

/// The header's fields as plain values.
#[derive(Clone, Copy, Debug, PartialEq, Eq, Structural)]
pub struct SharedHeader {
    /// Offset in the data area just past the last frame written.
    pub write_pos: u32,
    /// Offset in the data area up to which the consumer has read.
    pub read_pos: u32,
    /// One of the three status codes.
    pub status: u8,
    /// Size in bytes of the last frame published.
    pub chunk_size: u32,
    /// Sample rate of the last frame published.
    pub sample_rate: u32,
}

impl SharedHeader {
    /// The header of a region that nothing was written to yet.
    pub open spec fn initial() -> SharedHeader {
        SharedHeader {
            write_pos: 0,
            read_pos: 0,
            status: STATUS_EMPTY,
            chunk_size: 0,
            sample_rate: DEFAULT_SAMPLE_RATE,
        }
    }

    /// The header as it lies in memory: the fields at their offsets, zero
    /// in the padding and in the reserved bytes.
    pub open spec fn image(self) -> Seq<u8> {
        Seq::new(
            HEADER_SIZE as nat,
            |i: int|
                if i < 4 {
                    le_byte(self.write_pos, i)
                } else if i < 8 {
                    le_byte(self.read_pos, i - 4)
                } else if i == 8 {
                    self.status
                } else if i < 12 {
                    0u8
                } else if i < 16 {
                    le_byte(self.chunk_size, i - 12)
                } else if i < 20 {
                    le_byte(self.sample_rate, i - 16)
                } else {
                    0u8
                },
        )
    }

    /// A header with empty status, both cursors at zero and the default
    /// sample rate.
    pub fn new() -> (header: SharedHeader)
        ensures
            header == SharedHeader::initial(),
    {
        SharedHeader {
            write_pos: 0,
            read_pos: 0,
            status: STATUS_EMPTY,
            chunk_size: 0,
            sample_rate: DEFAULT_SAMPLE_RATE,
        }
    }
}

/// The header that the first bytes of `mem` hold.
pub open spec fn header_of(mem: Seq<u8>) -> SharedHeader
    recommends
        mem.len() >= HEADER_SIZE,
{
    SharedHeader {
        write_pos: word_at(mem, 0),
        read_pos: word_at(mem, 4),
        status: mem[8],
        chunk_size: word_at(mem, 12),
        sample_rate: word_at(mem, 16),
    }
}

/// `mem` with its header bytes replaced by the image of `header`.
pub open spec fn with_header(mem: Seq<u8>, header: SharedHeader) -> Seq<u8> {
    Seq::new(
        mem.len(),
        |i: int|
            if i < HEADER_SIZE {
                header.image()[i]
            } else {
                mem[i]
            },
    )
}

/// `mem` after the check that every process makes when it opens the region:
/// a stored sample rate of zero means that no one initialised the header, and
/// the defaults are written; any other rate leaves the region as it is.
pub open spec fn bootstrapped(mem: Seq<u8>) -> Seq<u8> {
    if header_of(mem).sample_rate == 0 {
        with_header(mem, SharedHeader::initial())
    } else {
        mem
    }
}

/// `mem` after a forced reset: both cursors, the status and the chunk size
/// are zero, every other byte is as before.
pub open spec fn reset_image(mem: Seq<u8>) -> Seq<u8> {
    Seq::new(
        mem.len(),
        |i: int|
            if i < 9 || 12 <= i < 16 {
                0u8
            } else {
                mem[i]
            },
    )
}

/// A header read back from its own image is the same header.
pub proof fn lemma_header_of_image(mem: Seq<u8>, header: SharedHeader)
    requires
        mem.len() >= HEADER_SIZE,
    ensures
        header_of(with_header(mem, header)) == header,
{
    crate::layout::lemma_word_round_trip(header.write_pos);
    crate::layout::lemma_word_round_trip(header.read_pos);
    crate::layout::lemma_word_round_trip(header.chunk_size);
    crate::layout::lemma_word_round_trip(header.sample_rate);
}

} // verus!
