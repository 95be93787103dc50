//! Binary layout of a shared region and the little-endian word codec.
//!
//! A region is a run of bytes. Its first [`HEADER_SIZE`] bytes are the
//! coordination header, everything after that is the data area:
//!
//! | offset | field       | size |
//! |--------|-------------|------|
//! | 0      | write_pos   | 4    |
//! | 4      | read_pos    | 4    |
//! | 8      | status      | 1    |
//! | 9      | padding     | 3    |
//! | 12     | chunk_size  | 4    |
//! | 16     | sample_rate | 4    |
//! | 20     | reserved    | 64   |
//! | 84     | data area   | rest |
//!
//! Every multi-byte field, and every sample in the data area, is stored
//! least significant byte first.
use vstd::prelude::*;

verus! {

/// Size of the region that the two processes share.
pub const SHARED_MEMORY_SIZE: usize = 16777216;

/// Largest frame, in bytes, that one write may carry.
pub const MAX_CHUNK_SIZE: usize = 1048576;

/// Bytes taken by one sample.
pub const SAMPLE_SIZE: usize = 4;

/// Largest frame, in samples, that one write may carry.
pub const MAX_FRAME_SAMPLES: usize = 262144;

/// Bytes taken by the header; the data area starts here.
pub const HEADER_SIZE: usize = 84;

pub const WRITE_POS_OFFSET: usize = 0;

pub const READ_POS_OFFSET: usize = 4;

pub const STATUS_OFFSET: usize = 8;

pub const PADDING_OFFSET: usize = 9;

pub const CHUNK_SIZE_OFFSET: usize = 12;

pub const SAMPLE_RATE_OFFSET: usize = 16;

pub const RESERVED_OFFSET: usize = 20;

/// Largest data area whose every offset a 32-bit cursor can name.
pub const MAX_DATA_SIZE: usize = 0xffff_ffff;

/// Byte `k` of the word `w`, counting from the least significant one.
pub open spec fn le_byte(w: u32, k: int) -> u8 {
    if k == 0 {
        (w % 256) as u8
    } else if k == 1 {
        (w / 256 % 256) as u8
    } else if k == 2 {
        (w / 65536 % 256) as u8
    } else {
        (w / 16777216 % 256) as u8
    }
}

/// The number whose little-endian bytes are `b0`, `b1`, `b2`, `b3`.
pub open spec fn le_word(b0: u8, b1: u8, b2: u8, b3: u8) -> int {
    b0 + 256 * b1 + 65536 * b2 + 16777216 * b3
}

/// The word stored in `mem` at byte offset `at`.
pub open spec fn word_at(mem: Seq<u8>, at: int) -> u32
    recommends
        0 <= at,
        at + 4 <= mem.len(),
{
    le_word(mem[at], mem[at + 1], mem[at + 2], mem[at + 3]) as u32
}

/// The frame `samples` as it lies in memory: four bytes per sample, least
/// significant first, samples in order, nothing in between.
pub open spec fn frame_image(samples: Seq<u32>) -> Seq<u8> {
    Seq::new(4 * samples.len(), |i: int| le_byte(samples[i / 4], i % 4))
}

/// The `count` samples stored in `mem` from byte offset `at` on.
pub open spec fn samples_at(mem: Seq<u8>, at: int, count: nat) -> Seq<u32>
    recommends
        0 <= at,
        at + 4 * count <= mem.len(),
{
    Seq::new(count, |k: int| word_at(mem, at + 4 * k))
}

/// Number of payload bytes that a region of `region_len` bytes offers.
pub open spec fn data_capacity(region_len: nat) -> nat {
    if region_len >= HEADER_SIZE {
        (region_len - HEADER_SIZE) as nat
    } else {
        0
    }
}

/// A byte run can serve as a region: it has room for the header, and a
/// 32-bit cursor reaches the end of its data area.
pub open spec fn region_ok(region_len: nat) -> bool {
    HEADER_SIZE <= region_len <= HEADER_SIZE + MAX_DATA_SIZE
}

/// Decoding the four bytes of a word gives the word back.
pub proof fn lemma_word_round_trip(w: u32)
    ensures
        le_word(le_byte(w, 0), le_byte(w, 1), le_byte(w, 2), le_byte(w, 3)) == w,
{
    let q1 = w as int / 256;
    let q2 = w as int / 65536;
    let q3 = w as int / 16777216;
    assert(w == 256 * q1 + w % 256);
    assert(q1 == 256 * q2 + q1 % 256);
    assert(q2 == 256 * q3 + q2 % 256);
    assert(q3 < 256);
}

/// The four bytes of `w`, least significant first.
pub fn word_to_bytes(w: u32) -> (bytes: [u8; 4])
    ensures
        bytes@ =~= Seq::new(4, |k: int| le_byte(w, k)),
{
    let b0: u8 = (w % 256) as u8;
    let b1: u8 = (w / 256 % 256) as u8;
    let b2: u8 = (w / 65536 % 256) as u8;
    let b3: u8 = (w / 16777216 % 256) as u8;
    [b0, b1, b2, b3]
}

/// The word whose little-endian bytes are `b0`, `b1`, `b2`, `b3`.
pub fn word_from_bytes(b0: u8, b1: u8, b2: u8, b3: u8) -> (w: u32)
    ensures
        w == le_word(b0, b1, b2, b3),
{
    (b0 as u32) + 256 * (b1 as u32) + 65536 * (b2 as u32) + 16777216 * (b3 as u32)
}

/// Lays a frame out as bytes, as a transport that copies would have to.
pub fn serialize_samples(samples: &[u32]) -> (bytes: Vec<u8>)
    ensures
        bytes@ == frame_image(samples@),
{
    let mut bytes: Vec<u8> = Vec::new();
    let mut k: usize = 0;
    while k < samples.len()
        invariant
            k <= samples@.len(),
            bytes@ == frame_image(samples@.take(k as int)),
        decreases samples@.len() - k,
    {
        let quad: [u8; 4] = word_to_bytes(samples[k]);
        let ghost before = bytes@;
        bytes.push(quad[0]);
        bytes.push(quad[1]);
        bytes.push(quad[2]);
        bytes.push(quad[3]);
        proof {
            let grown = samples@.take(k as int + 1);
            assert(bytes@.len() == 4 * grown.len());
            assert forall|i: int| 0 <= i < bytes@.len() implies bytes@[i] == frame_image(grown)[i] by {
                if i < 4 * k {
                    assert(before[i] == frame_image(samples@.take(k as int))[i]);
                    assert(samples@.take(k as int)[i / 4] == grown[i / 4]);
                } else {
                    assert(i / 4 == k);
                    assert(grown[i / 4] == samples@[k as int]);
                }
            }
            assert(bytes@ =~= frame_image(grown));
        }
        k = k + 1;
    }
    proof {
        assert(samples@.take(samples@.len() as int) =~= samples@);
    }
    bytes
}

} // verus!
