//! The writer's path into the data area, and the consumer's way back out.
//!
//! The data area is a mailbox with one slot. A frame is never split: where
//! it does not fit between the write cursor and the end of the data area
//! it goes to offset zero instead. Only one chunk size and one sample rate
//! are recorded, so a second write before the consumer has read the first
//! takes the first one's place.
use vstd::prelude::*;
use crate::error::IpcError;
use crate::header::{header_of, STATUS_DATA_AVAILABLE, STATUS_FULL};
use crate::layout::{
    data_capacity, frame_image, le_byte, samples_at, CHUNK_SIZE_OFFSET, HEADER_SIZE,
    MAX_CHUNK_SIZE, MAX_FRAME_SAMPLES, SAMPLE_RATE_OFFSET, SAMPLE_SIZE, STATUS_OFFSET,
    WRITE_POS_OFFSET,
};
use crate::region::SharedRegion;

verus! {

/// Size in bytes of a frame of `count` samples.
pub open spec fn frame_bytes(count: nat) -> nat {
    4 * count
}

/// Whether a frame of `count` samples may be written to `mem`, and if not,
/// why not. The size of the frame is judged first, then the state of the
/// buffer.
pub open spec fn write_verdict(mem: Seq<u8>, count: nat) -> Result<(), IpcError> {
    if frame_bytes(count) > MAX_CHUNK_SIZE {
        Err(IpcError::FrameTooLarge)
    } else if frame_bytes(count) > data_capacity(mem.len()) {
        Err(IpcError::BufferTooSmall)
    } else if header_of(mem).status == STATUS_FULL {
        Err(IpcError::BufferFull)
    } else {
        Ok(())
    }
}

/// Offset in the data area at which a frame of `count` samples goes: the
/// write cursor, or zero where the frame would run past the end from there.
pub open spec fn write_offset(mem: Seq<u8>, count: nat) -> nat {
    if header_of(mem).write_pos + frame_bytes(count) > data_capacity(mem.len()) {
        0
    } else {
        header_of(mem).write_pos as nat
    }
}

/// `mem` after `samples` have been published at `sample_rate`: the frame
/// lies at its offset in the data area, the write cursor stands just past
/// it, chunk size and sample rate describe it, the status says that data is
/// available. The read cursor, the padding, the reserved bytes and the rest
/// of the data area are as before.
pub open spec fn with_frame(mem: Seq<u8>, samples: Seq<u32>, sample_rate: u32) -> Seq<u8> {
    let size = frame_bytes(samples.len());
    let offset = write_offset(mem, samples.len());
    let start = HEADER_SIZE + offset;
    Seq::new(
        mem.len(),
        |i: int|
            if 0 <= i < 4 {
                le_byte((offset + size) as u32, i)
            } else if i == 8 {
                STATUS_DATA_AVAILABLE
            } else if 12 <= i < 16 {
                le_byte(size as u32, i - 12)
            } else if 16 <= i < 20 {
                le_byte(sample_rate, i - 16)
            } else if start <= i < start + size {
                frame_image(samples)[i - start]
            } else {
                mem[i]
            },
    )
}

/// The frame that a consumer finds in `mem`, if the header announces one
/// and describes a whole number of samples that lie inside the data area
/// and end at the write cursor.
pub open spec fn published_frame(mem: Seq<u8>) -> Option<Seq<u32>> {
    let header = header_of(mem);
    if header.status == STATUS_DATA_AVAILABLE && header.chunk_size % 4 == 0
        && header.chunk_size <= header.write_pos
        && header.write_pos <= data_capacity(mem.len()) {
        Some(
            samples_at(
                mem,
                HEADER_SIZE + header.write_pos - header.chunk_size,
                (header.chunk_size / 4) as nat,
            ),
        )
    } else {
        None
    }
}

impl<'a> SharedRegion<'a> {
    /// Copies `samples` into the region from byte offset `start` on.
    fn store_samples(&mut self, start: usize, samples: &[u32])
        requires
            start + 4 * samples@.len() <= old(self)@.len(),
        ensures
            final(self)@ == Seq::new(
                old(self)@.len(),
                |i: int|
                    if start <= i < start + 4 * samples@.len() {
                        frame_image(samples@)[i - start]
                    } else {
                        old(self)@[i]
                    },
            ),
    {
        let count: usize = samples.len();
        let len: usize = self.len();
        let mut k: usize = 0;
        while k < count
            invariant
                count == samples@.len(),
                k <= count,
                start + 4 * count <= self@.len(),
                self@.len() == old(self)@.len(),
                self@.len() == len,
                forall|i: int|
                    start <= i < start + 4 * k ==> self@[i] == frame_image(samples@)[i - start],
                forall|i: int|
                    0 <= i < self@.len() && !(start <= i < start + 4 * k) ==> self@[i] == old(
                        self,
                    )@[i],
            decreases count - k,
        {
            let at: usize = start + SAMPLE_SIZE * k;
            self.store_word(at, samples[k]);
            k = k + 1;
        }
    }

    /// Publishes one frame.
    ///
    /// Fails, and leaves the region untouched, where the frame is larger
    /// than any write may be, larger than the data area, or where the
    /// consumer has marked the buffer full. It never waits.
    ///
    /// Otherwise the samples are copied into the data area, least
    /// significant byte first, at the write cursor, or at offset zero where
    /// they would not fit from the cursor to the end. Then chunk size,
    /// sample rate and the new write cursor are stored, and last the status.
    pub fn write_frame(&mut self, samples: &[u32], sample_rate: u32) -> (written: Result<
        (),
        IpcError,
    >)
        ensures
            written == write_verdict(old(self)@, samples@.len()),
            written is Ok ==> final(self)@ == with_frame(old(self)@, samples@, sample_rate),
            written is Err ==> final(self)@ == old(self)@,
    {
        if samples.len() > MAX_FRAME_SAMPLES {
            return Err(IpcError::FrameTooLarge);
        }
        let chunk_bytes: usize = samples.len() * SAMPLE_SIZE;
        let data_size: usize = self.data_size();
        if chunk_bytes > data_size {
            return Err(IpcError::BufferTooSmall);
        }
        let header = self.header();
        if header.status == STATUS_FULL {
            return Err(IpcError::BufferFull);
        }
        let cursor: usize = header.write_pos as usize;
        let offset: usize = if cursor > data_size - chunk_bytes {
            0
        } else {
            cursor
        };
        self.store_samples(HEADER_SIZE + offset, samples);
        self.store_word(CHUNK_SIZE_OFFSET, chunk_bytes as u32);
        self.store_word(SAMPLE_RATE_OFFSET, sample_rate);
        self.store_word(WRITE_POS_OFFSET, (offset + chunk_bytes) as u32);
        self.store_byte(STATUS_OFFSET, STATUS_DATA_AVAILABLE);
        assert(self@ =~= with_frame(old(self)@, samples@, sample_rate));
        Ok(())
    }

    /// Reads the published frame as a consumer would: only after the status
    /// says that data is available, and only where chunk size and write
    /// cursor describe whole samples inside the data area.
    pub fn read_frame(&self) -> (frame: Option<Vec<u32>>)
        ensures
            match frame {
                Some(samples) => published_frame(self@) == Some(samples@),
                None => published_frame(self@) is None,
            },
    {
        let header = self.header();
        let data_size: usize = self.data_size();
        let end: usize = header.write_pos as usize;
        let size: usize = header.chunk_size as usize;
        if header.status != STATUS_DATA_AVAILABLE || size % SAMPLE_SIZE != 0 || size > end || end
            > data_size {
            return None;
        }
        let start: usize = HEADER_SIZE + end - size;
        let count: usize = size / SAMPLE_SIZE;
        let mut samples: Vec<u32> = Vec::new();
        let mut k: usize = 0;
        while k < count
            invariant
                k <= count,
                start + 4 * count <= self@.len(),
                self@.len() <= usize::MAX,
                samples@ == samples_at(self@, start as int, k as nat),
            decreases count - k,
        {
            let word: u32 = self.word(start + SAMPLE_SIZE * k);
            samples.push(word);
            assert(samples@ =~= samples_at(self@, start as int, (k + 1) as nat));
            k = k + 1;
        }
        Some(samples)
    }
}

} // verus!
