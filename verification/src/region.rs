//! A shared region: a borrowed run of bytes that is known to hold a header
//! and a data area, reached only through bounds-checked accessors.
//!
//! The bytes are held under an exclusive borrow and every store is a plain
//! store. What is proved here is what the bytes hold after each operation;
//! in which order another process comes to see the stores is for the holder
//! of the mapping to arrange.
use vstd::prelude::*;
use crate::error::IpcError;
use crate::header::{
    bootstrapped, header_of, reset_image, with_header, SharedHeader, STATUS_EMPTY,
};
use crate::layout::{
    data_capacity, le_byte, region_ok, word_at, word_from_bytes, word_to_bytes,
    CHUNK_SIZE_OFFSET, HEADER_SIZE, MAX_DATA_SIZE, PADDING_OFFSET, READ_POS_OFFSET,
    SAMPLE_RATE_OFFSET, STATUS_OFFSET, WRITE_POS_OFFSET,
};

verus! {

/// `mem` with the word `w` stored at byte offset `at`.
pub open spec fn with_word(mem: Seq<u8>, at: int, w: u32) -> Seq<u8> {
    Seq::new(
        mem.len(),
        |i: int|
            if at <= i < at + 4 {
                le_byte(w, i - at)
            } else {
                mem[i]
            },
    )
}

/// The bytes of one mapping, for as long as this process holds it.
pub struct SharedRegion<'a> {
    bytes: &'a mut [u8],
}

impl<'a> View for SharedRegion<'a> {
    type V = Seq<u8>;

    closed spec fn view(&self) -> Seq<u8> {
        self.bytes@
    }
}

impl<'a> SharedRegion<'a> {
    #[verifier::type_invariant]
    spec fn well_formed(self) -> bool {
        region_ok(self.bytes@.len())
    }

    /// Takes `bytes` as a region. Fails where they have no room for the
    /// header, or more data area than a 32-bit cursor can reach.
    pub fn attach(bytes: &'a mut [u8]) -> (attached: Result<SharedRegion<'a>, IpcError>)
        ensures
            match attached {
                Ok(region) => region_ok(old(bytes)@.len()) && region@ == old(bytes)@,
                Err(e) => !region_ok(old(bytes)@.len()) && e == IpcError::ResourceInitError
                    && final(bytes)@ == old(bytes)@,
            },
    {
        let len: usize = bytes.len();
        if len < HEADER_SIZE || len - HEADER_SIZE > MAX_DATA_SIZE {
            return Err(IpcError::ResourceInitError);
        }
        Ok(SharedRegion { bytes })
    }

    /// Gives the bytes back, as the region leaves them.
    pub fn release(self) -> (bytes: &'a mut [u8])
        ensures
            bytes@ == self@,
    {
        let SharedRegion { bytes } = self;
        bytes
    }

    /// Total size of the region in bytes.
    pub fn len(&self) -> (len: usize)
        ensures
            len == self@.len(),
            region_ok(self@.len()),
    {
        proof {
            use_type_invariant(self);
        }
        self.bytes.len()
    }

    /// Size of the data area in bytes.
    pub fn data_size(&self) -> (size: usize)
        ensures
            size == data_capacity(self@.len()),
            size <= MAX_DATA_SIZE,
            self@.len() == HEADER_SIZE + size,
            self@.len() <= usize::MAX,
    {
        proof {
            use_type_invariant(self);
        }
        self.bytes.len() - HEADER_SIZE
    }

    /// The byte at offset `at`.
    pub(crate) fn byte(&self, at: usize) -> (b: u8)
        requires
            at < self@.len(),
        ensures
            b == self@[at as int],
    {
        self.bytes[at]
    }

    /// Stores one byte at offset `at`.
    pub(crate) fn store_byte(&mut self, at: usize, b: u8)
        requires
            at < old(self)@.len(),
        ensures
            final(self)@ == old(self)@.update(at as int, b),
    {
        proof {
            use_type_invariant(&*self);
        }
        self.bytes[at] = b;
    }

    /// The word at offset `at`.
    pub(crate) fn word(&self, at: usize) -> (w: u32)
        requires
            at + 4 <= self@.len(),
        ensures
            w == word_at(self@, at as int),
    {
        word_from_bytes(self.bytes[at], self.bytes[at + 1], self.bytes[at + 2], self.bytes[at + 3])
    }

    /// Stores the word `w` at offset `at`, least significant byte first.
    pub(crate) fn store_word(&mut self, at: usize, w: u32)
        requires
            at + 4 <= old(self)@.len(),
        ensures
            final(self)@ == with_word(old(self)@, at as int, w),
    {
        proof {
            use_type_invariant(&*self);
        }
        let quad: [u8; 4] = word_to_bytes(w);
        self.bytes[at] = quad[0];
        self.bytes[at + 1] = quad[1];
        self.bytes[at + 2] = quad[2];
        self.bytes[at + 3] = quad[3];
        assert(self.bytes@ =~= with_word(old(self)@, at as int, w));
    }

    /// The header as the region holds it now.
    pub fn header(&self) -> (header: SharedHeader)
        ensures
            header == header_of(self@),
    {
        proof {
            use_type_invariant(self);
        }
        SharedHeader {
            write_pos: self.word(WRITE_POS_OFFSET),
            read_pos: self.word(READ_POS_OFFSET),
            status: self.byte(STATUS_OFFSET),
            chunk_size: self.word(CHUNK_SIZE_OFFSET),
            sample_rate: self.word(SAMPLE_RATE_OFFSET),
        }
    }

    /// Stores zero in every byte from offset `from` up to, not including, `to`.
    fn clear(&mut self, from: usize, to: usize)
        requires
            from <= to <= old(self)@.len(),
        ensures
            final(self)@ == Seq::new(
                old(self)@.len(),
                |i: int|
                    if from <= i < to {
                        0u8
                    } else {
                        old(self)@[i]
                    },
            ),
    {
        let mut at: usize = from;
        while at < to
            invariant
                from <= at <= to <= self@.len(),
                self@.len() == old(self)@.len(),
                forall|i: int| from <= i < at ==> self@[i] == 0u8,
                forall|i: int| 0 <= i < self@.len() && !(from <= i < at) ==> self@[i] == old(self)@[i],
            decreases to - at,
        {
            self.store_byte(at, 0);
            at = at + 1;
        }
    }

    /// Replaces the header bytes by the image of `header`.
    fn store_header(&mut self, header: SharedHeader)
        ensures
            final(self)@ == with_header(old(self)@, header),
    {
        proof {
            use_type_invariant(&*self);
        }
        self.clear(PADDING_OFFSET, HEADER_SIZE);
        self.store_word(WRITE_POS_OFFSET, header.write_pos);
        self.store_word(READ_POS_OFFSET, header.read_pos);
        self.store_byte(STATUS_OFFSET, header.status);
        self.store_word(CHUNK_SIZE_OFFSET, header.chunk_size);
        self.store_word(SAMPLE_RATE_OFFSET, header.sample_rate);
        assert(self@ =~= with_header(old(self)@, header));
    }

    /// Initialises the header of a region that no one has initialised yet,
    /// and tells whether it did. A stored sample rate of zero is the mark of
    /// such a region; with any other rate the region is left as it is.
    ///
    /// Nothing guards the check and the write against another process that
    /// does the same at the same moment.
    pub fn bootstrap_header_if_new(&mut self) -> (fresh: bool)
        ensures
            fresh == (header_of(old(self)@).sample_rate == 0),
            final(self)@ == bootstrapped(old(self)@),
    {
        proof {
            use_type_invariant(&*self);
        }
        if self.word(SAMPLE_RATE_OFFSET) != 0 {
            return false;
        }
        self.store_header(SharedHeader::new());
        true
    }

    /// The write cursor, the read cursor and the status, as stored. Reads
    /// only.
    pub fn get_buffer_status(&self) -> (status: (u32, u32, u8))
        ensures
            status.0 == header_of(self@).write_pos,
            status.1 == header_of(self@).read_pos,
            status.2 == header_of(self@).status,
    {
        proof {
            use_type_invariant(self);
        }
        (self.word(WRITE_POS_OFFSET), self.word(READ_POS_OFFSET), self.byte(STATUS_OFFSET))
    }

    /// Forces the status to empty and both cursors and the chunk size to
    /// zero. The sample rate, the reserved bytes and the data area keep what
    /// they hold.
    ///
    /// The caller sees to it that no write is under way in another process.
    pub fn reset_buffer(&mut self)
        ensures
            final(self)@ == reset_image(old(self)@),
    {
        proof {
            use_type_invariant(&*self);
        }
        self.store_word(WRITE_POS_OFFSET, 0);
        self.store_word(READ_POS_OFFSET, 0);
        self.store_byte(STATUS_OFFSET, STATUS_EMPTY);
        self.store_word(CHUNK_SIZE_OFFSET, 0);
        assert(self@ =~= reset_image(old(self)@));
    }
}

} // verus!
