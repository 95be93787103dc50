//! What holds of the transport as a whole, stated over the bytes of a
//! region and proved from the definitions of the single operations.
use vstd::prelude::*;
use crate::error::IpcError;
use crate::header::{
    bootstrapped, header_of, reset_image, SharedHeader, STATUS_DATA_AVAILABLE, STATUS_EMPTY,
    STATUS_FULL,
};
use crate::layout::{
    data_capacity, frame_image, lemma_word_round_trip, region_ok, samples_at, HEADER_SIZE,
    MAX_CHUNK_SIZE, MAX_FRAME_SAMPLES,
};
use crate::notify::{notify_step, NotifyAction, NotifyEvent, NOTIFY_DATA_READY};
use crate::ring::{frame_bytes, published_frame, with_frame, write_offset, write_verdict};

verus! {

/// A frame read back from its own image is the same frame, sample for
/// sample and bit for bit.
pub proof fn lemma_frame_image_reads_back(mem: Seq<u8>, at: int, samples: Seq<u32>)
    requires
        0 <= at,
        at + 4 * samples.len() <= mem.len(),
        mem.subrange(at, at + 4 * samples.len()) == frame_image(samples),
    ensures
        samples_at(mem, at, samples.len()) == samples,
{
    assert forall|k: int| 0 <= k < samples.len() implies samples_at(mem, at, samples.len())[k]
        == samples[k] by {
        let window = mem.subrange(at, at + 4 * samples.len());
        assert(mem[at + 4 * k] == window[4 * k]);
        assert(mem[at + 4 * k + 1] == window[4 * k + 1]);
        assert(mem[at + 4 * k + 2] == window[4 * k + 2]);
        assert(mem[at + 4 * k + 3] == window[4 * k + 3]);
        assert((4 * k) / 4 == k && (4 * k) % 4 == 0);
        assert((4 * k + 1) / 4 == k && (4 * k + 1) % 4 == 1);
        assert((4 * k + 2) / 4 == k && (4 * k + 2) % 4 == 2);
        assert((4 * k + 3) / 4 == k && (4 * k + 3) % 4 == 3);
        lemma_word_round_trip(samples[k]);
    }
    assert(samples_at(mem, at, samples.len()) =~= samples);
}

/// Why a write is refused, and when. A frame larger than the maximum is too
/// large whatever the region; one that is within the maximum but larger
/// than the data area finds the buffer too small; one that would fit is
/// refused only where the consumer has marked the buffer full. Every other
/// write is admitted.
pub proof fn lemma_write_refusals(mem: Seq<u8>, count: nat)
    ensures
        write_verdict(mem, count) == Err::<(), IpcError>(IpcError::FrameTooLarge) <==> frame_bytes(
            count,
        ) > MAX_CHUNK_SIZE,
        write_verdict(mem, count) == Err::<(), IpcError>(IpcError::BufferTooSmall) <==> data_capacity(
            mem.len(),
        ) < frame_bytes(count) <= MAX_CHUNK_SIZE,
        write_verdict(mem, count) == Err::<(), IpcError>(IpcError::BufferFull) <==> frame_bytes(
            count,
        ) <= MAX_CHUNK_SIZE && frame_bytes(count) <= data_capacity(mem.len()) && header_of(
            mem,
        ).status == STATUS_FULL,
        write_verdict(mem, count) is Ok <==> frame_bytes(count) <= MAX_CHUNK_SIZE && frame_bytes(
            count,
        ) <= data_capacity(mem.len()) && header_of(mem).status != STATUS_FULL,
        count > MAX_FRAME_SAMPLES <==> frame_bytes(count) > MAX_CHUNK_SIZE,
{
}

/// A write that is admitted leaves a header that describes the frame: the
/// write cursor stands just past it and inside the data area, the chunk
/// size is its size and within the maximum, the sample rate is the one
/// given, the status says that data is available. The read cursor is the
/// consumer's and is not touched.
pub proof fn lemma_header_after_write(mem: Seq<u8>, samples: Seq<u32>, sample_rate: u32)
    requires
        region_ok(mem.len()),
        write_verdict(mem, samples.len()) is Ok,
    ensures
        header_of(with_frame(mem, samples, sample_rate)) == (SharedHeader {
            write_pos: (write_offset(mem, samples.len()) + frame_bytes(samples.len())) as u32,
            read_pos: header_of(mem).read_pos,
            status: STATUS_DATA_AVAILABLE,
            chunk_size: frame_bytes(samples.len()) as u32,
            sample_rate,
        }),
        write_offset(mem, samples.len()) + frame_bytes(samples.len()) <= data_capacity(mem.len()),
        frame_bytes(samples.len()) <= MAX_CHUNK_SIZE,
{
    let size = frame_bytes(samples.len());
    let offset = write_offset(mem, samples.len());
    lemma_word_round_trip((offset + size) as u32);
    lemma_word_round_trip(size as u32);
    lemma_word_round_trip(sample_rate);
}

/// Every frame that is within the maximum and fits the data area is
/// written, unless the consumer has marked the buffer full; and what a
/// consumer then reads from the recorded place is that frame, bit for bit.
pub proof fn lemma_write_then_read(mem: Seq<u8>, samples: Seq<u32>, sample_rate: u32)
    requires
        region_ok(mem.len()),
        frame_bytes(samples.len()) <= MAX_CHUNK_SIZE,
        frame_bytes(samples.len()) <= data_capacity(mem.len()),
        header_of(mem).status != STATUS_FULL,
    ensures
        write_verdict(mem, samples.len()) is Ok,
        with_frame(mem, samples, sample_rate).subrange(
            HEADER_SIZE + write_offset(mem, samples.len()),
            HEADER_SIZE + write_offset(mem, samples.len()) + frame_bytes(samples.len()),
        ) == frame_image(samples),
        published_frame(with_frame(mem, samples, sample_rate)) == Some(samples),
{
    let after = with_frame(mem, samples, sample_rate);
    let size = frame_bytes(samples.len());
    let start = HEADER_SIZE + write_offset(mem, samples.len());
    lemma_header_after_write(mem, samples, sample_rate);
    assert(after.subrange(start as int, start + size) =~= frame_image(samples));
    lemma_frame_image_reads_back(after, start as int, samples);
    assert(size / 4 == samples.len());
}

/// A frame is never split. Where it would run past the end of the data
/// area from the write cursor, it is written whole from offset zero, and
/// the cursor then stands at its size; where it fits, it is written at the
/// cursor.
pub proof fn lemma_wraparound(mem: Seq<u8>, samples: Seq<u32>, sample_rate: u32)
    requires
        region_ok(mem.len()),
        write_verdict(mem, samples.len()) is Ok,
    ensures
        header_of(mem).write_pos + frame_bytes(samples.len()) > data_capacity(mem.len()) ==> {
            &&& write_offset(mem, samples.len()) == 0
            &&& header_of(with_frame(mem, samples, sample_rate)).write_pos == frame_bytes(
                samples.len(),
            )
            &&& samples_at(with_frame(mem, samples, sample_rate), HEADER_SIZE as int, samples.len())
                == samples
        },
        header_of(mem).write_pos + frame_bytes(samples.len()) <= data_capacity(mem.len()) ==> {
            &&& write_offset(mem, samples.len()) == header_of(mem).write_pos
            &&& header_of(with_frame(mem, samples, sample_rate)).write_pos == header_of(
                mem,
            ).write_pos + frame_bytes(samples.len())
            &&& samples_at(
                with_frame(mem, samples, sample_rate),
                HEADER_SIZE + header_of(mem).write_pos,
                samples.len(),
            ) == samples
        },
{
    lemma_header_after_write(mem, samples, sample_rate);
    lemma_write_then_read(mem, samples, sample_rate);
    let start = HEADER_SIZE + write_offset(mem, samples.len());
    lemma_frame_image_reads_back(with_frame(mem, samples, sample_rate), start as int, samples);
}

/// After a reset the status is empty and both cursors and the chunk size
/// are zero. The sample rate and the data area are as before.
pub proof fn lemma_header_after_reset(mem: Seq<u8>)
    requires
        region_ok(mem.len()),
    ensures
        header_of(reset_image(mem)) == (SharedHeader {
            write_pos: 0,
            read_pos: 0,
            status: STATUS_EMPTY,
            chunk_size: 0,
            sample_rate: header_of(mem).sample_rate,
        }),
        reset_image(mem).subrange(HEADER_SIZE as int, mem.len() as int) == mem.subrange(
            HEADER_SIZE as int,
            mem.len() as int,
        ),
{
    assert(reset_image(mem).subrange(HEADER_SIZE as int, mem.len() as int) =~= mem.subrange(
        HEADER_SIZE as int,
        mem.len() as int,
    ));
}

/// A region is initialised once. The first process to open it finds the
/// stored sample rate zero and writes the default header; after that the
/// rate is not zero, and opening the region again changes nothing.
pub proof fn lemma_bootstrap_once(mem: Seq<u8>)
    requires
        region_ok(mem.len()),
    ensures
        header_of(mem).sample_rate == 0 ==> header_of(bootstrapped(mem)) == SharedHeader::initial(),
        header_of(mem).sample_rate != 0 ==> bootstrapped(mem) == mem,
        bootstrapped(bootstrapped(mem)) == bootstrapped(mem),
        bootstrapped(mem).subrange(HEADER_SIZE as int, mem.len() as int) == mem.subrange(
            HEADER_SIZE as int,
            mem.len() as int,
        ),
{
    crate::header::lemma_header_of_image(mem, SharedHeader::initial());
    assert(bootstrapped(mem).subrange(HEADER_SIZE as int, mem.len() as int) =~= mem.subrange(
        HEADER_SIZE as int,
        mem.len() as int,
    ));
}

/// A second handle on the same bytes sees a frame that the first one
/// published at a sample rate other than zero: opening the region leaves
/// it as it is, and the frame reads back.
pub proof fn lemma_frame_visible_to_second_handle(
    mem: Seq<u8>,
    samples: Seq<u32>,
    sample_rate: u32,
)
    requires
        region_ok(mem.len()),
        write_verdict(mem, samples.len()) is Ok,
        sample_rate != 0,
    ensures
        bootstrapped(with_frame(mem, samples, sample_rate)) == with_frame(mem, samples, sample_rate),
        published_frame(bootstrapped(with_frame(mem, samples, sample_rate))) == Some(samples),
{
    lemma_header_after_write(mem, samples, sample_rate);
    lemma_write_then_read(mem, samples, sample_rate);
}

/// A notification takes at most one attempt to connect and one byte.
/// Held, the connection is used at once; missing, it is sought once. It
/// ends with an error where the attempt is refused, and then no byte is
/// sent, and where the byte cannot be written. Either way no connection is
/// held afterwards, and the next notification starts by connecting afresh.
pub proof fn lemma_notification_course(connected: bool, established: bool, delivered: bool)
    ensures
        ({
            let (held, first) = notify_step(connected, NotifyEvent::Begin);
            let (sought, second) = notify_step(held, NotifyEvent::Connected(established));
            let (kept, last) = notify_step(connected || established, NotifyEvent::Sent(delivered));
            &&& held == connected
            &&& first == if connected {
                NotifyAction::Send(NOTIFY_DATA_READY)
            } else {
                NotifyAction::Connect
            }
            &&& sought == established
            &&& second == if established {
                NotifyAction::Send(NOTIFY_DATA_READY)
            } else {
                NotifyAction::Done(Err::<(), IpcError>(IpcError::NotificationError))
            }
            &&& !established ==> notify_step(sought, NotifyEvent::Begin).1 == NotifyAction::Connect
            &&& last == NotifyAction::Done(
                if delivered {
                    Ok::<(), IpcError>(())
                } else {
                    Err::<(), IpcError>(IpcError::NotificationError)
                },
            )
            &&& kept == ((connected || established) && delivered)
            &&& !delivered ==> notify_step(kept, NotifyEvent::Begin).1 == NotifyAction::Connect
        }),
{
}

} // verus!
