//! The connection manager: one region and one notification channel, and
//! the operations that a producer of audio frames needs on them.
use vstd::prelude::*;
use crate::error::IpcError;
use crate::header::{bootstrapped, header_of, reset_image};
use crate::layout::region_ok;
use crate::notify::{notify_step, NotificationChannel, NotifyAction, NotifyEvent, NOTIFY_DISCONNECT};
use crate::region::SharedRegion;
use crate::ring::{with_frame, write_verdict};

verus! {

/// A producer's handle on the transport.
///
/// It borrows the bytes of the mapping; opening the mapping, and holding
/// and driving the socket, is the caller's part.
pub struct ZeroCopyIPC<'a> {
    region: SharedRegion<'a>,
    channel: NotificationChannel,
}

impl<'a> ZeroCopyIPC<'a> {
    /// The bytes of the region as they are now.
    pub closed spec fn bytes(&self) -> Seq<u8> {
        self.region@
    }

    /// Whether a connection to the consumer is held.
    pub closed spec fn connected(&self) -> bool {
        self.channel.connected()
    }

    /// Sets up a handle on an opened mapping. The header is initialised if
    /// the region is new. No connection to the consumer is held yet: the
    /// first attempt comes after this, and its outcome is recorded through
    /// [`ZeroCopyIPC::initial_connection`].
    ///
    /// Fails only where `mapping` cannot serve as a region, and then leaves
    /// it untouched.
    pub fn new(mapping: &'a mut [u8]) -> (opened: Result<ZeroCopyIPC<'a>, IpcError>)
        ensures
            match opened {
                Ok(ipc) => region_ok(old(mapping)@.len()) && ipc.bytes() == bootstrapped(
                    old(mapping)@,
                ) && !ipc.connected(),
                Err(e) => !region_ok(old(mapping)@.len()) && e == IpcError::ResourceInitError
                    && final(mapping)@ == old(mapping)@,
            },
    {
        match SharedRegion::attach(mapping) {
            Ok(mut region) => {
                region.bootstrap_header_if_new();
                Ok(ZeroCopyIPC { region, channel: NotificationChannel::new(false) })
            },
            Err(e) => Err(e),
        }
    }

    /// Records what became of the attempt to reach the consumer that is
    /// made once the handle is set up. A refusal is no error: the handle is
    /// as good without a connection, and the first notification tries
    /// again.
    pub fn initial_connection(&mut self, established: bool)
        ensures
            final(self).connected() == established,
            final(self).bytes() == old(self).bytes(),
    {
        self.channel = NotificationChannel::new(established);
    }

    /// Ends the handle and gives the bytes of the mapping back, as the
    /// handle leaves them. A connection that is still held is for
    /// [`ZeroCopyIPC::disconnect`] to give up first.
    pub fn release(self) -> (mapping: &'a mut [u8])
        ensures
            mapping@ == self.bytes(),
    {
        let ZeroCopyIPC { region, channel: _ } = self;
        region.release()
    }

    /// Publishes one frame and opens the notification that announces it.
    ///
    /// Whether the frame is written depends on the frame and on the region
    /// alone, never on the side channel. On success the result is the
    /// first action of the notification, to be carried out and followed up
    /// through [`ZeroCopyIPC::notify`]; whatever comes of it, the frame stays
    /// published.
    pub fn write_audio_chunk(&mut self, audio_data: &[u32], sample_rate: u32) -> (written: Result<
        NotifyAction,
        IpcError,
    >)
        ensures
            match written {
                Ok(action) => write_verdict(old(self).bytes(), audio_data@.len()) is Ok
                    && final(self).bytes() == with_frame(old(self).bytes(), audio_data@, sample_rate)
                    && (final(self).connected(), action) == notify_step(
                    old(self).connected(),
                    NotifyEvent::Begin,
                ),
                Err(e) => write_verdict(old(self).bytes(), audio_data@.len()) == Err::<(), IpcError>(e)
                    && final(self).bytes() == old(self).bytes() && final(self).connected() == old(
                    self,
                ).connected(),
            },
    {
        match self.region.write_frame(audio_data, sample_rate) {
            Ok(()) => Ok(self.channel.notify_ready(NotifyEvent::Begin)),
            Err(e) => Err(e),
        }
    }

    /// Takes the outcome of the last notification action and says what to
    /// do next. The region is not touched.
    pub fn notify(&mut self, event: NotifyEvent) -> (action: NotifyAction)
        ensures
            (final(self).connected(), action) == notify_step(old(self).connected(), event),
            final(self).bytes() == old(self).bytes(),
    {
        self.channel.notify_ready(event)
    }

    /// Whether a connection to the consumer is held.
    pub fn is_connected(&self) -> (connected: bool)
        ensures
            connected == self.connected(),
    {
        self.channel.is_connected()
    }

    /// The region, for reading.
    pub fn region(&self) -> (region: &SharedRegion<'a>)
        ensures
            region@ == self.bytes(),
    {
        &self.region
    }

    /// The write cursor, the read cursor and the status, as stored. Reads
    /// only.
    pub fn get_buffer_status(&self) -> (status: (u32, u32, u8))
        ensures
            status.0 == header_of(self.bytes()).write_pos,
            status.1 == header_of(self.bytes()).read_pos,
            status.2 == header_of(self.bytes()).status,
    {
        self.region.get_buffer_status()
    }

    /// Forces the status to empty and both cursors and the chunk size to
    /// zero; everything else is kept.
    ///
    /// The caller sees to it that no write is under way in another process.
    pub fn reset_buffer(&mut self)
        ensures
            final(self).bytes() == reset_image(old(self).bytes()),
            final(self).connected() == old(self).connected(),
    {
        self.region.reset_buffer();
    }

    /// First step of teardown, to be taken before the mapping is given up:
    /// where a connection is held, returns the byte that tells the consumer
    /// that the writer is leaving, and lets the connection go.
    pub fn disconnect(&mut self) -> (signal: Option<u8>)
        ensures
            signal == if old(self).connected() {
                Some(NOTIFY_DISCONNECT)
            } else {
                None
            },
            !final(self).connected(),
            final(self).bytes() == old(self).bytes(),
    {
        self.channel.notify_disconnect()
    }
}

} // verus!
