//! The side channel that wakes the consumer: one byte per message over a
//! local stream socket, and the rules by which the writer keeps, loses and
//! regains its connection.
//!
//! The socket itself is not held here. Whoever holds it reports what became
//! of each connection attempt and of each byte, and is told what to do
//! next.
use vstd::prelude::*;
use crate::error::IpcError;

verus! {

/// The byte that tells the consumer that a frame is ready.
pub const NOTIFY_DATA_READY: u8 = 1;

/// The byte that tells the consumer that the writer is leaving.
pub const NOTIFY_DISCONNECT: u8 = 0;

/// Name of the socket where local sockets live in a namespace of their own.
pub const SOCKET_NAME: &'static str = "whisper_ipc_socket";

/// Name of the socket where local sockets are files.
pub const SOCKET_PATH: &'static str = "/tmp/whisper_ipc_socket";

/// Which kinds of name a local socket can have on this platform.
#[derive(Clone, Copy, Debug, PartialEq, Eq, Structural)]
pub enum NameSupport {
    /// Only filesystem paths.
    OnlyPaths,
    /// Only names in a dedicated namespace.
    OnlyNamespaced,
    /// Both of the above.
    Both,
}

/// The name under which the consumer listens, given what the platform
/// supports: a path under `/tmp` where only paths will do, the bare name
/// otherwise.
pub open spec fn socket_name_for(support: NameSupport) -> Seq<char> {
    match support {
        NameSupport::OnlyPaths => SOCKET_PATH@,
        NameSupport::OnlyNamespaced => SOCKET_NAME@,
        NameSupport::Both => SOCKET_NAME@,
    }
}

/// The path is the name, placed under `/tmp`.
pub proof fn lemma_socket_path_is_name_under_tmp()
    ensures
        SOCKET_PATH@ == "/tmp/"@ + SOCKET_NAME@,
{
    reveal_strlit("/tmp/");
    reveal_strlit("whisper_ipc_socket");
    reveal_strlit("/tmp/whisper_ipc_socket");
    assert(SOCKET_PATH@ =~= "/tmp/"@ + SOCKET_NAME@);
}

/// Asks `interprocess::local_socket::NameTypeSupport::query` which kinds of
/// socket name this platform supports. The answer differs from platform to
/// platform, so nothing is claimed of it beyond its type; the body is not
/// verified.
#[verifier::external_body]
fn query_name_support() -> (support: NameSupport) {
    match interprocess::local_socket::NameTypeSupport::query() {
        interprocess::local_socket::NameTypeSupport::OnlyPaths => NameSupport::OnlyPaths,
        interprocess::local_socket::NameTypeSupport::OnlyNamespaced => NameSupport::OnlyNamespaced,
        interprocess::local_socket::NameTypeSupport::Both => NameSupport::Both,
    }
}

/// The name to connect to on a platform with the given support.
pub fn socket_name(support: NameSupport) -> (name: &'static str)
    ensures
        name@ == socket_name_for(support),
{
    match support {
        NameSupport::OnlyPaths => SOCKET_PATH,
        NameSupport::OnlyNamespaced => SOCKET_NAME,
        NameSupport::Both => SOCKET_NAME,
    }
}

/// The name to connect to on this platform.
pub fn notification_socket_name() -> (name: &'static str)
    ensures
        name@ == SOCKET_PATH@ || name@ == SOCKET_NAME@,
{
    socket_name(query_name_support())
}

/// What the holder of the socket reports.
#[derive(Clone, Copy, Debug, PartialEq, Eq)]
pub enum NotifyEvent {
    /// A frame was published and the consumer is to be told.
    Begin,
    /// A connection attempt has ended; `true` where it succeeded.
    Connected(bool),
    /// The write of one byte has ended; `true` where it succeeded.
    Sent(bool),
}

/// What the holder of the socket is to do next.
#[derive(Clone, Copy, Debug, PartialEq, Eq)]
pub enum NotifyAction {
    /// Try once to connect to the consumer's socket.
    Connect,
    /// Write this one byte to the socket.
    Send(u8),
    /// Nothing more. The notification went out (`Ok`), or it did not,
    /// because no connection could be made or the byte could not be
    /// written.
    Done(Result<(), IpcError>),
}

/// One step of a ready notification, from the state of the connection and
/// an event to the new state and the next action.
///
/// With a connection the ready byte is sent at once; without one, one
/// attempt to connect is made first. An attempt that fails ends the
/// notification with an error: no byte is sent, there is still no
/// connection, and the next notification tries again. A byte that cannot
/// be written costs the connection, so that the next notification connects
/// afresh, and ends the notification with an error as well.
///
/// The error is for the caller to note. It says nothing against the frame
/// that the notification was to announce.
pub open spec fn notify_step(connected: bool, event: NotifyEvent) -> (bool, NotifyAction) {
    match event {
        NotifyEvent::Begin => if connected {
            (true, NotifyAction::Send(NOTIFY_DATA_READY))
        } else {
            (false, NotifyAction::Connect)
        },
        NotifyEvent::Connected(established) => if established {
            (true, NotifyAction::Send(NOTIFY_DATA_READY))
        } else {
            (false, NotifyAction::Done(Err(IpcError::NotificationError)))
        },
        NotifyEvent::Sent(delivered) => if delivered {
            (connected, NotifyAction::Done(Ok(())))
        } else {
            (false, NotifyAction::Done(Err(IpcError::NotificationError)))
        },
    }
}

/// The writer's end of the side channel: whether a connection is held.
pub struct NotificationChannel {
    connected: bool,
}

impl NotificationChannel {
    /// Whether a connection is held.
    pub closed spec fn connected(&self) -> bool {
        self.connected
    }

    /// A channel after the first attempt to connect, which may have failed.
    pub fn new(connected: bool) -> (channel: NotificationChannel)
        ensures
            channel.connected() == connected,
    {
        NotificationChannel { connected }
    }

    /// Whether a connection is held.
    pub fn is_connected(&self) -> (connected: bool)
        ensures
            connected == self.connected(),
    {
        self.connected
    }

    /// Takes one event of a ready notification and says what to do next.
    pub fn notify_ready(&mut self, event: NotifyEvent) -> (action: NotifyAction)
        ensures
            (final(self).connected(), action) == notify_step(old(self).connected(), event),
    {
        match event {
            NotifyEvent::Begin => {
                if self.connected {
                    NotifyAction::Send(NOTIFY_DATA_READY)
                } else {
                    NotifyAction::Connect
                }
            },
            NotifyEvent::Connected(established) => {
                self.connected = established;
                if established {
                    NotifyAction::Send(NOTIFY_DATA_READY)
                } else {
                    NotifyAction::Done(Err(IpcError::NotificationError))
                }
            },
            NotifyEvent::Sent(delivered) => {
                if delivered {
                    NotifyAction::Done(Ok(()))
                } else {
                    self.connected = false;
                    NotifyAction::Done(Err(IpcError::NotificationError))
                }
            },
        }
    }

    /// Gives up the connection at teardown. Where one was held, the byte
    /// that says so to the consumer is returned, to be written once, errors
    /// ignored; a second call returns nothing.
    pub fn notify_disconnect(&mut self) -> (signal: Option<u8>)
        ensures
            signal == if old(self).connected() {
                Some(NOTIFY_DISCONNECT)
            } else {
                None
            },
            !final(self).connected(),
    {
        let held: bool = self.connected;
        self.connected = false;
        if held {
            Some(NOTIFY_DISCONNECT)
        } else {
            None
        }
    }
}

} // verus!
