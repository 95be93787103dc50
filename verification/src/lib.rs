//! A single-slot mailbox over a shared byte region, with the protocol of the
//! side channel that wakes its consumer.
//!
//! A producer of audio frames and a consumer in another process share one
//! region of memory. The region starts with a small header (two cursors, a
//! status, the size and sample rate of the last frame); the rest is the data
//! area. The producer copies a frame into the data area and then publishes
//! it through the header. A local socket carries one byte per event to the
//! consumer, so that it need not poll.
//!
//! * [`layout`]: sizes, offsets and the little-endian codec.
//! * [`header`]: the header's fields and its image in memory.
//! * [`region`]: a borrowed mapping behind bounds-checked accessors.
//! * [`ring`]: the writer's path, and how a consumer reads a frame back.
//! * [`notify`]: the side channel as a state machine.
//! * [`ipc`]: the connection manager that holds a region and a channel.
//! * [`guarantees`]: what holds of all of these together.
//!
//! Samples are 32-bit IEEE 754 values, carried here as their bit patterns.
//! The library never opens a mapping or a socket: it is handed the bytes of
//! the one and told the fate of each byte sent on the other.
pub mod error;
pub mod guarantees;
pub mod header;
pub mod ipc;
pub mod layout;
pub mod notify;
pub mod region;
pub mod ring;
