//! A session packet-I/O layer for a virtual network interface.
//!
//! The heart of the crate is [`Session`]: a handle to a ring buffer sized to a
//! caller-chosen capacity, offering allocation of send packets, FIFO
//! submission, non-blocking and blocking receives, and a sticky shutdown
//! signal that releases every blocked caller at once.  An [`Adapter`] stands
//! for the virtual interface that hosts sessions, and [`AsyncSession`] drives
//! the same receive/send semantics from a cooperative scheduler.
//!
//! The session state and every decision it makes (capacity validation, packet
//! lifecycle, submission order, shutdown policy, the poll-before-wait
//! strategy) are plain data and verified functions here.  The host glue that
//! performs the actual blocking waits and drives schedulers sits outside this
//! library and feeds the outcomes back in as values.
use vstd::prelude::*;

pub mod adapter;
pub mod async_session;
pub mod error;
pub mod handle;
pub mod log;
pub mod packet;
pub mod session;
pub mod util;

pub use adapter::Adapter;
pub use async_session::AsyncSession;
pub use error::Error;
pub use packet::Packet;
pub use session::Session;
pub use util::decode_utf16;
pub use util::get_wintun_bin_pattern_path;
pub use util::set_adapter_mtu;
pub use util::set_adapter_mtu_cmd;

verus! {

/// Smallest ring capacity a session may be started with, in bytes.
pub const MIN_RING_CAPACITY: u32 = 0x1000;

/// Largest ring capacity a session may be started with, in bytes.
pub const MAX_RING_CAPACITY: u32 = 0x400_0000;

} // verus!
