//! The error taxonomy of the session layer.
use vstd::prelude::*;

verus! {

/// Everything a session-layer call can fail with.
///
/// Precondition violations (`CapacityOutOfRange`, `CapacityNotPowerOfTwo`)
/// are rejected before any driver interaction.  Driver and OS failures are
/// wrapped and returned to the caller; nothing is retried inside the layer.
#[derive(Clone, Debug)]
pub enum Error {
    /// The driver refused to create or open an adapter; carries the most
    /// severe buffered driver log line, or a placeholder when none exists.
    DriverRejected(String),
    /// A requested ring capacity lies outside
    /// [`crate::MIN_RING_CAPACITY`]`..=`[`crate::MAX_RING_CAPACITY`].
    CapacityOutOfRange(u32),
    /// A requested ring capacity is in range but not a power of two.
    CapacityNotPowerOfTwo(u32),
    /// The ring has no room for the requested allocation.
    DriverOutOfResources,
    /// Shutdown was observed while blocked or about to block.
    Cancelled,
    /// A destination buffer is smaller than the packet being copied into it.
    SizeMismatch { packet: usize, buffer: usize },
    /// A generic OS call failure: the OS error code and a formatted message.
    OsError(u32, String),
}

impl Error {
    /// True of the two errors that reject a capacity before any driver call.
    pub open spec fn is_capacity_error(&self) -> bool {
        self is CapacityOutOfRange || self is CapacityNotPowerOfTwo
    }

    /// A short stable label naming the variant, for diagnostics.
    pub fn label(&self) -> (r: &'static str)
        ensures
            r@ == self.label_spec(),
    {
        match self {
            Error::DriverRejected(_) => "driver rejected",
            Error::CapacityOutOfRange(_) => "capacity out of range",
            Error::CapacityNotPowerOfTwo(_) => "capacity not a power of two",
            Error::DriverOutOfResources => "driver out of resources",
            Error::Cancelled => "cancelled",
            Error::SizeMismatch { .. } => "size mismatch",
            Error::OsError(..) => "os error",
        }
    }

    /// What [`Error::label`] returns for each variant.
    pub open spec fn label_spec(&self) -> Seq<char> {
        match self {
            Error::DriverRejected(_) => "driver rejected"@,
            Error::CapacityOutOfRange(_) => "capacity out of range"@,
            Error::CapacityNotPowerOfTwo(_) => "capacity not a power of two"@,
            Error::DriverOutOfResources => "driver out of resources"@,
            Error::Cancelled => "cancelled"@,
            Error::SizeMismatch { .. } => "size mismatch"@,
            Error::OsError(..) => "os error"@,
        }
    }
}

/// Maps an OS status word to a result, as the host layer reports it: zero
/// means success, anything else is the failing error code.
pub fn get_os_error_from_id(id: u32, message: String) -> (r: Result<(), Error>)
    ensures
        id == 0 <==> r is Ok,
        id != 0 ==> (r matches Err(e) && e matches Error::OsError(c, m) && c == id && m@ == message@),
{
    if id == 0 {
        Ok(())
    } else {
        Err(Error::OsError(id, message))
    }
}

} // verus!
