//! The virtual network interface that hosts sessions.
use vstd::prelude::*;

use crate::error::Error;
use crate::session::Session;

verus! {

/// The mathematical content of an adapter: its identity as plain values.
pub struct AdapterView {
    pub name: Seq<char>,
    pub guid: u128,
    pub index: u32,
    pub luid: u64,
}

/// An adapter: the identity of a virtual network interface, held as plain
/// values.  The native resource itself is owned by the host layer, which
/// resolves the name, index, link-layer identifier and 128-bit identifier
/// when it creates or opens the interface, and assembles an `Adapter` from
/// them.
pub struct Adapter {
    name: String,
    guid: u128,
    index: u32,
    luid: u64,
}

impl View for Adapter {
    type V = AdapterView;

    closed spec fn view(&self) -> AdapterView {
        AdapterView { name: self.name@, guid: self.guid, index: self.index, luid: self.luid }
    }
}

impl Clone for Adapter {
    fn clone(&self) -> (r: Self)
        ensures
            r@ == self@,
    {
        Adapter { name: self.name.clone(), guid: self.guid, index: self.index, luid: self.luid }
    }
}

/// True when `c` lies within the allowed ring-capacity bounds.
pub open spec fn capacity_in_range(c: u32) -> bool {
    crate::MIN_RING_CAPACITY <= c <= crate::MAX_RING_CAPACITY
}

/// True when `c` is a power of two.
pub open spec fn spec_is_power_of_two(c: u32) -> bool {
    exists|k: u32| k < 32 && c == #[trigger] (1u32 << k)
}

/// True exactly when `start_session` accepts `c` as a ring capacity.
pub open spec fn valid_capacity(c: u32) -> bool {
    capacity_in_range(c) && spec_is_power_of_two(c)
}

/// Decides whether `c` is a power of two.
pub fn is_power_of_two(c: u32) -> (b: bool)
    ensures
        b == spec_is_power_of_two(c),
{
    let mut k: u32 = 0;
    let mut found = false;
    while k < 32
        invariant
            k <= 32,
            found <==> exists|j: u32| j < k && c == #[trigger] (1u32 << j),
        decreases 32 - k,
    {
        if c == (1u32 << k) {
            found = true;
        }
        k = k + 1;
    }
    found
}

impl Adapter {
    /// Puts together an adapter from its resolved identity.  The host layer
    /// calls this once the native create or open call has succeeded and the
    /// name, identifiers and index are known.
    pub fn assemble(name: String, guid: u128, index: u32, luid: u64) -> (a: Adapter)
        ensures
            a@ == (AdapterView { name: name@, guid, index, luid }),
    {
        Adapter { name, guid, index, luid }
    }

    /// The human-readable name of this adapter.
    pub fn get_name(&self) -> (r: Result<String, Error>)
        ensures
            r matches Ok(n) && n@ == self@.name,
    {
        Ok(self.name.clone())
    }

    /// The 128-bit identifier of this adapter.
    pub fn get_guid(&self) -> (g: u128)
        ensures
            g == self@.guid,
    {
        self.guid
    }

    /// The link-layer identifier of this adapter.
    pub fn get_luid(&self) -> (l: u64)
        ensures
            l == self@.luid,
    {
        self.luid
    }

    /// The stable interface index of this adapter.
    pub fn get_adapter_index(&self) -> (r: Result<u32, Error>)
        ensures
            r matches Ok(i) && i == self@.index,
    {
        Ok(self.index)
    }

    /// Checks a requested ring capacity before any native call is made:
    /// it must lie within the allowed bounds and be a power of two, and the
    /// two failures are told apart, bounds first.
    pub fn validate_capacity(capacity: u32) -> (r: Result<(), Error>)
        ensures
            r is Ok <==> valid_capacity(capacity),
            !capacity_in_range(capacity) ==> (r matches Err(e) && e == Error::CapacityOutOfRange(
                capacity,
            )),
            capacity_in_range(capacity) && !spec_is_power_of_two(capacity) ==> (r matches Err(e)
                && e == Error::CapacityNotPowerOfTwo(capacity)),
    {
        if !(crate::MIN_RING_CAPACITY <= capacity && capacity <= crate::MAX_RING_CAPACITY) {
            return Err(Error::CapacityOutOfRange(capacity));
        }
        if !is_power_of_two(capacity) {
            return Err(Error::CapacityNotPowerOfTwo(capacity));
        }
        Ok(())
    }

    /// Starts a new session on this adapter with a ring of `capacity` bytes.
    ///
    /// Succeeds exactly on the capacities `validate_capacity` accepts; the
    /// capacity is rejected before anything else happens.  The new session
    /// starts with empty queues, no reserved send space, and its shutdown
    /// signal unset.
    pub fn start_session(&self, capacity: u32) -> (r: Result<Session, Error>)
        ensures
            r is Ok <==> valid_capacity(capacity),
            r matches Ok(s) ==> {
                &&& s@.capacity == capacity
                &&& s@.recv_queue =~= Seq::<Seq<u8>>::empty()
                &&& s@.reserved == 0
                &&& s@.delivered =~= Seq::<Seq<u8>>::empty()
                &&& !s@.shutdown
                &&& s@.adapter == self@
                &&& s@.wf()
            },
            !capacity_in_range(capacity) ==> (r matches Err(e) && e == Error::CapacityOutOfRange(
                capacity,
            )),
            capacity_in_range(capacity) && !spec_is_power_of_two(capacity) ==> (r matches Err(e)
                && e == Error::CapacityNotPowerOfTwo(capacity)),
    {
        match Self::validate_capacity(capacity) {
            Err(e) => Err(e),
            Ok(()) => Ok(Session::start(self.clone(), capacity)),
        }
    }

    /// The decision made when the driver resolves a created adapter's
    /// 128-bit identifier to something other than the one requested: the
    /// resolved identifier wins, and the flag says whether a discrepancy
    /// needs to be reported.
    pub fn resolved_guid_wins(requested: u128, resolved: u128) -> (r: (u128, bool))
        ensures
            r.0 == resolved,
            r.1 <==> requested != resolved,
    {
        (resolved, requested != resolved)
    }
}

} // verus!
