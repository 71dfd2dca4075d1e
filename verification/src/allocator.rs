//! Exclusive host-port reservation.
//!
//! Exposed components need a host port from a fixed range. A port is
//! claimed by atomically setting its marker in the shared store only if
//! no live marker holds it, so no two reservations — however
//! interleaved — ever return the same port. Candidates are drawn at
//! random; after a bounded number of collisions the reservation fails
//! with `ResourceExhausted`. Releasing a port drops its marker and is
//! idempotent.

use rand::Rng;
use vstd::prelude::*;

use crate::cache::CacheValue;
use crate::cache::EntryV;
use crate::cache::TtlCache;
use crate::cache::ValueV;
use crate::errors::AppError;
use crate::errors::ErrorKind;
use crate::keys::port_key;
use crate::keys::port_key_spec;

verus! {

/// The first port candidates are drawn from.
pub const PORT_RANGE_LO: u16 = 8000;

/// The end of the candidate range; never drawn.
pub const PORT_RANGE_HI: u16 = 9999;

/// How many collisions a reservation tolerates before giving up.
pub const PORT_RESERVE_ATTEMPTS: u32 = 100;

/// Relies on `rand::Rng::gen_range` over `lo..hi` on the thread's
/// generator: the draw lies in the half-open range.
#[verifier::external_body]
fn draw_port_candidate(lo: u16, hi: u16) -> (p: u16)
    requires
        lo < hi,
    ensures
        lo <= p < hi,
{
    rand::thread_rng().gen_range(lo..hi)
}

/// The marker entry a successful reservation leaves: the port number
/// itself, never expiring.
pub open spec fn port_marker(port: u16) -> EntryV {
    EntryV { value: ValueV::Count(port as u64), expires_at: None }
}

/// Reserve a host port: draw candidates from the range and atomically
/// claim the first whose marker is free. On success the returned port
/// had no live marker and now has one; nothing else changed. When every
/// attempt collides, the store is left unchanged and the reservation
/// fails with `ResourceExhausted`.
pub fn reserve_port(markers: &mut TtlCache, now: u64) -> (r: Result<u16, AppError>)
    requires
        old(markers).wf(),
    ensures
        final(markers).wf(),
        r matches Ok(p) ==> {
            &&& PORT_RANGE_LO <= p < PORT_RANGE_HI
            &&& !old(markers).has_live(port_key_spec(p), now)
            &&& final(markers)@ == old(markers)@.insert(port_key_spec(p), port_marker(p))
        },
        r matches Err(e) ==> e.kind() == ErrorKind::ResourceExhausted && *final(markers) == *old(
            markers,
        ),
{
    let mut attempt: u32 = 0;
    while attempt < PORT_RESERVE_ATTEMPTS
        invariant
            markers.wf(),
            *markers == *old(markers),
        decreases PORT_RESERVE_ATTEMPTS - attempt,
    {
        let p = draw_port_candidate(PORT_RANGE_LO, PORT_RANGE_HI);
        let key = port_key(p);
        let claimed = markers.set_if_absent(key, CacheValue::Count(p as u64), None, now);
        if claimed {
            return Ok(p);
        }
        attempt = attempt + 1;
    }
    Err(AppError::new(ErrorKind::ResourceExhausted, "no free host port"))
}

/// Release a reserved host port: afterwards its marker is live at no
/// instant. Releasing an unreserved port changes nothing; releasing
/// twice is the same as releasing once.
pub fn release_port(markers: &mut TtlCache, port: u16)
    requires
        old(markers).wf(),
    ensures
        final(markers).wf(),
        forall|now: u64| !final(markers).has_live(port_key_spec(port), now),
        !old(markers)@.contains_key(port_key_spec(port)) ==> final(markers)@ == old(markers)@,
    {
    let key = port_key(port);
    markers.delete(key.as_slice());
}

} // verus!
