//! The shared, concurrently readable copy of the frame store. The
//! acquisition loop owns a `FrameStore` and publishes a copy of it into a
//! reader-writer lock after every write; any number of concurrent queriers
//! snapshot that copy. The lock's atomic replace-versus-snapshot discipline
//! is relied on from `parking_lot`; everything stated about the contents is
//! proved on `FrameStore` itself.
use vstd::prelude::*;

use crate::store::FrameStore;

verus! {

#[verifier::external_type_specification]
#[verifier::external_body]
pub struct ExRawRwLock(parking_lot::RawRwLock);

#[verifier::external_type_specification]
#[verifier::external_body]
#[verifier::reject_recursive_types(R)]
#[verifier::reject_recursive_types(T)]
pub struct ExRwLock<R, T: ?Sized>(lock_api::RwLock<R, T>);

#[derive(Clone, Copy, PartialEq, Eq, Structural, Debug)]
pub enum QueryError {
    /// No frame has ever been written to the store.
    NoFrameAvailable,
}

/// Shared handle between the acquisition loop and the queriers: the slot the
/// loop publishes into and the query interface reads from.
pub struct CaptureState {
    pub frame_buffer: parking_lot::RwLock<FrameStore>,
}

/// Relies on `lock_api::RwLock::new` (reached through `parking_lot`): makes
/// an unlocked lock holding the given value.
#[verifier::external_body]
fn new_shared_store(s: FrameStore) -> (r: parking_lot::RwLock<FrameStore>) {
    parking_lot::RwLock::new(s)
}

/// Relies on `lock_api::RwLock::read` (reached through `parking_lot`): takes
/// the shared read lock, so no writer can be mid-replacement, and hands back
/// a copy of the slot's current contents. The contents change concurrently,
/// so nothing is stated of the returned value; what a query delivers for any
/// snapshot is stated on `FrameStore::read`.
#[verifier::external_body]
fn snapshot_store(l: &parking_lot::RwLock<FrameStore>) -> (r: FrameStore) {
    l.read().clone()
}

/// Relies on `lock_api::RwLock::write` (reached through `parking_lot`):
/// takes the exclusive write lock and replaces the slot's contents with a
/// copy of the given store, atomically with respect to readers.
#[verifier::external_body]
pub(crate) fn publish_store(state: &CaptureState, v: &FrameStore) {
    *state.frame_buffer.write() = v.clone();
}

impl CaptureState {
    /// A shared slot holding a store that has never been written: a query
    /// before the first publish reports no frame available.
    pub fn new() -> CaptureState {
        CaptureState { frame_buffer: new_shared_store(FrameStore::new()) }
    }
}

/// Synchronous pull interface for a consumer: a copy of the most recently
/// published frame with its dimensions and FPS value, or
/// `NoFrameAvailable` when nothing was ever written. Callable at any time,
/// concurrently with the loop's writes; what is delivered for the snapshot
/// taken here is exactly `FrameStore::read`'s contract.
pub fn get_frame_data(state: &CaptureState) -> (r: Result<(Vec<u8>, u32, u32, u32), QueryError>)
    ensures
        r matches Err(e) ==> e == QueryError::NoFrameAvailable,
{
    let snap = snapshot_store(&state.frame_buffer);
    match snap.read() {
        Some(t) => Ok(t),
        None => Err(QueryError::NoFrameAvailable),
    }
}

} // verus!
