use vstd::prelude::*;

use crate::matrix::TemperatureMatrix;
use crate::store::SnapshotStore;

verus! {

/// Milliseconds to wait before each read of the sensor.
pub const SAMPLE_PERIOD_MS: u64 = 100;

/// Takes the outcome of one read of the sensor: a frame of the store's shape
/// replaces what the store holds and sampling goes on. A failed read, or a
/// frame of another shape, ends sampling and leaves the store as it was.
pub fn on_sample(store: &mut SnapshotStore, frame: Option<TemperatureMatrix>) -> (keep_running: bool)
    ensures
        keep_running == (frame matches Some(m) && old(store).accepts(m@)),
        keep_running ==> (frame matches Some(m) && final(store)@ == m@),
        !keep_running ==> final(store)@ == old(store)@,
        final(store).shape() == old(store).shape(),
{
    match frame {
        Some(m) => {
            let shape = store.frame_shape();
            if m.is_shaped(shape.rows, shape.cols) {
                store.set(m);
                true
            } else {
                false
            }
        },
        None => false,
    }
}

} // verus!
