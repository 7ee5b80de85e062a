//! The detections that one prediction yields.

use vstd::prelude::*;
use crate::runtime::Call;

verus! {

/// What a set of detections is: where its array lies and how many records the
/// array holds.
pub struct DetectionsView {
    pub address: usize,
    pub count: usize,
}

/// The array of detections that the runtime allocated for one prediction, and
/// the number of its records.
///
/// The number is that of the extraction. Suppression marks records and removes
/// none, so a reader tells the surviving records by their confidence, not by
/// the count. The array is never at address zero.
#[derive(Debug)]
pub struct Detections {
    detections: usize,
    n_detections: usize,
}

impl View for Detections {
    type V = DetectionsView;

    closed spec fn view(&self) -> DetectionsView {
        DetectionsView { address: self.detections, count: self.n_detections }
    }
}

impl Detections {
    #[verifier::type_invariant]
    spec fn inv(self) -> bool {
        self.detections != 0
    }

    /// Takes charge of the array at `detections`, of `nboxes` records as the
    /// extraction reported them.
    pub fn new(detections: usize, nboxes: i32) -> (set: Detections)
        requires
            detections != 0,
        ensures
            set@.address == detections,
            set@.count == nboxes as usize,
            nboxes >= 0 ==> set@.count == nboxes,
    {
        Detections { detections, n_detections: #[verifier::truncate] (nboxes as usize) }
    }

    /// The address of the array, which is never zero.
    pub fn address(&self) -> (address: usize)
        ensures
            address == self@.address,
            address != 0,
    {
        proof {
            use_type_invariant(self);
        }
        self.detections
    }

    /// The number of records, the suppressed ones included.
    pub fn count(&self) -> (count: usize)
        ensures
            count == self@.count,
    {
        self.n_detections
    }

    /// Whether the array holds no record.
    pub fn is_empty(&self) -> (empty: bool)
        ensures
            empty == (self@.count == 0),
    {
        self.n_detections == 0
    }

    /// Gives the set up: what is left to do is the one call that releases the
    /// array with the runtime's own routine for detections.
    pub fn release(self) -> (call: Call)
        ensures
            call == (Call::FreeDetections {
                detections: self@.address,
                total: self@.count as i32,
            }),
            self@.address != 0,
    {
        proof {
            use_type_invariant(&self);
        }
        Call::FreeDetections {
            detections: self.detections,
            total: #[verifier::truncate] (self.n_detections as i32),
        }
    }
}

} // verus!
