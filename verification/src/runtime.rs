//! The calls into the inference runtime that the library asks for.

use vstd::prelude::*;
use crate::layers::NmsKind;
use crate::scalar::Scalar;

verus! {

/// One call into the runtime, with the arguments that the library has fixed.
///
/// A network and an array of detections are named by the address of their
/// block. The image of a forward pass is no part of the call: it stays with
/// the caller, who converts it for the runtime.
#[derive(Clone, Copy, Debug, PartialEq, Eq, Structural)]
pub enum Call {
    /// Run the plain forward pass of `network` on the image.
    PredictImage { network: usize },
    /// Run the forward pass of `network` that keeps the image's aspect ratio.
    PredictImageLetterbox { network: usize },
    /// Extract the candidate boxes of `network`, scaled to an image of
    /// `width` by `height`, with no class map.
    GetNetworkBoxes {
        network: usize,
        width: i32,
        height: i32,
        thresh: Scalar,
        hier: Scalar,
        relative: i32,
        letter: i32,
    },
    /// Suppress, in place and greedily by overlap, among the first `total`
    /// detections.
    NmsSort { detections: usize, total: i32, classes: i32, thresh: Scalar },
    /// Suppress in place among the first `total` detections, weighing the
    /// distance between boxes by `beta`.
    DiouNmsSort {
        detections: usize,
        total: i32,
        classes: i32,
        thresh: Scalar,
        nms_kind: NmsKind,
        beta: Scalar,
    },
    /// Tear down what `network` holds, leaving its own block.
    FreeNetwork { network: usize },
    /// Give `block` back to the allocator of the runtime.
    Free { block: usize },
    /// Release an array of `total` detections.
    FreeDetections { detections: usize, total: i32 },
}

/// The number that the runtime takes for a flag: one where it is set, zero
/// where it is not.
pub open spec fn flag(set: bool) -> i32 {
    if set {
        1i32
    } else {
        0i32
    }
}

/// The number that the runtime takes for a flag.
pub fn flag_of(set: bool) -> (number: i32)
    ensures
        number == flag(set),
{
    if set {
        1
    } else {
        0
    }
}

} // verus!
