//! Read-only projections of the layers of a network.

use vstd::prelude::*;
use crate::scalar::Scalar;

verus! {

/// Tag of the default suppression variant: plain greedy suppression by overlap.
pub const DEFAULT_NMS: u32 = 0;

/// The tag that the runtime's bindings give the default suppression variant,
/// `darknet_sys::NMS_KIND_DEFAULT_NMS`.
///
/// Trusted, not proved: the bindings define the constant as zero, and the
/// contract says so.
#[verifier::external_body]
fn default_nms_tag() -> (tag: u32)
    ensures
        tag == DEFAULT_NMS,
{
    darknet_sys::NMS_KIND_DEFAULT_NMS
}

/// The suppression variant of a layer, by the tag that the runtime gives it.
///
/// The tag is kept as it was read, so that a variant unknown to this library
/// still reaches the runtime unchanged.
#[derive(Clone, Copy, Debug, PartialEq, Eq, Structural)]
pub struct NmsKind {
    pub tag: u32,
}

impl NmsKind {
    /// Whether this is the default variant.
    pub open spec fn spec_is_default(self) -> bool {
        self.tag == DEFAULT_NMS
    }

    /// Whether this is the default variant.
    #[verifier::when_used_as_spec(spec_is_default)]
    pub fn is_default(self) -> (default: bool)
        ensures
            default == self.spec_is_default(),
    {
        self.tag == default_nms_tag()
    }
}

/// What the library reads of one layer: its number of classes, its
/// suppression variant and the weight that the variant takes.
#[derive(Clone, Copy, Debug, PartialEq, Eq, Structural)]
pub struct Layer {
    pub classes: i32,
    pub nms_kind: NmsKind,
    pub beta_nms: Scalar,
}

impl Layer {
    /// The number of classes that the layer tells apart.
    pub fn classes(&self) -> (classes: i32)
        ensures
            classes == self.classes,
    {
        self.classes
    }

    /// The suppression variant of the layer.
    pub fn nms_kind(&self) -> (kind: NmsKind)
        ensures
            kind == self.nms_kind,
    {
        self.nms_kind
    }

    /// The weight that the layer's suppression variant takes.
    pub fn beta_nms(&self) -> (beta: Scalar)
        ensures
            beta == self.beta_nms,
    {
        self.beta_nms
    }
}

/// The layers of a network in their order, borrowed from the handle that owns
/// them: the view cannot outlive the handle.
#[derive(Clone, Copy, Debug)]
pub struct Layers<'a> {
    pub layers: &'a [Layer],
}

impl<'a> View for Layers<'a> {
    type V = Seq<Layer>;

    open spec fn view(&self) -> Seq<Layer> {
        self.layers@
    }
}

/// The layer at `index` of `layers`, if there is one.
pub open spec fn layer_at(layers: Seq<Layer>, index: int) -> Option<Layer> {
    if 0 <= index < layers.len() {
        Some(layers[index])
    } else {
        None
    }
}

impl<'a> Layers<'a> {
    /// The number of layers.
    pub fn len(&self) -> (n: usize)
        ensures
            n == self@.len(),
    {
        self.layers.len()
    }

    /// Whether there is no layer at all.
    pub fn is_empty(&self) -> (empty: bool)
        ensures
            empty == (self@.len() == 0),
    {
        self.layers.len() == 0
    }

    /// The layer at `index`, or nothing where `index` is not below the number
    /// of layers.
    pub fn get(&self, index: usize) -> (layer: Option<Layer>)
        ensures
            layer == layer_at(self@, index as int),
    {
        if index >= self.layers.len() {
            return None;
        }
        Some(self.layers[index])
    }

    /// The layers in their order, copied out.
    pub fn to_vec(&self) -> (all: Vec<Layer>)
        ensures
            all@ == self@,
    {
        let mut all: Vec<Layer> = Vec::new();
        let mut i: usize = 0;
        while i < self.layers.len()
            invariant
                i <= self.layers.len(),
                all@ == self@.subrange(0, i as int),
            decreases self.layers.len() - i,
        {
            all.push(self.layers[i]);
            i += 1;
            assert(all@ =~= self@.subrange(0, i as int));
        }
        assert(self@.subrange(0, self@.len() as int) =~= self@);
        all
    }
}

} // verus!
