//! The handle of a loaded network: its lifecycle and its prediction pipeline.

use vstd::prelude::*;
use vstd::string::*;
use vstd::utf8::encode_utf8;
use crate::detections::{Detections, DetectionsView};
use crate::error::Error;
use crate::layers::{layer_at, Layer, Layers};
use crate::path::{check_path, has_nul};
use crate::runtime::{flag, flag_of, Call};
use crate::scalar::Scalar;

verus! {

/// Whether the runtime can take `path`: its encoding holds no NUL byte.
pub open spec fn path_is_encodable(path: Seq<char>) -> bool {
    !has_nul(encode_utf8(path))
}

/// A load that the library has accepted and the runtime has yet to perform:
/// the configuration path, the weights path if there is one, and the flag
/// that resets the statistics of training. Neither path holds a NUL byte.
#[derive(Debug)]
pub struct LoadRequest {
    cfg: String,
    weights: Option<String>,
    clear: i32,
}

/// What a load request asks of the runtime.
pub struct LoadRequestView {
    pub cfg: Seq<char>,
    pub weights: Option<Seq<char>>,
    pub clear: i32,
}

/// The paths of a load in the order in which they are examined.
pub open spec fn paths_are_encodable(cfg: Seq<char>, weights: Option<Seq<char>>) -> bool {
    &&& path_is_encodable(cfg)
    &&& weights matches Some(path) ==> path_is_encodable(path)
}

impl View for LoadRequest {
    type V = LoadRequestView;

    closed spec fn view(&self) -> LoadRequestView {
        LoadRequestView {
            cfg: self.cfg@,
            weights: match self.weights {
                Some(path) => Some(path@),
                None => None,
            },
            clear: self.clear,
        }
    }
}

/// What the runtime handed back for a load: the address of the network's
/// block, zero where it handed back none, and what the library reads of the
/// block: the declared input size and the layers in their order.
#[derive(Debug)]
pub struct RawNetwork {
    pub address: usize,
    pub w: i32,
    pub h: i32,
    pub c: i32,
    pub layers: Vec<Layer>,
}

/// What a network is to the library.
pub struct NetworkView {
    pub address: usize,
    pub w: i32,
    pub h: i32,
    pub c: i32,
    pub layers: Seq<Layer>,
}

impl View for RawNetwork {
    type V = NetworkView;

    open spec fn view(&self) -> NetworkView {
        NetworkView {
            address: self.address,
            w: self.w,
            h: self.h,
            c: self.c,
            layers: self.layers@,
        }
    }
}

/// The handle of a loaded network. It is the one owner of the network's
/// block, whose address is never zero.
#[derive(Debug)]
pub struct Network {
    net: usize,
    w: i32,
    h: i32,
    c: i32,
    layers: Vec<Layer>,
}

impl View for Network {
    type V = NetworkView;

    closed spec fn view(&self) -> NetworkView {
        NetworkView {
            address: self.net,
            w: self.w,
            h: self.h,
            c: self.c,
            layers: self.layers@,
        }
    }
}

/// The first two calls of a prediction, and what the library keeps for the
/// rest of it: the output layer of the network and the suppression threshold.
#[derive(Clone, Copy, Debug, PartialEq, Eq, Structural)]
pub struct Prediction {
    pub forward: Call,
    pub extract: Call,
    pub output: Layer,
    pub nms: Scalar,
}

/// The forward pass on the network at `network`: the variant that keeps the
/// aspect ratio where `use_letter_box` is set, the plain one where it is not.
pub open spec fn forward_call(network: usize, use_letter_box: bool) -> Call {
    if use_letter_box {
        Call::PredictImageLetterbox { network }
    } else {
        Call::PredictImage { network }
    }
}

/// The extraction of candidate boxes: scaled to the image's own width and
/// height, relative, with both thresholds handed on as they came.
pub open spec fn extract_call(
    network: usize,
    image_width: usize,
    image_height: usize,
    thresh: Scalar,
    hier_thres: Scalar,
    use_letter_box: bool,
) -> Call {
    Call::GetNetworkBoxes {
        network,
        width: image_width as i32,
        height: image_height as i32,
        thresh,
        hier: hier_thres,
        relative: 1,
        letter: flag(use_letter_box),
    }
}

/// The suppression that follows an extraction of `nboxes` detections at
/// `detections`: none for a zero threshold; else within the classes of the
/// output layer, greedy where the layer's variant is the default one, and
/// otherwise the distance-weighted one, with the layer's variant and weight.
pub open spec fn suppress_call(output: Layer, nms: Scalar, detections: usize, nboxes: i32)
    -> Option<Call> {
    if nms.is_zero() {
        None
    } else if output.nms_kind.is_default() {
        Some(Call::NmsSort { detections, total: nboxes, classes: output.classes, thresh: nms })
    } else {
        Some(
            Call::DiouNmsSort {
                detections,
                total: nboxes,
                classes: output.classes,
                thresh: nms,
                nms_kind: output.nms_kind,
                beta: output.beta_nms,
            },
        )
    }
}

/// The prediction that a network starts on an image of the given size.
pub open spec fn prediction_of(
    net: NetworkView,
    image_width: usize,
    image_height: usize,
    thresh: Scalar,
    hier_thres: Scalar,
    nms: Scalar,
    use_letter_box: bool,
) -> Prediction
    recommends
        net.layers.len() > 0,
{
    Prediction {
        forward: forward_call(net.address, use_letter_box),
        extract: extract_call(
            net.address,
            image_width,
            image_height,
            thresh,
            hier_thres,
            use_letter_box,
        ),
        output: net.layers.last(),
        nms,
    }
}

/// A prediction as a step of the handle: the handle as the step leaves it,
/// which is as the step found it, and the prediction that it starts.
pub open spec fn predict_step(
    net: NetworkView,
    image_width: usize,
    image_height: usize,
    thresh: Scalar,
    hier_thres: Scalar,
    nms: Scalar,
    use_letter_box: bool,
) -> (NetworkView, Prediction)
    recommends
        net.layers.len() > 0,
{
    (
        net,
        prediction_of(net, image_width, image_height, thresh, hier_thres, nms, use_letter_box),
    )
}

/// What a prediction ends in, for an extraction that returned `nboxes`
/// detections at `detections`: the suppression that is still to run, if any,
/// and the set of detections, which counts what the extraction counted.
pub open spec fn finished(started: Prediction, detections: usize, nboxes: i32) -> (
    Option<Call>,
    DetectionsView,
) {
    (
        suppress_call(started.output, started.nms, detections, nboxes),
        DetectionsView { address: detections, count: nboxes as usize },
    )
}

/// What a load ends in, for what the runtime handed back: the network, or
/// nothing where the runtime handed back the address zero.
pub open spec fn loaded_network(raw: NetworkView) -> Option<NetworkView> {
    if raw.address != 0 {
        Some(raw)
    } else {
        None
    }
}

/// The input shape of a network: channels, height and width, in this order.
pub open spec fn input_shape_of(net: NetworkView) -> (usize, usize, usize) {
    (net.c as usize, net.h as usize, net.w as usize)
}

/// The two calls that release the network at `network`, in their order: the
/// runtime's teardown of what the network holds, then the release of the
/// network's own block.
pub open spec fn release_calls(network: usize) -> Seq<Call> {
    seq![Call::FreeNetwork { network }, Call::Free { block: network }]
}

impl LoadRequest {
    #[verifier::type_invariant]
    spec fn inv(self) -> bool {
        &&& path_is_encodable(self.cfg@)
        &&& self.weights matches Some(path) ==> path_is_encodable(path@)
        &&& self.clear == 0 || self.clear == 1
    }

    /// The configuration path, which holds no NUL byte.
    pub fn cfg(&self) -> (path: &str)
        ensures
            path@ == self@.cfg,
            path_is_encodable(path@),
    {
        proof {
            use_type_invariant(self);
        }
        self.cfg.as_str()
    }

    /// The weights path, if the load has one; it holds no NUL byte.
    pub fn weights(&self) -> (path: Option<&str>)
        ensures
            path is Some == self@.weights is Some,
            path matches Some(p) ==> self@.weights == Some(p@) && path_is_encodable(p@),
    {
        proof {
            use_type_invariant(self);
        }
        match &self.weights {
            Some(path) => Some(path.as_str()),
            None => None,
        }
    }

    /// The flag that resets the statistics of training, as the runtime takes
    /// it: zero or one.
    pub fn clear(&self) -> (clear: i32)
        ensures
            clear == self@.clear,
            clear == 0 || clear == 1,
    {
        proof {
            use_type_invariant(self);
        }
        self.clear
    }

    /// Ends the load with what the runtime handed back: the handle of the
    /// network, or the error of a load that failed where the runtime handed
    /// back no network.
    pub fn complete(self, raw: RawNetwork) -> (loaded: Result<Network, Error>)
        ensures
            match loaded {
                Ok(network) => loaded_network(raw@) == Some(network@),
                Err(e) => loaded_network(raw@) is None && e.is_load_failure(),
            },
    {
        if raw.address == 0 {
            return Err(Error::load_failure());
        }
        Ok(Network { net: raw.address, w: raw.w, h: raw.h, c: raw.c, layers: raw.layers })
    }
}

impl Network {
    #[verifier::type_invariant]
    spec fn inv(self) -> bool {
        self.net != 0
    }

    /// Accepts the load of a network from a configuration file and, where
    /// `weights` names one, a weights file, or refuses it before the runtime
    /// is called at all: with `PathEncodingError`, where a path holds a NUL
    /// byte.
    ///
    /// The runtime ends the process on a configuration without sections or
    /// with a first section that is no network header, and on weights that it
    /// cannot open or read: the caller has to rule these out.
    pub fn load(cfg: &str, weights: Option<&str>, clear: bool) -> (accepted: Result<
        LoadRequest,
        Error,
    >)
        ensures
            accepted is Ok <==> paths_are_encodable(
                cfg@,
                match weights {
                    Some(path) => Some(path@),
                    None => None,
                },
            ),
            accepted matches Ok(request) ==> {
                &&& request@.cfg == cfg@
                &&& request@.weights == match weights {
                    Some(path) => Some(path@),
                    None => None::<Seq<char>>,
                }
                &&& request@.clear == flag(clear)
            },
            accepted matches Err(e) ==> e == Error::PathEncodingError,
    {
        let weights_owned: Option<String> = match weights {
            Some(path) => {
                match check_path(path) {
                    Ok(()) => Some(path.to_owned()),
                    Err(e) => {
                        return Err(e);
                    },
                }
            },
            None => None,
        };
        match check_path(cfg) {
            Ok(()) => {},
            Err(e) => {
                return Err(e);
            },
        }
        Ok(LoadRequest { cfg: cfg.to_owned(), weights: weights_owned, clear: flag_of(clear) })
    }

    /// The address of the network's block, which is never zero.
    pub fn address(&self) -> (address: usize)
        ensures
            address == self@.address,
            address != 0,
    {
        proof {
            use_type_invariant(self);
        }
        self.net
    }

    /// The input width that the network declares.
    pub fn input_width(&self) -> (width: usize)
        ensures
            width == self@.w as usize,
    {
        #[verifier::truncate]
        (self.w as usize)
    }

    /// The input height that the network declares.
    pub fn input_height(&self) -> (height: usize)
        ensures
            height == self@.h as usize,
    {
        #[verifier::truncate]
        (self.h as usize)
    }

    /// The number of input channels that the network declares.
    pub fn input_channels(&self) -> (channels: usize)
        ensures
            channels == self@.c as usize,
    {
        #[verifier::truncate]
        (self.c as usize)
    }

    /// The input shape of the network, in the order channels, height, width.
    pub fn input_shape(&self) -> (shape: (usize, usize, usize))
        ensures
            shape == input_shape_of(self@),
    {
        (self.input_channels(), self.input_height(), self.input_width())
    }

    /// The number of layers.
    pub fn num_layers(&self) -> (n: usize)
        ensures
            n == self@.layers.len(),
    {
        self.layers.len()
    }

    /// The layers of the network in their order, borrowed from the handle.
    pub fn layers(&self) -> (table: Layers<'_>)
        ensures
            table@ == self@.layers,
    {
        Layers { layers: self.layers.as_slice() }
    }

    /// The layer at `index`, or nothing where `index` is not below the number
    /// of layers.
    pub fn get_layer(&self, index: usize) -> (layer: Option<Layer>)
        ensures
            layer == layer_at(self@.layers, index as int),
    {
        if index >= self.num_layers() {
            return None;
        }
        Some(self.layers[index])
    }

    /// Starts a prediction on an image of `image_width` by `image_height`.
    ///
    /// The caller runs the forward pass and then the extraction that the
    /// result names, and hands what the extraction returned to
    /// [`Prediction::finish`]. The handle is held exclusively meanwhile: the
    /// forward pass works in buffers of the network. What the handle reports
    /// of the network is the same before and after.
    ///
    /// The network has at least one layer: the last one is its output layer.
    pub fn predict(
        &mut self,
        image_width: usize,
        image_height: usize,
        thresh: Scalar,
        hier_thres: Scalar,
        nms: Scalar,
        use_letter_box: bool,
    ) -> (started: Prediction)
        requires
            old(self)@.layers.len() > 0,
        ensures
            (final(self)@, started) == predict_step(
                old(self)@,
                image_width,
                image_height,
                thresh,
                hier_thres,
                nms,
                use_letter_box,
            ),
    {
        let output = self.layers[self.layers.len() - 1];
        let forward = if use_letter_box {
            Call::PredictImageLetterbox { network: self.net }
        } else {
            Call::PredictImage { network: self.net }
        };
        let extract = Call::GetNetworkBoxes {
            network: self.net,
            width: #[verifier::truncate] (image_width as i32),
            height: #[verifier::truncate] (image_height as i32),
            thresh,
            hier: hier_thres,
            relative: 1,
            letter: flag_of(use_letter_box),
        };
        Prediction { forward, extract, output, nms }
    }

    /// Gives the handle up. What is left to do are the two calls of the
    /// result, in their order, on the block that the handle owned.
    pub fn release(self) -> (calls: [Call; 2])
        ensures
            calls@ == release_calls(self@.address),
            self@.address != 0,
    {
        proof {
            use_type_invariant(&self);
        }
        let calls = [Call::FreeNetwork { network: self.net }, Call::Free { block: self.net }];
        assert(calls@ =~= release_calls(self@.address));
        calls
    }
}

impl Prediction {
    /// Ends the prediction with what the extraction returned: the address of
    /// the array of detections and the number of its records.
    ///
    /// The result holds the suppression that the caller has yet to run on the
    /// array, if any, and the set of detections. The set counts what the
    /// extraction counted, whether or not a suppression follows.
    ///
    /// The extraction has returned an array: `detections` is not zero.
    pub fn finish(self, detections: usize, nboxes: i32) -> (ended: (Option<Call>, Detections))
        requires
            detections != 0,
        ensures
            (ended.0, ended.1@) == finished(self, detections, nboxes),
            nboxes >= 0 ==> ended.1@.count == nboxes,
    {
        let suppress = if self.nms.is_zero() {
            None
        } else if self.output.nms_kind.is_default() {
            Some(
                Call::NmsSort {
                    detections,
                    total: nboxes,
                    classes: self.output.classes,
                    thresh: self.nms,
                },
            )
        } else {
            Some(
                Call::DiouNmsSort {
                    detections,
                    total: nboxes,
                    classes: self.output.classes,
                    thresh: self.nms,
                    nms_kind: self.output.nms_kind,
                    beta: self.output.beta_nms,
                },
            )
        };
        (suppress, Detections::new(detections, nboxes))
    }
}

/// A network that a load ends in reports as its input shape the channels,
/// the height and the width that the runtime declared for it, in this order.
pub proof fn lemma_loaded_shape(raw: NetworkView)
    ensures
        loaded_network(raw) matches Some(net) ==> input_shape_of(net) == (
            raw.c as usize,
            raw.h as usize,
            raw.w as usize,
        ),
{
}

/// There is no layer at the number of layers, nor at any index above it.
pub proof fn lemma_no_layer_beyond(net: NetworkView, index: usize)
    requires
        index >= net.layers.len(),
    ensures
        layer_at(net.layers, index as int) is None,
{
}

/// The layer at the last index is the output layer that a prediction works
/// with, whatever the image and the thresholds.
pub proof fn lemma_last_layer_is_output(
    net: NetworkView,
    image_width: usize,
    image_height: usize,
    thresh: Scalar,
    hier_thres: Scalar,
    nms: Scalar,
    use_letter_box: bool,
)
    requires
        net.layers.len() > 0,
    ensures
        layer_at(net.layers, net.layers.len() - 1) == Some(
            prediction_of(
                net,
                image_width,
                image_height,
                thresh,
                hier_thres,
                nms,
                use_letter_box,
            ).output,
        ),
{
}

/// With a suppression threshold of zero, of either sign, no suppression is
/// asked for, and the set of detections counts what the extraction counted.
pub proof fn lemma_zero_threshold_keeps_all(started: Prediction, detections: usize, nboxes: i32)
    requires
        started.nms.is_zero(),
    ensures
        finished(started, detections, nboxes).0 is None,
        finished(started, detections, nboxes).1.count == nboxes as usize,
        nboxes >= 0 ==> finished(started, detections, nboxes).1.count == nboxes,
{
}

/// With any other threshold exactly one suppression is asked for: on the array
/// and the count of the extraction, within the classes of the output layer.
pub proof fn lemma_nonzero_threshold_suppresses(
    started: Prediction,
    detections: usize,
    nboxes: i32,
)
    requires
        !started.nms.is_zero(),
    ensures
        finished(started, detections, nboxes).0 == Some(
            if started.output.nms_kind.is_default() {
                Call::NmsSort {
                    detections,
                    total: nboxes,
                    classes: started.output.classes,
                    thresh: started.nms,
                }
            } else {
                Call::DiouNmsSort {
                    detections,
                    total: nboxes,
                    classes: started.output.classes,
                    thresh: started.nms,
                    nms_kind: started.output.nms_kind,
                    beta: started.output.beta_nms,
                }
            },
        ),
        finished(started, detections, nboxes).1.count == nboxes as usize,
{
}

/// A prediction leaves the handle as it found it, so a second prediction on
/// an image of the same size, with the same thresholds, starts with the same
/// calls as the first. What the runtime then computes is not the library's to
/// say.
pub proof fn lemma_predict_again(
    net: NetworkView,
    image_width: usize,
    image_height: usize,
    thresh: Scalar,
    hier_thres: Scalar,
    nms: Scalar,
    use_letter_box: bool,
)
    ensures
        ({
            let first = predict_step(
                net,
                image_width,
                image_height,
                thresh,
                hier_thres,
                nms,
                use_letter_box,
            );
            let second = predict_step(
                first.0,
                image_width,
                image_height,
                thresh,
                hier_thres,
                nms,
                use_letter_box,
            );
            second == first
        }),
{
}

} // verus!
