use darknet::{Call, Detections, Layer, Network, NmsKind, RawNetwork, Scalar};

fn number(value: f32) -> Scalar {
    Scalar::from_bits(value.to_bits())
}

fn network(output: Layer) -> Network {
    let request = Network::load("yolo.cfg", None, false).unwrap();
    let first = Layer { classes: 1, nms_kind: NmsKind { tag: 3 }, beta_nms: number(9.0) };
    request
        .complete(RawNetwork { address: 0x40, w: 608, h: 608, c: 3, layers: vec![first, output] })
        .unwrap()
}

fn default_output() -> Layer {
    Layer { classes: 80, nms_kind: NmsKind { tag: 0 }, beta_nms: number(0.6) }
}

fn diou_output() -> Layer {
    Layer { classes: 20, nms_kind: NmsKind { tag: 2 }, beta_nms: number(0.25) }
}

#[test]
fn zero_is_told_by_value_not_by_pattern() {
    assert!(number(0.0).is_zero());
    assert!(number(-0.0).is_zero());
    assert!(Scalar::from_bits(0x8000_0000).is_zero());
    assert!(!number(0.45).is_zero());
    assert!(!number(-0.45).is_zero());
    assert!(!number(f32::MIN_POSITIVE).is_zero());
    assert!(!Scalar::from_bits(1).is_zero());
    assert!(!number(f32::NAN).is_zero());
    assert!(!number(f32::INFINITY).is_zero());
    assert_eq!(number(1.0).to_bits(), 0x3f80_0000);
}

#[test]
fn plain_forward_pass_and_extraction() {
    let mut net = network(default_output());
    let started = net.predict(640, 480, number(0.5), number(0.7), number(0.45), false);
    assert_eq!(started.forward, Call::PredictImage { network: 0x40 });
    assert_eq!(
        started.extract,
        Call::GetNetworkBoxes {
            network: 0x40,
            width: 640,
            height: 480,
            thresh: number(0.5),
            hier: number(0.7),
            relative: 1,
            letter: 0,
        }
    );
    assert_eq!(started.output, default_output());
    assert_eq!(started.nms, number(0.45));
}

#[test]
fn letterbox_forward_pass_and_extraction() {
    let mut net = network(default_output());
    let started = net.predict(1920, 1080, number(0.25), number(0.5), number(0.45), true);
    assert_eq!(started.forward, Call::PredictImageLetterbox { network: 0x40 });
    assert_eq!(
        started.extract,
        Call::GetNetworkBoxes {
            network: 0x40,
            width: 1920,
            height: 1080,
            thresh: number(0.25),
            hier: number(0.5),
            relative: 1,
            letter: 1,
        }
    );
}

#[test]
fn extraction_uses_the_image_size_not_the_input_size() {
    let mut net = network(default_output());
    assert_eq!(net.input_width(), 608);
    let started = net.predict(100, 50, number(0.5), number(0.5), number(0.0), false);
    match started.extract {
        Call::GetNetworkBoxes { width, height, .. } => {
            assert_eq!(width, 100);
            assert_eq!(height, 50);
        }
        other => panic!("not an extraction: {:?}", other),
    }
}

#[test]
fn zero_threshold_asks_for_no_suppression() {
    let mut net = network(default_output());
    let started = net.predict(640, 480, number(0.5), number(0.5), number(0.0), false);
    let (suppress, detections) = started.finish(0x9000, 17);
    assert_eq!(suppress, None);
    assert_eq!(detections.count(), 17);
    assert_eq!(detections.address(), 0x9000);
}

#[test]
fn negative_zero_threshold_asks_for_no_suppression() {
    let mut net = network(diou_output());
    let started = net.predict(640, 480, number(0.5), number(0.5), number(-0.0), true);
    let (suppress, detections) = started.finish(0x9000, 4);
    assert_eq!(suppress, None);
    assert_eq!(detections.count(), 4);
}

#[test]
fn default_variant_asks_for_greedy_suppression() {
    let mut net = network(default_output());
    let started = net.predict(640, 480, number(0.5), number(0.5), number(0.45), false);
    let (suppress, detections) = started.finish(0x9000, 17);
    assert_eq!(
        suppress,
        Some(Call::NmsSort { detections: 0x9000, total: 17, classes: 80, thresh: number(0.45) })
    );
    assert_eq!(detections.count(), 17);
}

#[test]
fn other_variant_asks_for_weighted_suppression() {
    let mut net = network(diou_output());
    let started = net.predict(640, 480, number(0.5), number(0.5), number(0.45), false);
    let (suppress, detections) = started.finish(0x9000, 6);
    assert_eq!(
        suppress,
        Some(Call::DiouNmsSort {
            detections: 0x9000,
            total: 6,
            classes: 20,
            thresh: number(0.45),
            nms_kind: NmsKind { tag: 2 },
            beta: number(0.25),
        })
    );
    assert_eq!(detections.count(), 6);
}

#[test]
fn not_a_number_threshold_still_suppresses() {
    let mut net = network(default_output());
    let started = net.predict(8, 8, number(0.5), number(0.5), number(f32::NAN), false);
    let (suppress, _) = started.finish(0x9000, 2);
    assert_eq!(
        suppress,
        Some(Call::NmsSort { detections: 0x9000, total: 2, classes: 80, thresh: number(f32::NAN) })
    );
}

#[test]
fn count_is_the_count_of_the_extraction() {
    let mut net = network(default_output());
    let started = net.predict(8, 8, number(1.0), number(0.5), number(0.45), false);
    let (_, none) = started.finish(0x9000, 0);
    assert_eq!(none.count(), 0);
    assert!(none.is_empty());
    let (_, many) = started.finish(0x9000, i32::MAX);
    assert_eq!(many.count(), 2147483647);
    assert!(!many.is_empty());
}

#[test]
fn detections_alone() {
    let set = Detections::new(0x500, 12);
    assert_eq!(set.address(), 0x500);
    assert_eq!(set.count(), 12);
    assert!(!set.is_empty());
    assert_eq!(set.release(), Call::FreeDetections { detections: 0x500, total: 12 });
}

#[test]
fn predicting_twice_asks_the_same() {
    let mut net = network(diou_output());
    let first = net.predict(640, 480, number(0.5), number(0.7), number(0.45), true);
    let second = net.predict(640, 480, number(0.5), number(0.7), number(0.45), true);
    assert_eq!(first, second);
    let (first_suppress, first_set) = first.finish(0x9000, 5);
    let (second_suppress, second_set) = second.finish(0x9000, 5);
    assert_eq!(first_suppress, second_suppress);
    assert_eq!(first_set.count(), second_set.count());
    assert_eq!(first_set.address(), second_set.address());
}

#[test]
fn prediction_leaves_the_handle_as_it_was() {
    let mut net = network(diou_output());
    let shape = net.input_shape();
    let layers = net.layers().to_vec();
    let address = net.address();
    net.predict(640, 480, number(0.5), number(0.7), number(0.45), true);
    assert_eq!(net.input_shape(), shape);
    assert_eq!(net.layers().to_vec(), layers);
    assert_eq!(net.address(), address);
    assert_eq!(net.get_layer(1), Some(diou_output()));
}
