//! A verified model of the handle lifecycle and prediction pipeline of an
//! object-detection network that lives in a foreign inference runtime.
//!
//! The runtime itself is reached only through raw pointers, so this library
//! never calls it. It decides instead: which runtime calls are made, in which
//! order and with which arguments, and what the caller gets back for each
//! answer of the runtime. The program around the library performs the calls.

pub mod detections;
pub mod error;
pub mod layers;
pub mod network;
pub mod path;
pub mod runtime;
pub mod scalar;

pub use detections::Detections;
pub use error::Error;
pub use layers::{Layer, Layers, NmsKind};
pub use network::{LoadRequest, Network, Prediction, RawNetwork};
pub use runtime::Call;
pub use scalar::Scalar;
