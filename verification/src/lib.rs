//! A model-serving pipeline: a frozen detection graph is loaded once, then
//! each raw image is decoded, laid out as a dense `[1, height, width, 3]`
//! tensor, run through the graph, and reduced to the candidate detections
//! that reach a confidence threshold.
//!
//! The crate verifies the pipeline's own logic — tensor layout, the
//! positional pairing of the engine's outputs, threshold filtering, the
//! flag-class predicate, and the request dispatch discipline — against the
//! contracts in each module. The inference engine and the image decoder are
//! outside collaborators: the decoder is called behind one trusted wrapper,
//! and the engine stands behind the `model::Engine` trait, whose results are
//! promised nothing, so every caller here is verified for every outcome.

pub mod codec;
pub mod detection;
pub mod filter;
pub mod model;
pub mod server;
pub mod service;
