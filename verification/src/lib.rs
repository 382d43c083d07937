//! Pipeline orchestration core for a segmented camera recorder.
//!
//! The crate models a linear chain of media-processing stages, the lifecycle
//! state machine that drives the chain from idle to playing and back, the
//! dispatch of asynchronous status events, and the shared termination signal
//! that lets the control loop shut the pipeline down cleanly.  Actual stage
//! implementations (capture, decoding, encoding, segmented writing) are
//! external collaborators; this crate owns how they are composed, sequenced
//! and supervised.

pub mod errors;
pub mod media;
pub mod stage;
pub mod graph;
pub mod chain;
pub mod control;
pub mod events;
pub mod cli;
pub mod session;
pub mod recorder;
