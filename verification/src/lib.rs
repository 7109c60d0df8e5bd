//! Screen-capture engine: output geometry, pixel-format normalization, the
//! screen-copy frame state machine, shared-memory allocation decisions, and
//! image-encoding of the captured frame.

pub mod capture;
pub mod convert;
pub mod errors;
pub mod formats;
pub mod geometry;
pub mod orchestrator;
pub mod output;
pub mod shm;
pub mod worker;
