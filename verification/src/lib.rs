//! Rendering pipeline and orchestration logic for a badge with a 3x3
//! addressable-LED matrix, an infrared transceiver, a push button, a thermal
//! sensor and a USB composite interface.
//!
//! All timing is carried as integer milliseconds, all gains and speeds as
//! fixed-point thousandths, so that every computation in the pipeline is
//! exact integer arithmetic.

pub mod pixel;
pub mod matrix;
pub mod rng;
pub mod effects;
pub mod scenes;
pub mod orchestrator;
pub mod inputs;
pub mod wire;
pub mod irtx;

pub use pixel::LedPixel;
