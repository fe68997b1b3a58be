//! Core of an interactive Mandelbrot / Julia viewer with adaptive
//! histogram-equalized coloring.
//!
//! The library holds everything that can be reasoned about as plain data:
//! the per-frame iteration-count histogram and its quantile boundary
//! extraction, the complex-plane viewport with its pan / zoom / reset
//! transforms over exact rationals, the input mapper that turns device
//! events into viewport commands, and the per-frame render orchestration
//! state machine. Window handling, GPU passes and the widget toolkit stay
//! outside and talk to this crate through plain values.

pub mod equalize;
pub mod hist;
pub mod input;
pub mod orchestrator;
pub mod rat;
pub mod viewport;
