//! The session controller of a window-capture utility: a capture loop that saves
//! still images of one window at an interval, and one encoder process recording
//! a window to video. The operating system, the image codec, the encoder process
//! and the user interface are driven by the caller; this crate holds the state,
//! every decision between two outside actions, and the names and arguments handed
//! to the outside.
pub mod decimal;
pub mod encoder;
pub mod error;
pub mod output;
pub mod session;
pub mod window;
