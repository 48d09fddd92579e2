//! Decides where an image named on the command line comes from, checks the
//! encoder's component counts, and drives decoding and hashing of the pixels.

pub mod components;
pub mod dispatch;
pub mod encoder;
pub mod error;
pub mod local_path;
pub mod locator;
pub mod pipeline;
pub mod pixels;
pub mod text;
