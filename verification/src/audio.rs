//! Audio filtering.

pub mod window_sinc;
