//! The camera's own answer to "was the illuminator on for this frame?".
pub mod burst;
pub mod ioctl;
pub mod log;
pub mod node;
pub mod parse;

pub use burst::brightest_lit;
pub use parse::{parse_illumination, Illumination};
