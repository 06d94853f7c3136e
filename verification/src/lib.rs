//! Camera evidence and infrared emitter rules.
pub mod contracts;
pub mod frame_provenance;
pub mod inventory;
pub mod ir_dark;
pub mod ir_emitter;
pub mod ir_metadata;
pub mod reading;
pub mod text;
