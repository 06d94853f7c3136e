//! Driving the infrared emitter of cameras that publish a control for it.
//!
//! Everything sent to a camera is decided here; the caller performs each request and hands back
//! the reply. A control is written only where the camera's own descriptor publishes it, the value
//! comes from the camera's own answers or from a person who named it, and what was there before
//! is put back.
pub mod abort;
pub mod apply;
pub mod attempt;
pub mod capture_write;
pub mod consumers;
pub mod control;
pub mod derive;
pub mod descriptor;
pub mod discovery;
pub mod discovery_error;
pub mod enable;
pub mod finish;
pub mod memo;
pub mod payload;
pub mod recovery;
pub mod recovery_pass;
pub mod stream_mode;
pub mod trial;
pub mod undo;
pub mod xu;

pub use abort::abort_requested;
pub use control::EmitterControl;
pub use descriptor::describe_units;
pub use discovery::Discovery;
pub use discovery_error::DiscoveryError;
pub use enable::Enable;
pub use finish::Discovered;
pub use recovery::RecoveryOutcome;
pub use stream_mode::{RestoreError, StreamMode};
pub use xu::XuError;
