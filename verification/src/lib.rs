//! Helpers for a harness that runs compiled binaries: what kind of binary a
//! path names, and the decisions behind running a command under a deadline.

pub mod classify;
pub mod error;
pub mod runner;
pub mod trace;

pub use classify::BinaryKind;
pub use classify::binary_kind;
pub use classify::classify_dir_name;
pub use error::IoErrorContext;
pub use error::RunError;
pub use runner::Action;
pub use runner::Event;
pub use runner::RunState;
