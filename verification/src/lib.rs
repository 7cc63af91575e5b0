//! Verified core of a cloud-snapshot backup pipeline.
//!
//! The library holds the logic worth proving: the action-polling state
//! machine, the transform-chain builder, and the streaming copier with
//! integrity digest. Network and file I/O live outside the library.

pub mod api;
pub mod config;
pub mod digest;
pub mod error;
pub mod poll;
pub mod sync;
pub mod xz;

pub use api::Action;
pub use api::ActionStatus;
pub use config::Cli;
pub use config::Config;
pub use error::HbpError;
pub use error::HetznerError;
pub use sync::SyncOptions;
