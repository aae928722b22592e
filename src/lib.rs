//! A supervision kernel for long-running protocol services.
//!
//! A service implements [`Server`]; the kernel feeds it messages through a
//! bounded channel and collects its failures. The decisions of the
//! supervising loop are the [`Supervisor`] state machine, whose laws are
//! proved here.

pub mod error;
pub mod handle;
pub mod service;
pub mod supervisor;

pub use error::{KernelError, Res, ServerError, VoidRes, POISONED_LOCK};
pub use handle::{sync_send_outcome, ServerHandle, BLOCKING_NOT_ALLOWED, CAPACITY};
pub use service::Server;
pub use supervisor::{Phase, Supervisor};
