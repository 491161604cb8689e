//! A safety layer for a desktop-notification subsystem.
//!
//! The notification subsystem keeps process-wide state: it is initialized
//! once with an application name, hands out notification handles, and is
//! torn down when the owning [`Context`] is destroyed.  This crate enforces
//! that protocol: at most one live `Context`, no operation on a
//! notification once its context is gone, and every failure of the
//! subsystem reported as a typed, recoverable error rather than a crash.
//!
//! The subsystem itself is reached through a narrow call surface, modelled
//! here by [`Subsystem`]: a value that tracks the observable state of the
//! native layer (initialized flag, live handles, which calls were made).
//! Every operation takes the subsystem explicitly, so the whole protocol
//! is checked against it.

mod errors;
mod text;
mod subsystem;
mod context;
mod notification;
pub mod laws;

pub use errors::{ContextCreationError, Error, NotificationCreationError, NotificationShowError};
pub use text::{check_texts, find_nul};
pub use subsystem::{Model, NoteModel, NoteRecord, Subsystem};
pub use context::Context;
pub use notification::Notification;
