//! A minimal process supervisor, written so that every decision it takes is
//! verified while the operating system stays outside.
//!
//! A [`Module`] describes one external program; a [`Collection`] is an ordered
//! group of modules that is started, waited for and stopped as a unit. The
//! library never touches a process or the file system itself. Each lifecycle
//! operation is a step function: it takes the [`Event`] that reports what the
//! environment last did and answers with the [`Action`] to perform next, until
//! it answers [`Action::Done`]. Configuration discovery works on a snapshot of
//! what was found on disk, handed over as plain values.

pub mod collection;
pub mod config;
pub mod error;
pub mod laws;
pub mod module;
pub mod paths;
pub mod protocol;
pub mod snapshot;

pub use collection::Collection;
pub use error::{ConfigFault, DockrError, DockrResult, Field};
pub use module::{Module, ModuleView};
pub use protocol::{Action, ActionView, Event, Launch, LaunchView, Op, Warning, POLL_INTERVAL, STOP_TIMEOUT};
pub use snapshot::{FileEntry, Listing};
