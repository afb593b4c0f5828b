//! A symlink farm manager: the contents of named packages under a source
//! directory are projected into a target directory by symlinks.
//!
//! The library decides; it never touches the filesystem. A [`Linker`] is a
//! state machine: it names the next filesystem operation as a [`Request`], the
//! caller performs it and hands the observation back as an [`Event`], and the
//! linker answers with the notices to print and the next request.
//!
//! ```text
//! let mut linker = Linker::build(dir, target, simulate)?;
//! let mut notices = linker.link(&packages);
//! loop {
//!     print(&notices);
//!     if linker.finished() {
//!         break;
//!     }
//!     let event = perform(linker.request());
//!     notices = linker.step(event);
//! }
//! ```
pub mod config;
pub mod guarantees;
pub mod link;
pub mod linker;
pub mod model;
pub mod protocol;
pub mod real_linker;
pub mod simulate;
pub mod unlink;
pub mod utils;

pub use config::{LinkerConfig, LinkerConfigImpl};
pub use link::{common_create_symlink, LinkCreator, LinkCreatorExt};
pub use linker::Linker;
pub use protocol::{Entry, Event, Mode, Notice, Outcome, Pass, Request, Work};
pub use real_linker::RealLinker;
pub use simulate::SimulateLinker;
pub use unlink::{common_remove_symlink, LinkRemover, LinkRemoverExt};
pub use utils::{absolute, walkdir};
