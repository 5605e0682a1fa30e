//! Safe flashing of disk images to removable devices.
//!
//! The crate holds the decision logic of the flasher: classifying an image
//! header, choosing target devices, building the privileged command lines,
//! following the progress stream of the block copy, and the session state
//! machine that a front end drives. Every function carries a contract.
//! Verus proves them all but those of three small wrappers around the
//! standard library, which are marked and say what they take on trust.
//! Nothing here reads a file, runs a command or touches a device: the front
//! end does that and reports what it found.

pub mod device;
pub mod flash;
pub mod iso;
pub mod label;
pub mod picker;
pub mod session;
pub mod text;

pub use device::Disk;
pub use iso::IsoKind;
pub use picker::load_entries;
pub use session::{handle_key, iso_info_line, App, AppExit, FileEntry, FlashResult, Step};
