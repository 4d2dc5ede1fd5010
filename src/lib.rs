//! Attach, create and detach macOS disk images through the `hdiutil` utility.
//!
//! The library renders the utility's arguments from fluent builders, reads
//! what the utility reports back, and wraps an attached image in a handle.
//! Running the utility is left to the caller: each operation hands out the
//! arguments to run it with and takes its [`CommandOutput`] back.

pub mod attach;
pub mod command;
pub mod create;
pub mod property;
pub mod response;

pub use attach::{detach_arguments, Attach, Handle, With};
pub use command::{check_exit, detach_outcome, CommandOutput, Error, DISK_COMMAND};
pub use create::{FolderImageFormat, FromFolder};
pub use response::{decode_plist, decode_response, Info};
