//! Native backend logic of a desktop application shell.
//!
//! The shell exposes five commands to its front end: a greeting echo, a
//! save-file dialog that writes a string payload to a user-chosen path, an
//! open-file dialog that reads a chosen file, a system-notification trigger,
//! and an app-version getter. The interactive dialogs, the filesystem access
//! and the notification center belong to the host framework and stay outside
//! this crate; what stands here is every decision the commands make: which
//! dialog filters are offered, what is written where, which result or error
//! string each outcome produces, and the registry of command names.

pub mod file_dialog;
pub mod greet;
pub mod notification;
pub mod registry;
pub mod version;
