//! Decisions for moving a folder out of a cloud-synced tree: where the working
//! directory lies, how the folder is relocated and linked back, and what the
//! ignore file gains. Nothing here touches the disk or the terminal; callers
//! report what they found and carry out what is decided.

pub mod gitignore;
pub mod install;
pub mod location;
pub mod paths;
pub mod relocate;
pub mod run;
pub mod text;
