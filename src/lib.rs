//! Renames image files after their capture date: the date stored in the
//! file's EXIF metadata, or the file's creation time when there is none.
//!
//! The library decides; the program around it reads files, asks the file
//! system for creation times and existing names, and performs the moves.
pub mod text;
pub mod timestamp;
pub mod metadata;
pub mod resolve;
pub mod target;
pub mod rename;
