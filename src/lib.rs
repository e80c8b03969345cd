//! Building and checking FreeDesktop launcher (`.desktop`) entries.
//!
//! The library holds the entry model, its validation rule, the derivation of
//! the launcher's file name and path, and the exact text of the file. Reading
//! the form, locating the data directory, writing the file and showing a
//! notification are left to the program around it.

pub mod text;
pub mod entry;
pub mod plan;
pub mod laws;
