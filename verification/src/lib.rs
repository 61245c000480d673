//! Keeps two directories of music albums in step: the immediate children of a
//! source root and of a target root are listed by name, albums already present
//! on the target side are pre-marked, the user may toggle single albums, and a
//! sync plan says which albums to copy over and which are candidates for
//! removal. All decisions are made here over plain values; reading
//! directories, the folder picker and the copy itself live in the host
//! program around this crate.

pub mod album;
pub mod diff;
pub mod error;
pub mod laws;
pub mod lister;
pub mod model;
pub mod plan;
pub mod state;
