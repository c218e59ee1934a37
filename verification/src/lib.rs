//! A verified core for a media-organizing pipeline.
//!
//! Media files are classified by extension, a creation date is resolved from
//! embedded metadata with a fallback to the file's modification time, a
//! destination directory of the form `root/YYYY/MM/DD` is derived, and the
//! file is placed there while name/content conflicts are detected and
//! resolved. All decisions are made here over plain values; reading and
//! writing the actual files is left to the surrounding program.

pub mod audio_details;
pub mod classify;
pub mod compare;
pub mod date;
pub mod destination;
pub mod filetime;
pub mod resolve;
pub mod stats;
pub mod tags;
pub mod transfer;
pub mod text;
