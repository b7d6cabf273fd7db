//! Decisions of an upload-and-transcode service: which target format a
//! request asks for, which files it names, what the transcoder is handed,
//! and which JSON-ready reply comes back.
pub mod format;
pub mod naming;
pub mod reply;
pub mod upload;
