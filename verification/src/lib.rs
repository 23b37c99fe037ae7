//! Verified core of an HTTP bridge that relays the output of a media
//! extraction tool to web clients.
//!
//! The library holds the decision logic of the service: validating the
//! requested URL, building the two subprocess command lines (one that prints
//! the output filename, one that streams the media bytes), interpreting each
//! subprocess outcome, supervising the streaming subprocess against its
//! deadline, and mapping every failure to a status code and response body.
//! The surrounding process — the HTTP server, the subprocess spawning and the
//! actual byte forwarding — hands events in as plain values and carries the
//! decisions out.

pub mod config;
pub mod dto;
pub mod errors;
pub mod handlers;
pub mod text;
pub mod validated_query;
