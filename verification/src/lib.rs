//! A verified core for a desktop `tel:` URI handler that triggers calls
//! through a PBX click-to-call HTTP endpoint.
//!
//! The library holds the logic that is worth proving: phone-number
//! normalization, the settings record and its persisted text format,
//! construction of the click-to-call request URL, the dispatch decision and
//! outcome reporting, primary/secondary role determination, the forwarding
//! protocol of a secondary instance, and the routing decisions of the
//! primary's socket listener. Process, socket, file and HTTP plumbing live
//! outside the library and hand it plain values.

pub mod coordinate;
pub mod dispatch;
pub mod listener;
pub mod platform;
pub mod prefs;
pub mod session;
pub mod settings;
pub mod tel;
pub mod text;
