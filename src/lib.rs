//! Session control plane for a screen caster and its receivers.
//!
//! The library decides; the caller performs. Each operation of a session
//! returns the media pipeline and signaling commands to issue, and the
//! outcome of that outside work is handed back to the session, which then
//! settles its state.
pub mod address;
pub mod command;
pub mod server;
pub mod client;
pub mod streaming;
pub mod laws;
