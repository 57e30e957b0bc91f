//! Process lifecycle core of a desktop shell front-end.
//!
//! The library decides; the host performs. It turns shell requests into plans,
//! frames raw pipe bytes into lines, tags them as events, keeps the single slot
//! that names the running session, and drives the two-step kill protocol.
//! Spawning processes, reading pipes and delivering events to a window is left
//! to the host application.

mod text;

pub mod dispatch;
pub mod events;
pub mod framer;
pub mod lookups;
pub mod registry;
pub mod session;
pub mod streamer;
pub mod terminator;
