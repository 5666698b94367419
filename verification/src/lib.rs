//! Real-time event distribution for a guild/channel chat service.
//!
//! Every connected client is served by one [`session::Session`], a state
//! machine that owns a private [`snapshot::Snapshot`] of the guilds and
//! channels its user can see, filters the events that mutation handlers
//! publish, and keeps the snapshot consistent as memberships and topology
//! change.

pub mod bus;
pub mod credentials;
pub mod envelope;
pub mod event;
pub mod guarantees;
pub mod handlers;
pub mod model;
pub mod persistence;
pub mod session;
pub mod snapshot;
pub mod timeline;
pub mod timestamp;
