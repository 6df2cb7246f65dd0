//! Signalling core of a one-to-many WebRTC broadcast server.
pub mod event_handlers;
pub mod helpers;
pub mod laws;
pub mod models;
pub mod roles;
pub mod rooms;
pub mod utils;
