//! Authoritative per-plot synchronisation for a voxel-world server: inbound
//! player events are validated against server state, applied, and turned into
//! the outbound updates that keep every other observer consistent.

pub mod commands;
pub mod geometry;
pub mod movement;
pub mod ownership;
pub mod player;
pub mod plot;
pub mod packet_handlers;
pub mod text;
