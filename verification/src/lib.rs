//! Tracker for the approximate member counts of a single remote community,
//! reconciling rate-limited approximations against a stream of membership and
//! presence events to tell genuine joins, leaves and offline transitions apart
//! from members who merely turned invisible.

pub mod counts;
pub mod handler;
pub mod laws;
pub mod parse;
pub mod settings;
