//! Verified core of a small multiplayer top-down shooter: player animation
//! states, procedural world layout (blob tileset masks), hit and pickup
//! bookkeeping.
pub mod protocol;
pub mod render;
pub mod shared;
pub mod server;
