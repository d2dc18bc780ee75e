//! Logic shared by the client and the server.
pub mod constants;
pub mod world_generator;
