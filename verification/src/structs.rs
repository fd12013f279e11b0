//! The data that travels between the client and its caller.

pub mod errors;
pub mod model;
