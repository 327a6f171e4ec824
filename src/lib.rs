//! Control-plane client logic for over-the-air firmware updates of remote
//! devices: the identity decoder, the operations and their convergence rules,
//! and the wait state machines that an outer transport loop drives.

pub mod decode;
pub mod engine;
pub mod model;
pub mod op;
pub mod render;
pub mod topics;
