//! Core logic of a small web service: a shared monotonic counter, a
//! request guard that checks for a request-identifier header, and the pure
//! computations behind each route (body rendering, quotient computation,
//! header echoing). The HTTP framework itself (routing, listening,
//! extraction) is an external collaborator and lives outside this crate.

pub mod compute;
pub mod config;
pub mod counter;
pub mod fields;
pub mod gate;
pub mod render;
