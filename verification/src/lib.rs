//! The core of a small HTTP service: deciding how the process starts up
//! around its database pool, and which response each request receives.
//!
//! Nothing here performs I/O. The process that hosts this library reads the
//! environment, opens the pool and runs the HTTP server; this library tells
//! it what to do next and what to answer.

pub mod model;
pub mod router;
pub mod startup;
