//! The data the service holds: its database pool.

pub mod db;
