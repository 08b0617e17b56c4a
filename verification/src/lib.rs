//! Host-agent utilities: a backup-telemetry pipeline and a wake-on-LAN
//! packet builder.
//!
//! The pipeline invokes a deduplicating backup tool, extracts statistics
//! from its structured run report, encodes them as line-protocol telemetry
//! points, and prepares the HTTP requests that deliver them to a
//! time-series database, with a defined start/success/error reporting
//! contract.  All decision logic lives here, verified; the surrounding
//! process, network and clock work is left to the binary that drives it.

pub mod config;
pub mod encode;
pub mod extract;
pub mod json;
pub mod pipeline;
pub mod point;
pub mod wol;
