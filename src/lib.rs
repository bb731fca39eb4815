//! Progress reporting for a blockchain client: the decisions behind the
//! block-import watcher (best-block tracking, reorganization detection,
//! deduplication of "imported" reports) and behind the periodic network-status
//! sampler. The loops that feed these decisions with events live with the host.

pub mod block;
pub mod format;
pub mod recent;
pub mod sampler;
pub mod watcher;
