//! Watches a directory subtree through the kernel's fanotify notification
//! channel: opens the endpoint, reads batches of variable-length binary
//! records, decodes each record into a typed event, and hands the events to a
//! consumer in order.

pub mod dfa;
pub mod fanotify;
pub mod fanotify_header;
