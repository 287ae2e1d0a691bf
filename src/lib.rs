//! Client-side bridge to the GoConnect background daemon.
//!
//! The library holds everything that decides: which endpoint and token file
//! belong to a platform, how the credential is cleaned and attached to a
//! call, how each service request is built, how each daemon reply becomes an
//! application record, how transfer statistics are folded, and when the
//! session cache connects. Performing the calls is left to the caller.
mod records;
pub mod text;
pub mod platform;
pub mod stats;
pub mod wire;
pub mod client;
pub mod session;

pub use records::{
    ChatMessage, DaemonError, DaemonStatus, NetworkInfo, PeerInfo, Settings, TransferInfo,
    TransferStats, VersionInfo,
};
