//! Verified core of the warden realm daemon: disk layout decisions, address
//! arithmetic, firewall plans, VM command lines, client protocol handling.

pub mod text;
pub mod disk;
pub mod ip;
pub mod iptables;
pub mod realm;
pub mod uuids;
pub mod vm;
pub mod protocol;
pub mod client;
pub mod network;
pub mod daemon;
pub mod shell;
