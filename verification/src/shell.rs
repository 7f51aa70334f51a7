//! Commands of the first interactive client of the daemon, which named realms
//! and applications by the text of their UUIDs.
use vstd::prelude::*;

verus! {

/// A command typed at the first client's prompt.
#[derive(Debug, Clone, PartialEq, Eq)]
pub enum Command {
    CreateRealm {
        cpu: String,
        machine: String,
        core_count: usize,
        ram_size: usize,
        tap_device: String,
        mac_address: String,
        network_device: Option<String>,
        remote_terminal_uri: Option<String>,
        vsock_cid: u32,
        kernel: String,
    },
    ListRealms,
    StartRealm { id: String },
    InspectRealm { id: String },
    StopRealm { id: String },
    DestroyRealm { id: String },
    CreateApplication { realm_id: String },
    StartApp { application_id: String, realm_id: String },
    StopApp { application_id: String, realm_id: String },
    UpdateApp { application_id: String, realm_id: String },
}

} // verus!
