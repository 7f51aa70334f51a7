//! The messages between the warden's clients and the daemon, and the
//! conversions between them and the daemon's own model.
use vstd::prelude::*;
use crate::ip::IpAddress;
use crate::realm;

verus! {

/// Lifecycle state of a realm, as clients see it.
#[derive(Clone, Copy, Debug, PartialEq, Eq, Structural)]
pub enum State {
    Halted,
    Provisioning,
    Running,
    NeedReboot,
}

/// CPU of a realm.
#[derive(Debug, PartialEq, Eq)]
pub struct CpuConfig {
    pub cpu: String,
    pub cores_number: usize,
}

/// Memory of a realm, in MiB.
#[derive(Debug, PartialEq, Eq)]
pub struct MemoryConfig {
    pub ram_size: usize,
}

/// Network of a realm.
#[derive(Debug, PartialEq, Eq)]
pub struct NetworkConfig {
    pub vsock_cid: u32,
    pub tap_device: String,
    pub mac_address: String,
    pub hardware_device: Option<String>,
    pub remote_terminal_uri: Option<String>,
}

/// Kernel of a realm.
#[derive(Debug, PartialEq, Eq)]
pub struct KernelConfig {
    pub kernel_path: String,
    pub kernel_initramfs_path: Option<String>,
    pub kernel_cmd_params: Option<String>,
}

/// Configuration of a realm, as a client sends it.
#[derive(Debug, PartialEq, Eq)]
pub struct RealmConfig {
    pub machine: String,
    pub cpu: CpuConfig,
    pub memory: MemoryConfig,
    pub network: NetworkConfig,
    pub kernel: KernelConfig,
}

/// Configuration of an application, as a client sends it.
#[derive(Debug, PartialEq, Eq)]
pub struct ApplicationConfig {
    pub name: String,
    pub version: String,
    pub image_registry: String,
    pub image_storage_size_mb: u32,
    pub data_storage_size_mb: u32,
}

/// A network interface of a realm.
#[derive(Debug, PartialEq, Eq)]
pub struct RealmNetwork {
    pub ip: IpAddress,
    pub if_name: String,
}

/// A realm as clients see it.
#[derive(Debug, PartialEq, Eq)]
pub struct RealmDescription {
    pub uuid: u128,
    pub state: State,
    pub applications: Vec<u128>,
    pub network: Vec<RealmNetwork>,
}

/// An application as it is provisioned into a realm.
#[derive(Debug, PartialEq, Eq)]
pub struct ApplicationInfo {
    pub id: u128,
    pub name: String,
    pub version: String,
    pub image_registry: String,
    pub image_part_uuid: u128,
    pub data_part_uuid: u128,
}

/// Errors the daemon reports to a client.
#[derive(Clone, Copy, Debug, PartialEq, Eq, Structural)]
pub enum WardenDaemonError {
    UnknownCommand,
}

/// Requests of a client to the daemon.
#[derive(Debug, PartialEq, Eq)]
pub enum WardenCommand {
    CreateRealm { config: RealmConfig },
    StartRealm { uuid: u128 },
    StopRealm { uuid: u128 },
    RebootRealm { uuid: u128 },
    DestroyRealm { uuid: u128 },
    InspectRealm { uuid: u128 },
    ListRealms,
    CreateApplication { realm_uuid: u128, config: ApplicationConfig },
    UpdateApplication { realm_uuid: u128, application_uuid: u128, config: ApplicationConfig },
    StartApplication { realm_uuid: u128, application_uuid: u128 },
    StopApplication { realm_uuid: u128, application_uuid: u128 },
}

/// Answers of the daemon to a client.
#[derive(Debug, PartialEq, Eq)]
pub enum WardenResponse {
    Success,
    Error { warden_error: WardenDaemonError },
    CreatedRealm { uuid: u128 },
    InspectedRealm { description: RealmDescription },
    ListedRealms { realms_description: Vec<RealmDescription> },
    CreatedApplication { uuid: u128 },
}

/// An application configuration, as a client sends it, with every field
/// empty or zero.
pub fn create_example_client_app_config() -> (r: ApplicationConfig)
    ensures
        r.name@ == Seq::<char>::empty(),
        r.version@ == Seq::<char>::empty(),
        r.image_registry@ == Seq::<char>::empty(),
        r.image_storage_size_mb == 0,
        r.data_storage_size_mb == 0,
{
    ApplicationConfig {
        name: String::new(),
        version: String::new(),
        image_registry: String::new(),
        image_storage_size_mb: 0,
        data_storage_size_mb: 0,
    }
}

// ---------------------------------------------------------------------------
// Conversions between the messages and the daemon's model.

/// The daemon's state for a client's state.
pub open spec fn spec_state_from_client(s: State) -> realm::State {
    match s {
        State::Halted => realm::State::Halted,
        State::Provisioning => realm::State::Provisioning,
        State::Running => realm::State::Running,
        State::NeedReboot => realm::State::NeedReboot,
    }
}

/// The client's state for a daemon's state.
pub open spec fn spec_state_to_client(s: realm::State) -> State {
    match s {
        realm::State::Halted => State::Halted,
        realm::State::Provisioning => State::Provisioning,
        realm::State::Running => State::Running,
        realm::State::NeedReboot => State::NeedReboot,
    }
}

/// The daemon's state for a client's state.
pub fn state_from_client(s: State) -> (r: realm::State)
    ensures
        r == spec_state_from_client(s),
{
    match s {
        State::Halted => realm::State::Halted,
        State::Provisioning => realm::State::Provisioning,
        State::Running => realm::State::Running,
        State::NeedReboot => realm::State::NeedReboot,
    }
}

/// The client's state for a daemon's state.
pub fn state_to_client(s: realm::State) -> (r: State)
    ensures
        r == spec_state_to_client(s),
{
    match s {
        realm::State::Halted => State::Halted,
        realm::State::Provisioning => State::Provisioning,
        realm::State::Running => State::Running,
        realm::State::NeedReboot => State::NeedReboot,
    }
}

/// Converting a state to the client's form and back gives it back.
pub proof fn law_state_round_trip(s: realm::State)
    ensures
        spec_state_from_client(spec_state_to_client(s)) == s,
        spec_state_to_client(spec_state_from_client(spec_state_to_client(s))) == spec_state_to_client(s),
{
}

/// The daemon's realm configuration for a client's. The kernel keeps only
/// its path: the initramfs and the command line parameters are dropped.
pub open spec fn spec_realm_config_from_client(c: RealmConfig) -> realm::RealmConfig {
    realm::RealmConfig {
        machine: c.machine,
        cpu: realm::CpuConfig { cpu: c.cpu.cpu, cores_number: c.cpu.cores_number },
        memory: realm::MemoryConfig { ram_size: c.memory.ram_size },
        network: realm::NetworkConfig {
            vsock_cid: c.network.vsock_cid,
            tap_device: c.network.tap_device,
            mac_address: c.network.mac_address,
            hardware_device: c.network.hardware_device,
            remote_terminal_uri: c.network.remote_terminal_uri,
        },
        kernel: realm::KernelConfig {
            kernel_path: c.kernel.kernel_path,
            kernel_initramfs_path: None,
            kernel_cmd_params: None,
        },
    }
}

/// A state keeps its name between the daemon's and the client's form.
pub proof fn law_state_keeps_its_name()
    ensures
        spec_state_to_client(realm::State::Halted) == State::Halted,
        spec_state_to_client(realm::State::Provisioning) == State::Provisioning,
        spec_state_to_client(realm::State::Running) == State::Running,
        spec_state_to_client(realm::State::NeedReboot) == State::NeedReboot,
        spec_state_from_client(State::Halted) == realm::State::Halted,
        spec_state_from_client(State::Provisioning) == realm::State::Provisioning,
        spec_state_from_client(State::Running) == realm::State::Running,
        spec_state_from_client(State::NeedReboot) == realm::State::NeedReboot,
{
}

/// The daemon takes over each field of a client's realm configuration as it
/// is, but for the kernel's initramfs and command line parameters, which it
/// leaves out.
pub proof fn law_realm_config_taken_over(c: RealmConfig)
    ensures
        ({
            let r = spec_realm_config_from_client(c);
            &&& r.machine == c.machine
            &&& r.cpu.cpu == c.cpu.cpu
            &&& r.cpu.cores_number == c.cpu.cores_number
            &&& r.memory.ram_size == c.memory.ram_size
            &&& r.network.vsock_cid == c.network.vsock_cid
            &&& r.network.tap_device == c.network.tap_device
            &&& r.network.mac_address == c.network.mac_address
            &&& r.network.hardware_device == c.network.hardware_device
            &&& r.network.remote_terminal_uri == c.network.remote_terminal_uri
            &&& r.kernel.kernel_path == c.kernel.kernel_path
            &&& r.kernel.kernel_initramfs_path is None
            &&& r.kernel.kernel_cmd_params is None
        }),
{
}

/// The daemon's realm configuration for a client's (see `spec_realm_config_from_client`).
pub fn realm_config_from_client(c: RealmConfig) -> (r: realm::RealmConfig)
    ensures
        r == spec_realm_config_from_client(c),
{
    realm::RealmConfig {
        machine: c.machine,
        cpu: realm::CpuConfig { cpu: c.cpu.cpu, cores_number: c.cpu.cores_number },
        memory: realm::MemoryConfig { ram_size: c.memory.ram_size },
        network: realm::NetworkConfig {
            vsock_cid: c.network.vsock_cid,
            tap_device: c.network.tap_device,
            mac_address: c.network.mac_address,
            hardware_device: c.network.hardware_device,
            remote_terminal_uri: c.network.remote_terminal_uri,
        },
        kernel: realm::KernelConfig {
            kernel_path: c.kernel.kernel_path,
            kernel_initramfs_path: None,
            kernel_cmd_params: None,
        },
    }
}

/// The daemon's application configuration for a client's.
pub fn application_config_from_client(c: ApplicationConfig) -> (r: realm::ApplicationConfig)
    ensures
        r.name == c.name,
        r.version == c.version,
        r.image_registry == c.image_registry,
        r.image_storage_size_mb == c.image_storage_size_mb,
        r.data_storage_size_mb == c.data_storage_size_mb,
{
    realm::ApplicationConfig {
        name: c.name,
        version: c.version,
        image_registry: c.image_registry,
        image_storage_size_mb: c.image_storage_size_mb,
        data_storage_size_mb: c.data_storage_size_mb,
    }
}

/// A client's view of a realm's network interface.
pub fn realm_network_to_client(n: realm::RealmNetwork) -> (r: RealmNetwork)
    ensures
        r.ip == n.ip,
        r.if_name == n.if_name,
{
    RealmNetwork { ip: n.ip, if_name: n.if_name }
}

/// A client's view of a realm: its UUID, state, applications and interfaces.
pub fn realm_description_to_client(d: realm::RealmDescription) -> (r: RealmDescription)
    ensures
        r.uuid == d.uuid,
        r.state == spec_state_to_client(d.realm_data.state),
        r.applications@ == d.realm_data.applications@,
        r.network@.len() == d.realm_data.ips@.len(),
        forall|i: int|
            0 <= i < r.network@.len() ==> (#[trigger] r.network@[i]).ip == d.realm_data.ips@[i].ip
                && r.network@[i].if_name == d.realm_data.ips@[i].if_name,
{
    let realm::RealmDescription { uuid, realm_data } = d;
    let realm::RealmData { state, applications, ips } = realm_data;
    let mut network: Vec<RealmNetwork> = Vec::new();
    let mut i: usize = 0;
    while i < ips.len()
        invariant
            i <= ips@.len(),
            network@.len() == i,
            forall|k: int|
                0 <= k < i ==> (#[trigger] network@[k]).ip == ips@[k].ip
                    && network@[k].if_name == ips@[k].if_name,
        decreases ips@.len() - i,
    {
        network.push(RealmNetwork { ip: ips[i].ip, if_name: ips[i].if_name.clone() });
        i = i + 1;
    }
    RealmDescription { uuid, state: state_to_client(state), applications, network }
}

/// A provisioned application as it is sent to a realm.
pub fn application_info_from_data(d: realm::ApplicationData) -> (r: ApplicationInfo)
    ensures
        r.id == d.id,
        r.name == d.name,
        r.version == d.version,
        r.image_registry == d.image_registry,
        r.image_part_uuid == d.image_part_uuid,
        r.data_part_uuid == d.data_part_uuid,
{
    ApplicationInfo {
        id: d.id,
        name: d.name,
        version: d.version,
        image_registry: d.image_registry,
        image_part_uuid: d.image_part_uuid,
        data_part_uuid: d.data_part_uuid,
    }
}

/// The applications of a provisioning configuration, in order, as they are
/// sent to the realm.
pub fn application_infos_from_provisioning(config: realm::RealmProvisioningConfig) -> (r: Vec<ApplicationInfo>)
    ensures
        r@.len() == config.applications_data@.len(),
        forall|i: int|
            0 <= i < r@.len() ==> {
                let d = config.applications_data@[i];
                &&& (#[trigger] r@[i]).id == d.id
                &&& r@[i].name == d.name
                &&& r@[i].version == d.version
                &&& r@[i].image_registry == d.image_registry
                &&& r@[i].image_part_uuid == d.image_part_uuid
                &&& r@[i].data_part_uuid == d.data_part_uuid
            },
{
    let ghost data = config.applications_data@;
    let mut rest = config.applications_data;
    let mut reversed: Vec<ApplicationInfo> = Vec::new();
    while rest.len() > 0
        invariant
            rest@.len() + reversed@.len() == data.len(),
            rest@ == data.subrange(0, rest@.len() as int),
            forall|k: int|
                0 <= k < reversed@.len() ==> {
                    let d = data[data.len() - 1 - k];
                    &&& (#[trigger] reversed@[k]).id == d.id
                    &&& reversed@[k].name == d.name
                    &&& reversed@[k].version == d.version
                    &&& reversed@[k].image_registry == d.image_registry
                    &&& reversed@[k].image_part_uuid == d.image_part_uuid
                    &&& reversed@[k].data_part_uuid == d.data_part_uuid
                },
        decreases rest@.len(),
    {
        let d = rest.pop().unwrap();
        reversed.push(application_info_from_data(d));
    }
    let mut r: Vec<ApplicationInfo> = Vec::new();
    while reversed.len() > 0
        invariant
            r@.len() + reversed@.len() == data.len(),
            forall|k: int|
                0 <= k < reversed@.len() ==> {
                    let d = data[data.len() - 1 - k];
                    &&& (#[trigger] reversed@[k]).id == d.id
                    &&& reversed@[k].name == d.name
                    &&& reversed@[k].version == d.version
                    &&& reversed@[k].image_registry == d.image_registry
                    &&& reversed@[k].image_part_uuid == d.image_part_uuid
                    &&& reversed@[k].data_part_uuid == d.data_part_uuid
                },
            forall|i: int|
                0 <= i < r@.len() ==> {
                    let d = data[i];
                    &&& (#[trigger] r@[i]).id == d.id
                    &&& r@[i].name == d.name
                    &&& r@[i].version == d.version
                    &&& r@[i].image_registry == d.image_registry
                    &&& r@[i].image_part_uuid == d.image_part_uuid
                    &&& r@[i].data_part_uuid == d.data_part_uuid
                },
        decreases reversed@.len(),
    {
        let info = reversed.pop().unwrap();
        r.push(info);
    }
    r
}

} // verus!
