//! The daemon's model of realms and applications: their configuration, state
//! and the errors of the managers that handle them. UUIDs are held as their
//! 128-bit values.
use vstd::prelude::*;
use crate::ip::IpAddress;

verus! {

/// Lifecycle state of a realm.
#[derive(Clone, Copy, Debug, PartialEq, Eq, Structural)]
pub enum State {
    Halted,
    Provisioning,
    Running,
    NeedReboot,
}

/// A network interface of a running realm.
#[derive(Debug, Clone, PartialEq, Eq)]
pub struct RealmNetwork {
    pub ip: IpAddress,
    pub if_name: String,
}

/// What the daemon reports about a realm.
#[derive(Debug, PartialEq, Eq)]
pub struct RealmData {
    pub state: State,
    pub applications: Vec<u128>,
    pub ips: Vec<RealmNetwork>,
}

/// A realm and what the daemon reports about it.
#[derive(Debug, PartialEq, Eq)]
pub struct RealmDescription {
    pub uuid: u128,
    pub realm_data: RealmData,
}

/// Errors of a realm's manager.
#[derive(Debug, PartialEq, Eq)]
pub enum RealmError {
    ApplicationMissing(u128),
    RealmStartFail(String),
    RealmStopFail(String),
    RealmAcuireIpsFail(String),
    UnsupportedAction(String),
    RealmLaunchFail(String),
    VmStopFail(String),
    VmDestroyFail(String),
    ApplicationOperation(String),
    ApplicationCreationFail(String),
    PrepareApplications(String),
}

/// Errors of the warden, the manager of all realms.
#[derive(Debug, PartialEq, Eq)]
pub enum WardenError {
    NoSuchRealm(u128),
    RealmInspect(String),
    DestroyFail(String),
    RealmCreationFail(String),
}

/// Errors of a realm's virtual machine manager.
#[derive(Debug, PartialEq, Eq)]
pub enum VmManagerError {
    Launch(String),
    VmNotLaunched,
    VmAlreadyLaunched,
    GetExitCode(String),
    Shutdown(String),
}

/// CPU of a realm.
#[derive(Debug, PartialEq, Eq)]
pub struct CpuConfig {
    pub cpu: String,
    pub cores_number: usize,
}

/// Memory of a realm, in MiB.
#[derive(Debug, PartialEq, Eq)]
pub struct MemoryConfig {
    pub ram_size: usize,
}

/// Network of a realm.
#[derive(Debug, PartialEq, Eq)]
pub struct NetworkConfig {
    pub vsock_cid: u32,
    pub tap_device: String,
    pub mac_address: String,
    pub hardware_device: Option<String>,
    pub remote_terminal_uri: Option<String>,
}

/// Kernel of a realm.
#[derive(Debug, PartialEq, Eq)]
pub struct KernelConfig {
    pub kernel_path: String,
    pub kernel_initramfs_path: Option<String>,
    pub kernel_cmd_params: Option<String>,
}

/// Configuration of a realm.
#[derive(Debug, PartialEq, Eq)]
pub struct RealmConfig {
    pub machine: String,
    pub cpu: CpuConfig,
    pub memory: MemoryConfig,
    pub network: NetworkConfig,
    pub kernel: KernelConfig,
}

fn duplicate_text(t: &Option<String>) -> (r: Option<String>)
    ensures
        r == *t,
{
    match t {
        Some(s) => Some(s.clone()),
        None => None,
    }
}

impl RealmConfig {
    /// A copy of the configuration.
    pub fn duplicate(&self) -> (r: RealmConfig)
        ensures
            r == *self,
    {
        RealmConfig {
            machine: self.machine.clone(),
            cpu: CpuConfig { cpu: self.cpu.cpu.clone(), cores_number: self.cpu.cores_number },
            memory: MemoryConfig { ram_size: self.memory.ram_size },
            network: NetworkConfig {
                vsock_cid: self.network.vsock_cid,
                tap_device: self.network.tap_device.clone(),
                mac_address: self.network.mac_address.clone(),
                hardware_device: duplicate_text(&self.network.hardware_device),
                remote_terminal_uri: duplicate_text(&self.network.remote_terminal_uri),
            },
            kernel: KernelConfig {
                kernel_path: self.kernel.kernel_path.clone(),
                kernel_initramfs_path: duplicate_text(&self.kernel.kernel_initramfs_path),
                kernel_cmd_params: duplicate_text(&self.kernel.kernel_cmd_params),
            },
        }
    }
}

/// Configuration of an application inside a realm.
#[derive(Debug, PartialEq, Eq)]
pub struct ApplicationConfig {
    pub name: String,
    pub version: String,
    pub image_registry: String,
    pub image_storage_size_mb: u32,
    pub data_storage_size_mb: u32,
}

/// An application as it is provisioned into a realm.
#[derive(Debug, PartialEq, Eq)]
pub struct ApplicationData {
    pub id: u128,
    pub name: String,
    pub version: String,
    pub image_registry: String,
    pub image_part_uuid: u128,
    pub data_part_uuid: u128,
}

/// The applications provisioned into a realm when it starts.
#[derive(Debug, PartialEq, Eq)]
pub struct RealmProvisioningConfig {
    pub applications_data: Vec<ApplicationData>,
}

/// An empty text.
pub open spec fn empty_text() -> Seq<char> {
    Seq::empty()
}

/// Whether a realm configuration has every field empty or zero.
pub open spec fn is_default_realm_config(c: RealmConfig) -> bool {
    &&& c.machine@ == empty_text()
    &&& c.cpu.cpu@ == empty_text()
    &&& c.cpu.cores_number == 0
    &&& c.memory.ram_size == 0
    &&& c.network.vsock_cid == 0
    &&& c.network.tap_device@ == empty_text()
    &&& c.network.mac_address@ == empty_text()
    &&& c.network.hardware_device is None
    &&& c.network.remote_terminal_uri is None
    &&& c.kernel.kernel_path@ == empty_text()
    &&& c.kernel.kernel_initramfs_path is None
    &&& c.kernel.kernel_cmd_params is None
}

/// Whether an application configuration has every field empty or zero.
pub open spec fn is_default_app_config(c: ApplicationConfig) -> bool {
    &&& c.name@ == empty_text()
    &&& c.version@ == empty_text()
    &&& c.image_registry@ == empty_text()
    &&& c.image_storage_size_mb == 0
    &&& c.data_storage_size_mb == 0
}

/// Whether application data has every field empty or zero.
pub open spec fn is_default_application_data(d: ApplicationData) -> bool {
    &&& d.id == 0
    &&& d.name@ == empty_text()
    &&& d.version@ == empty_text()
    &&& d.image_registry@ == empty_text()
    &&& d.image_part_uuid == 0
    &&& d.data_part_uuid == 0
}

impl Default for RealmConfig {
    fn default() -> (r: RealmConfig)
        ensures
            is_default_realm_config(r),
    {
        RealmConfig {
            machine: String::new(),
            cpu: CpuConfig { cpu: String::new(), cores_number: 0 },
            memory: MemoryConfig { ram_size: 0 },
            network: NetworkConfig {
                vsock_cid: 0,
                tap_device: String::new(),
                mac_address: String::new(),
                hardware_device: None,
                remote_terminal_uri: None,
            },
            kernel: KernelConfig {
                kernel_path: String::new(),
                kernel_initramfs_path: None,
                kernel_cmd_params: None,
            },
        }
    }
}

impl Default for ApplicationConfig {
    fn default() -> (r: ApplicationConfig)
        ensures
            is_default_app_config(r),
    {
        ApplicationConfig {
            name: String::new(),
            version: String::new(),
            image_registry: String::new(),
            image_storage_size_mb: 0,
            data_storage_size_mb: 0,
        }
    }
}

impl Default for ApplicationData {
    fn default() -> (r: ApplicationData)
        ensures
            is_default_application_data(r),
    {
        ApplicationData {
            id: 0,
            name: String::new(),
            version: String::new(),
            image_registry: String::new(),
            image_part_uuid: 0,
            data_part_uuid: 0,
        }
    }
}

impl Default for RealmProvisioningConfig {
    fn default() -> (r: RealmProvisioningConfig)
        ensures
            r.applications_data@.len() == 0,
    {
        RealmProvisioningConfig { applications_data: Vec::new() }
    }
}

/// A realm configuration with every field empty or zero.
pub fn create_example_realm_config() -> (r: RealmConfig)
    ensures
        is_default_realm_config(r),
{
    RealmConfig::default()
}

/// An application configuration with every field empty or zero.
pub fn create_example_app_config() -> (r: ApplicationConfig)
    ensures
        is_default_app_config(r),
{
    ApplicationConfig::default()
}

/// A provisioning configuration without applications.
pub fn create_example_realm_provisioning_config() -> (r: RealmProvisioningConfig)
    ensures
        r.applications_data@.len() == 0,
{
    RealmProvisioningConfig::default()
}

/// Application data with every field empty or zero.
pub fn create_example_application_data() -> (r: ApplicationData)
    ensures
        is_default_application_data(r),
{
    ApplicationData::default()
}

/// Data of a realm that is halted and holds nothing.
pub fn create_example_realm_data() -> (r: RealmData)
    ensures
        r.state == State::Halted,
        r.applications@.len() == 0,
        r.ips@.len() == 0,
{
    RealmData { state: State::Halted, applications: Vec::new(), ips: Vec::new() }
}

/// The UUID used in examples, `a46289a4-5902-4586-81a3-908bdd62e7a1`.
pub fn create_example_uuid() -> (r: u128)
    ensures
        r == 0xa46289a4_5902_4586_81a3_908bdd62e7a1u128,
{
    0xa46289a4_5902_4586_81a3_908bdd62e7a1u128
}

/// The example realm, halted and holding nothing.
pub fn create_example_realm_description() -> (r: RealmDescription)
    ensures
        r.uuid == 0xa46289a4_5902_4586_81a3_908bdd62e7a1u128,
        r.realm_data.state == State::Halted,
        r.realm_data.applications@.len() == 0,
        r.realm_data.ips@.len() == 0,
{
    RealmDescription { uuid: create_example_uuid(), realm_data: create_example_realm_data() }
}

} // verus!
