//! The realms' NAT network: the bridge's address, the DHCP servers' command
//! lines, the order in which the network is set up (undoing what was done
//! when a step fails) and the realms' tap devices.
use vstd::prelude::*;
use crate::ip::{ip_text, IpAddress, IpNetwork, IpNetworkView, PrefixLenError, spec_saturating_add};
use crate::iptables::{routing_cleanup, routing_cleanup_plan, routing_setup, routing_setup_plan, plan_view, IptablesStep, StepView};
use crate::text::{concat2, concat3, owned};
use crate::uuids::{hyphenated, uuid_to_string};
use crate::vm::{texts, VmCommand, VmCommandView};

verus! {

broadcast use vstd::std_specs::hash::group_hash_axioms;

/// Errors of the network manager.
#[derive(Debug, PartialEq, Eq)]
pub enum NetworkManagerError {
    CreateNatNetwork(String),
    DestroyNatNetwork(String),
    CreateTapDevice(String),
    DestroyTapDevice(String),
}

/// Errors of a DHCP server.
#[derive(Debug, PartialEq, Eq)]
pub enum DHCPError {
    DHCPServerStart(String),
    DHCPServerStop(String),
}

/// Errors of a bridge.
#[derive(Debug, PartialEq, Eq)]
pub enum BridgeError {
    AddTap(String),
    RemoveTap(String),
}

/// Errors shared by the netlink handlers.
#[derive(Debug, PartialEq, Eq)]
pub enum CommonRtNetLinkErrors {
    ConnectionCreation(String),
}

/// A tap device: a realm's end of the network.
pub trait Tap {
    /// The device's name.
    spec fn spec_name(&self) -> Seq<char>;

    /// The device's name.
    fn get_name(&self) -> (r: &str)
        ensures
            r@ == self.spec_name(),
    ;
}

/// A bridge joining the realms' tap devices.
pub trait Bridge {
    /// The bridge's name.
    spec fn spec_name(&self) -> Seq<char>;

    /// The bridge's name.
    fn get_name(&self) -> (r: &str)
        ensures
            r@ == self.spec_name(),
    ;
}

/// A tap device known by its name.
#[derive(Debug)]
pub struct TapDevice {
    name: String,
}

impl TapDevice {
    /// The tap device named `name`.
    pub fn new(name: String) -> (r: TapDevice)
        ensures
            r.spec_name() == name@,
    {
        TapDevice { name }
    }
}

impl Tap for TapDevice {
    closed spec fn spec_name(&self) -> Seq<char> {
        self.name@
    }

    fn get_name(&self) -> (r: &str) {
        self.name.as_str()
    }
}

/// A bridge made through netlink, known by its name.
#[derive(Debug)]
pub struct RtNetLinkBridge {
    name: String,
}

impl RtNetLinkBridge {
    /// The bridge named `name`.
    pub fn new(name: String) -> (r: RtNetLinkBridge)
        ensures
            r.spec_name() == name@,
    {
        RtNetLinkBridge { name }
    }
}

impl Bridge for RtNetLinkBridge {
    closed spec fn spec_name(&self) -> Seq<char> {
        self.name@
    }

    fn get_name(&self) -> (r: &str) {
        self.name.as_str()
    }
}

/// Makes and removes tap devices (through `tokio_tun` and netlink).
pub struct TapDeviceFabric;

/// Makes and removes bridges (through netlink).
pub struct VirtualBridgeHandler;

/// The bridge of the NAT network and its network.
pub struct NetworkConfig {
    pub net_if_name: String,
    pub net_if_ip: IpNetwork,
}

/// A NAT network given as interface name, address and mask length.
pub struct NatConfig {
    pub net_if_name: String,
    pub net_if_ip: IpAddress,
    pub net_if_mask: u8,
}

/// The bridge's own address: the first address after the network's address,
/// with the network's prefix.
pub open spec fn spec_bridge_addr(hostnet: IpNetworkView) -> IpNetworkView {
    IpNetworkView { addr: spec_saturating_add(hostnet.addr, 1), prefix_len: hostnet.prefix_len }
}

/// The bridge's own address (see `spec_bridge_addr`); a network's prefix
/// always suits the next address, so this always succeeds.
pub fn calculate_bridge_addr(hostnet_ip: &IpNetwork) -> (r: Result<IpNetwork, NetworkManagerError>)
    ensures
        r matches Ok(n) && n@ == spec_bridge_addr(hostnet_ip@),
{
    let addr = hostnet_ip.addr().saturating_add(1);
    match IpNetwork::new(addr, hostnet_ip.prefix_len()) {
        Ok(n) => Ok(n),
        Err(_) => Err(NetworkManagerError::CreateNatNetwork(owned("Failed to compute bridge addr: invalid IP prefix length"))),
    }
}

// ---------------------------------------------------------------------------
// DHCP servers

/// What `std::path::Path::ends_with` answers for `path` and `child`: whether
/// the last whole components of `path` are those of `child`.
pub uninterp spec fn path_ends_with(path: Seq<char>, child: Seq<char>) -> bool;

/// Whether the path ends with the component `child`, through
/// `std::path::Path::ends_with`. The contract names the answer.
#[verifier::external_body]
fn ends_with_component(path: &str, child: &str) -> (r: bool)
    ensures
        r == path_ends_with(path@, child@),
{
    std::path::Path::new(path).ends_with(child)
}

/// Errors of the dnsmasq server handler.
#[derive(Debug, PartialEq, Eq)]
pub enum DnsmasqServerError {
    InvalidPath,
    AlreadyStarted,
    SpawnFail(String),
    KillFail(String),
    WaitFail(String),
    AddressRange(PrefixLenError),
}

/// The message of a dnsmasq handler error.
pub open spec fn dnsmasq_error_message(e: DnsmasqServerError) -> Seq<char> {
    match e {
        DnsmasqServerError::InvalidPath => "Path to Dnsmasq server is invalid."@,
        DnsmasqServerError::AlreadyStarted => "Dnsmasq Server already has been started."@,
        DnsmasqServerError::SpawnFail(m) => "Spawning udhcp Server failed: "@ + m@,
        DnsmasqServerError::KillFail(m) => "Failed to kill udhcp Server: "@ + m@,
        DnsmasqServerError::WaitFail(m) => "Failed to wait for udhcp Server exit: "@ + m@,
        DnsmasqServerError::AddressRange(_) => "Can't calculate address range for DHCP: invalid IP prefix length"@,
    }
}

impl DnsmasqServerError {
    /// The error's message.
    pub fn to_message(&self) -> (r: String)
        ensures
            r@ == dnsmasq_error_message(*self),
    {
        match self {
            DnsmasqServerError::InvalidPath => owned("Path to Dnsmasq server is invalid."),
            DnsmasqServerError::AlreadyStarted => owned("Dnsmasq Server already has been started."),
            DnsmasqServerError::SpawnFail(m) => concat2("Spawning udhcp Server failed: ", m.as_str()),
            DnsmasqServerError::KillFail(m) => concat2("Failed to kill udhcp Server: ", m.as_str()),
            DnsmasqServerError::WaitFail(m) => concat2("Failed to wait for udhcp Server exit: ", m.as_str()),
            DnsmasqServerError::AddressRange(_) => owned("Can't calculate address range for DHCP: invalid IP prefix length"),
        }
    }
}

/// The message of a DHCP error.
pub open spec fn dhcp_error_message(e: DHCPError) -> Seq<char> {
    match e {
        DHCPError::DHCPServerStart(m) => "Error while launching DHCP Server: "@ + m@,
        DHCPError::DHCPServerStop(m) => "Error while stopping DHCP Server: "@ + m@,
    }
}

impl DHCPError {
    /// The error's message.
    pub fn to_message(&self) -> (r: String)
        ensures
            r@ == dhcp_error_message(*self),
    {
        match self {
            DHCPError::DHCPServerStart(m) => concat2("Error while launching DHCP Server: ", m.as_str()),
            DHCPError::DHCPServerStop(m) => concat2("Error while stopping DHCP Server: ", m.as_str()),
        }
    }
}

/// The fixed arguments of dnsmasq: not on loopback, no configuration file,
/// in the foreground, authoritative, binding dynamically.
pub open spec fn dnsmasq_base_args() -> Seq<Seq<char>> {
    seq![
        "-I"@, "lo"@, "-C"@, "/dev/null"@, "-k"@, "--dhcp-no-override"@, "--dhcp-authoritative"@,
        "--bind-dynamic"@,
    ]
}

/// The `--address=` arguments of the DNS records `records[..n]`.
pub open spec fn dns_args(records: Seq<Seq<char>>) -> Seq<Seq<char>>
    decreases records.len(),
{
    if records.len() == 0 {
        Seq::empty()
    } else {
        dns_args(records.drop_last()).push("--address="@ + records.last())
    }
}

/// The range of addresses the DHCP server hands out: from the address after
/// the network's address to the `dhcp_addr_numbers`-th one after it.
pub open spec fn spec_dhcp_range(hostnet: IpNetworkView, dhcp_addr_numbers: u8) -> (IpAddress, IpAddress) {
    (spec_saturating_add(hostnet.addr, 1), spec_saturating_add(hostnet.addr, dhcp_addr_numbers as nat))
}

/// The argument that sets the DHCP range.
pub open spec fn dhcp_range_arg(hostnet: IpNetworkView, n: u8) -> Seq<char> {
    "--dhcp-range="@ + ip_text(spec_dhcp_range(hostnet, n).0) + ","@ + ip_text(spec_dhcp_range(hostnet, n).1)
}

/// The DHCP and DNS server of the NAT network, run as dnsmasq.
pub struct DnsmasqServerHandler {
    command: VmCommand,
    dhcp_connections_number: u8,
    started: bool,
}

impl DnsmasqServerHandler {
    /// The command that runs the server.
    pub closed spec fn spec_command(&self) -> VmCommandView {
        self.command@
    }

    /// How many addresses the server hands out.
    pub closed spec fn spec_connections(&self) -> u8 {
        self.dhcp_connections_number
    }

    /// Whether the server has been spawned.
    pub closed spec fn spec_started(&self) -> bool {
        self.started
    }

    /// A handler for dnsmasq at `path_to_exec`, which must exist
    /// (`path_exists`) and be named `dnsmasq`.
    pub fn new(path_to_exec: &str, path_exists: bool, dhcp_connections_number: u8, dns_records: Vec<String>) -> (r: Result<
        Self,
        DnsmasqServerError,
    >)
        ensures
            r is Err <==> !path_exists || !path_ends_with(path_to_exec@, "dnsmasq"@),
            r is Err ==> r == Err::<Self, DnsmasqServerError>(DnsmasqServerError::InvalidPath),
            r matches Ok(h) ==> (h.spec_command() == VmCommandView {
                program: path_to_exec@,
                args: dnsmasq_base_args() + dns_args(texts(dns_records@)),
            }),
            r matches Ok(h) ==> h.spec_connections() == dhcp_connections_number && !h.spec_started(),
    {
        if !path_exists || !ends_with_component(path_to_exec, "dnsmasq") {
            return Err(DnsmasqServerError::InvalidPath);
        }
        let command = Self::create_command(path_to_exec, &dns_records);
        Ok(DnsmasqServerHandler { command, dhcp_connections_number, started: false })
    }

    fn create_command(path_to_exec: &str, dns_records: &Vec<String>) -> (r: VmCommand)
        ensures
            r@.program == path_to_exec@,
            r@.args == dnsmasq_base_args() + dns_args(texts(dns_records@)),
    {
        let mut command = VmCommand::new(owned(path_to_exec));
        command.arg(owned("-I"));
        command.arg(owned("lo"));
        command.arg(owned("-C"));
        command.arg(owned("/dev/null"));
        command.arg(owned("-k"));
        command.arg(owned("--dhcp-no-override"));
        command.arg(owned("--dhcp-authoritative"));
        command.arg(owned("--bind-dynamic"));
        assert(command@.args =~= dnsmasq_base_args());
        let mut i: usize = 0;
        while i < dns_records.len()
            invariant
                i <= dns_records@.len(),
                command@.program == path_to_exec@,
                command@.args == dnsmasq_base_args() + dns_args(texts(dns_records@).subrange(0, i as int)),
            decreases dns_records@.len() - i,
        {
            command.arg(concat2("--address=", dns_records[i].as_str()));
            assert(texts(dns_records@).subrange(0, i + 1).drop_last() =~= texts(dns_records@).subrange(0, i as int));
            i = i + 1;
        }
        assert(texts(dns_records@).subrange(0, i as int) =~= texts(dns_records@));
        command
    }

    /// The range of addresses handed out on `hostnet_ip` (see `spec_dhcp_range`);
    /// the network's prefix suits both ends, so this always succeeds.
    pub fn calculate_range_str(hostnet_ip: &IpNetwork, dhcp_addr_numbers: u8) -> (r: Result<(IpAddress, IpAddress), DnsmasqServerError>)
        ensures
            r == Ok::<(IpAddress, IpAddress), DnsmasqServerError>(spec_dhcp_range(hostnet_ip@, dhcp_addr_numbers)),
    {
        let start = hostnet_ip.addr().saturating_add(1);
        let end = hostnet_ip.addr().saturating_add(dhcp_addr_numbers as u128);
        let start = match IpNetwork::new(start, hostnet_ip.prefix_len()) {
            Ok(n) => n.addr(),
            Err(e) => return Err(DnsmasqServerError::AddressRange(e)),
        };
        let end = match IpNetwork::new(end, hostnet_ip.prefix_len()) {
            Ok(n) => n.addr(),
            Err(e) => return Err(DnsmasqServerError::AddressRange(e)),
        };
        Ok((start, end))
    }

    /// Starts the server on interface `interface_name` with the bridge's
    /// network `interface_ip`: the interface and the DHCP range are added to
    /// the command (also when the start is refused), then the command to
    /// spawn is given; a server already spawned is refused.
    pub fn start(&mut self, interface_ip: IpNetwork, interface_name: &str) -> (r: Result<VmCommand, DHCPError>)
        ensures
            final(self).spec_started() == old(self).spec_started(),
            final(self).spec_connections() == old(self).spec_connections(),
            final(self).spec_command().program == old(self).spec_command().program,
            final(self).spec_command().args == old(self).spec_command().args + seq![
                "-i"@,
                interface_name@,
                dhcp_range_arg(interface_ip@, old(self).spec_connections()),
            ],
            old(self).spec_started() ==> (r matches Err(DHCPError::DHCPServerStart(m))
                && m@ == dnsmasq_error_message(DnsmasqServerError::AlreadyStarted)),
            !old(self).spec_started() ==> (r matches Ok(c) && c@ == final(self).spec_command()),
    {
        self.command.arg(owned("-i"));
        self.command.arg(owned(interface_name));
        let range = Self::calculate_range_str(&interface_ip, self.dhcp_connections_number);
        let (start, end) = match range {
            Ok(v) => v,
            Err(e) => return Err(DHCPError::DHCPServerStart(e.to_message())),
        };
        let mut arg = owned("--dhcp-range=");
        crate::ip::append_ip(&mut arg, start);
        arg.append(",");
        crate::ip::append_ip(&mut arg, end);
        self.command.arg(arg);
        assert(self.command@.args =~= old(self).command@.args + seq![
            "-i"@,
            interface_name@,
            dhcp_range_arg(interface_ip@, old(self).spec_connections()),
        ]);
        if self.started {
            Err(DHCPError::DHCPServerStart(DnsmasqServerError::AlreadyStarted.to_message()))
        } else {
            Ok(self.command.duplicate())
        }
    }

    /// Ends a start with the outcome of spawning the server: a failure is
    /// reported as `DHCPServerStart` with the spawn failure's message.
    pub fn spawned(&mut self, outcome: Result<(), String>) -> (r: Result<(), DHCPError>)
        ensures
            final(self).spec_command() == old(self).spec_command(),
            final(self).spec_connections() == old(self).spec_connections(),
            match outcome {
                Ok(()) => r is Ok && final(self).spec_started(),
                Err(m) => (r matches Err(DHCPError::DHCPServerStart(e))
                    && e@ == dnsmasq_error_message(DnsmasqServerError::SpawnFail(m)))
                    && final(self).spec_started() == old(self).spec_started(),
            },
    {
        match outcome {
            Ok(()) => {
                self.started = true;
                Ok(())
            },
            Err(m) => Err(DHCPError::DHCPServerStart(DnsmasqServerError::SpawnFail(m).to_message())),
        }
    }

    /// Whether stopping has a server to kill.
    pub fn stop(&self) -> (r: bool)
        ensures
            r == self.spec_started(),
    {
        self.started
    }

    /// Ends a stop with the outcome of killing the server and waiting for it.
    pub fn stopped(&self, outcome: Result<(), DnsmasqServerError>) -> (r: Result<(), DHCPError>)
        ensures
            match outcome {
                Ok(()) => r is Ok,
                Err(e) => r matches Err(DHCPError::DHCPServerStop(m)) && m@ == dnsmasq_error_message(e),
            },
    {
        match outcome {
            Ok(()) => Ok(()),
            Err(e) => Err(DHCPError::DHCPServerStop(e.to_message())),
        }
    }
}

/// Errors of the udhcpd server handler.
#[derive(Debug, PartialEq, Eq)]
pub enum UDHCPDServerError {
    InvalidPath,
    AlreadyStarted,
    SpawnFail(String),
    KillFail(String),
    WaitFail(String),
}

/// The DHCP server of the NAT network, run as udhcpd.
pub struct UDHCPServerHandler {
    command: VmCommand,
    started: bool,
}

impl UDHCPServerHandler {
    /// The command that runs the server.
    pub closed spec fn spec_command(&self) -> VmCommandView {
        self.command@
    }

    /// Whether the server has been spawned.
    pub closed spec fn spec_started(&self) -> bool {
        self.started
    }

    /// A handler for udhcpd at `path_to_exec`, which must exist
    /// (`path_exists`) and be named `udhcpd`; it runs in the foreground.
    pub fn new(path_to_exec: &str, path_exists: bool) -> (r: Result<Self, UDHCPDServerError>)
        ensures
            r is Err <==> !path_exists || !path_ends_with(path_to_exec@, "udhcpd"@),
            r is Err ==> r == Err::<Self, UDHCPDServerError>(UDHCPDServerError::InvalidPath),
            r matches Ok(h) ==> (h.spec_command() == VmCommandView { program: path_to_exec@, args: seq!["-fS"@] }),
            r matches Ok(h) ==> !h.spec_started(),
    {
        if !path_exists || !ends_with_component(path_to_exec, "udhcpd") {
            return Err(UDHCPDServerError::InvalidPath);
        }
        let mut command = VmCommand::new(owned(path_to_exec));
        command.arg(owned("-fS"));
        assert(command@.args =~= seq!["-fS"@]);
        Ok(UDHCPServerHandler { command, started: false })
    }

    /// Starts the server on the bridge's address: `-I` and the address are
    /// added to the command, then the command to spawn is given; a server
    /// already spawned is refused.
    pub fn start(&mut self, interface_ip: IpNetwork) -> (r: Result<VmCommand, DHCPError>)
        ensures
            final(self).spec_started() == old(self).spec_started(),
            final(self).spec_command().program == old(self).spec_command().program,
            final(self).spec_command().args == old(self).spec_command().args + seq!["-I"@, ip_text(interface_ip@.addr)],
            old(self).spec_started() ==> (r matches Err(DHCPError::DHCPServerStart(m))
                && m@ == "Udhcp Server already has been started."@),
            !old(self).spec_started() ==> (r matches Ok(c) && c@ == final(self).spec_command()),
    {
        self.command.arg(owned("-I"));
        self.command.arg(interface_ip.addr().to_text());
        assert(self.command@.args =~= old(self).command@.args + seq!["-I"@, ip_text(interface_ip@.addr)]);
        if self.started {
            Err(DHCPError::DHCPServerStart(owned("Udhcp Server already has been started.")))
        } else {
            Ok(self.command.duplicate())
        }
    }

    /// Ends a start with the outcome of spawning the server.
    pub fn spawned(&mut self, outcome: Result<(), String>) -> (r: Result<(), DHCPError>)
        ensures
            final(self).spec_command() == old(self).spec_command(),
            match outcome {
                Ok(()) => r is Ok && final(self).spec_started(),
                Err(m) => (r matches Err(DHCPError::DHCPServerStart(e)) && e@ == "Spawning udhcp Server failed: "@ + m@)
                    && final(self).spec_started() == old(self).spec_started(),
            },
    {
        match outcome {
            Ok(()) => {
                self.started = true;
                Ok(())
            },
            Err(m) => Err(DHCPError::DHCPServerStart(concat2("Spawning udhcp Server failed: ", m.as_str()))),
        }
    }

    /// Whether stopping has a server to kill.
    pub fn stop(&self) -> (r: bool)
        ensures
            r == self.spec_started(),
    {
        self.started
    }

    /// Ends a stop with the outcome of killing the server and waiting for it.
    pub fn stopped(&self, outcome: Result<(), UDHCPDServerError>) -> (r: Result<(), DHCPError>)
        ensures
            match outcome {
                Ok(()) => r is Ok,
                Err(e) => r matches Err(DHCPError::DHCPServerStop(m)) && m@ == udhcpd_error_message(e),
            },
    {
        match outcome {
            Ok(()) => Ok(()),
            Err(e) => Err(DHCPError::DHCPServerStop(e.to_message())),
        }
    }
}

/// The message of a udhcpd handler error.
pub open spec fn udhcpd_error_message(e: UDHCPDServerError) -> Seq<char> {
    match e {
        UDHCPDServerError::InvalidPath => "Path to Udhcp server is invalid."@,
        UDHCPDServerError::AlreadyStarted => "Udhcp Server already has been started."@,
        UDHCPDServerError::SpawnFail(m) => "Spawning udhcp Server failed: "@ + m@,
        UDHCPDServerError::KillFail(m) => "Failed to kill udhcp Server: "@ + m@,
        UDHCPDServerError::WaitFail(m) => "Failed to wait for udhcp Server exit: "@ + m@,
    }
}

impl UDHCPDServerError {
    /// The error's message.
    pub fn to_message(&self) -> (r: String)
        ensures
            r@ == udhcpd_error_message(*self),
    {
        match self {
            UDHCPDServerError::InvalidPath => owned("Path to Udhcp server is invalid."),
            UDHCPDServerError::AlreadyStarted => owned("Udhcp Server already has been started."),
            UDHCPDServerError::SpawnFail(m) => concat2("Spawning udhcp Server failed: ", m.as_str()),
            UDHCPDServerError::KillFail(m) => concat2("Failed to kill udhcp Server: ", m.as_str()),
            UDHCPDServerError::WaitFail(m) => concat2("Failed to wait for udhcp Server exit: ", m.as_str()),
        }
    }
}

// ---------------------------------------------------------------------------
// Setting up the NAT network

/// The value of a `NetworkManagerError`.
pub enum NetworkErrorView {
    CreateNatNetwork(Seq<char>),
    DestroyNatNetwork(Seq<char>),
    CreateTapDevice(Seq<char>),
    DestroyTapDevice(Seq<char>),
}

impl View for NetworkManagerError {
    type V = NetworkErrorView;

    open spec fn view(&self) -> NetworkErrorView {
        match self {
            NetworkManagerError::CreateNatNetwork(m) => NetworkErrorView::CreateNatNetwork(m@),
            NetworkManagerError::DestroyNatNetwork(m) => NetworkErrorView::DestroyNatNetwork(m@),
            NetworkManagerError::CreateTapDevice(m) => NetworkErrorView::CreateTapDevice(m@),
            NetworkManagerError::DestroyTapDevice(m) => NetworkErrorView::DestroyTapDevice(m@),
        }
    }
}

/// The message of a network manager error.
pub open spec fn network_error_message(e: NetworkErrorView) -> Seq<char> {
    match e {
        NetworkErrorView::CreateNatNetwork(m) => "Failed to create nat network: "@ + m + "."@,
        NetworkErrorView::DestroyNatNetwork(m) => "Failed to destroy nat network: "@ + m + "."@,
        NetworkErrorView::CreateTapDevice(m) => "Failed to create tap device: "@ + m,
        NetworkErrorView::DestroyTapDevice(m) => "Failed to destroy tap device: "@ + m,
    }
}

impl NetworkManagerError {
    /// The error's message.
    pub fn to_message(&self) -> (r: String)
        ensures
            r@ == network_error_message(self@),
    {
        match self {
            NetworkManagerError::CreateNatNetwork(m) => concat3("Failed to create nat network: ", m.as_str(), "."),
            NetworkManagerError::DestroyNatNetwork(m) => concat3("Failed to destroy nat network: ", m.as_str(), "."),
            NetworkManagerError::CreateTapDevice(m) => concat2("Failed to create tap device: ", m.as_str()),
            NetworkManagerError::DestroyTapDevice(m) => concat2("Failed to destroy tap device: ", m.as_str()),
        }
    }
}

impl BridgeError {
    /// The error's message.
    pub fn to_message(&self) -> (r: String)
        ensures
            r@ == match self {
                BridgeError::AddTap(m) => "Failed to create bridge: "@ + m@,
                BridgeError::RemoveTap(m) => "Failed to delete bridge: "@ + m@,
            },
    {
        match self {
            BridgeError::AddTap(m) => concat2("Failed to create bridge: ", m.as_str()),
            BridgeError::RemoveTap(m) => concat2("Failed to delete bridge: ", m.as_str()),
        }
    }
}

/// Where the setup of the NAT network stands.
#[derive(Clone, Copy, Debug, PartialEq, Eq, Structural)]
pub enum NatStage {
    /// Nothing done yet.
    Start,
    /// The bridge is being created.
    CreatingBridge,
    /// The routing rules are being set up.
    PreparingRouting,
    /// Setting up the routing failed; the bridge is being destroyed.
    RoutingFailed,
    /// The DHCP server is being spawned.
    StartingDhcp,
    /// Starting the DHCP server failed; the bridge is being destroyed.
    DhcpFailed,
    /// Starting the DHCP server failed; the routing rules are being removed.
    CleaningRouting,
    /// The setup ended, with success or failure.
    Finished,
}

/// What the daemon must do next to set up the NAT network.
#[derive(Debug)]
pub enum NatAction {
    /// Create a bridge named `name` with address `ip`, and report the outcome.
    CreateBridge { name: String, ip: IpNetwork },
    /// Run the plan (see `start_plan`/`after_step`) and report its outcome,
    /// a failure with the message of its error.
    RunPlan(Vec<IptablesStep>),
    /// Spawn the DHCP server with this command and report the outcome.
    SpawnDhcp(VmCommand),
    /// Destroy the bridge named `name` and report the outcome.
    DestroyBridge { name: String },
    /// The setup ended with this result.
    Finish(Result<(), NetworkManagerError>),
}

/// The value of a `NatAction`.
pub enum NatActionView {
    CreateBridge { name: Seq<char>, ip: IpNetworkView },
    RunPlan(Seq<StepView>),
    SpawnDhcp(VmCommandView),
    DestroyBridge { name: Seq<char> },
    Finish(Result<(), NetworkErrorView>),
}

impl View for NatAction {
    type V = NatActionView;

    open spec fn view(&self) -> NatActionView {
        match self {
            NatAction::CreateBridge { name, ip } => NatActionView::CreateBridge { name: name@, ip: ip@ },
            NatAction::RunPlan(p) => NatActionView::RunPlan(plan_view(p@)),
            NatAction::SpawnDhcp(c) => NatActionView::SpawnDhcp(c@),
            NatAction::DestroyBridge { name } => NatActionView::DestroyBridge { name: name@ },
            NatAction::Finish(Ok(())) => NatActionView::Finish(Ok(())),
            NatAction::Finish(Err(e)) => NatActionView::Finish(Err(e@)),
        }
    }
}

/// The kind of an action of the NAT setup.
pub enum NatActionKind {
    CreateBridge,
    RunPlan,
    SpawnDhcp,
    DestroyBridge,
    FinishOk,
    FinishErr,
}

/// The kind of an action.
pub open spec fn action_kind(a: NatActionView) -> NatActionKind {
    match a {
        NatActionView::CreateBridge { .. } => NatActionKind::CreateBridge,
        NatActionView::RunPlan(_) => NatActionKind::RunPlan,
        NatActionView::SpawnDhcp(_) => NatActionKind::SpawnDhcp,
        NatActionView::DestroyBridge { .. } => NatActionKind::DestroyBridge,
        NatActionView::Finish(Ok(())) => NatActionKind::FinishOk,
        NatActionView::Finish(Err(_)) => NatActionKind::FinishErr,
    }
}

/// The stage and the kind of action after the last action of `stage` ended
/// (`succeeded` or not), the DHCP server having been spawned before
/// (`dhcp_started`) or not.
pub open spec fn nat_transition(stage: NatStage, succeeded: bool, dhcp_started: bool) -> (NatStage, NatActionKind) {
    match stage {
        NatStage::CreatingBridge => if succeeded {
            (NatStage::PreparingRouting, NatActionKind::RunPlan)
        } else {
            (NatStage::Finished, NatActionKind::FinishErr)
        },
        NatStage::PreparingRouting => if !succeeded {
            (NatStage::RoutingFailed, NatActionKind::DestroyBridge)
        } else if dhcp_started {
            (NatStage::DhcpFailed, NatActionKind::DestroyBridge)
        } else {
            (NatStage::StartingDhcp, NatActionKind::SpawnDhcp)
        },
        NatStage::StartingDhcp => if succeeded {
            (NatStage::Finished, NatActionKind::FinishOk)
        } else {
            (NatStage::DhcpFailed, NatActionKind::DestroyBridge)
        },
        NatStage::DhcpFailed => if succeeded {
            (NatStage::CleaningRouting, NatActionKind::RunPlan)
        } else {
            (NatStage::Finished, NatActionKind::FinishErr)
        },
        _ => (NatStage::Finished, NatActionKind::FinishErr),
    }
}

/// The kinds of the actions of a setup from `stage` on, when the actions end
/// as `outcomes` says, until the setup finishes or the outcomes run out.
pub open spec fn nat_run(stage: NatStage, outcomes: Seq<bool>, dhcp_started: bool) -> Seq<NatActionKind>
    decreases outcomes.len(),
{
    if stage == NatStage::Finished || outcomes.len() == 0 {
        Seq::empty()
    } else {
        let (next, kind) = nat_transition(stage, outcomes[0], dhcp_started);
        seq![kind] + nat_run(next, outcomes.drop_first(), dhcp_started)
    }
}

/// The setup of the NAT network: create the bridge with the network's next
/// address, set up the routing, start the DHCP server on the bridge. When a
/// step after the bridge's creation fails, the bridge is destroyed and, if
/// the DHCP server failed, the routing removed; the first failure to undo
/// replaces the error that started the undoing.
pub struct NatSetup {
    config: NetworkConfig,
    bridge_ip: IpNetwork,
    dhcp_server: DnsmasqServerHandler,
    stage: NatStage,
    pending: String,
}

impl NatSetup {
    /// Bridge name of the network being set up.
    pub closed spec fn spec_name(&self) -> Seq<char> {
        self.config.net_if_name@
    }

    /// Network being set up.
    pub closed spec fn spec_net(&self) -> IpNetwork {
        self.config.net_if_ip
    }

    /// The bridge's address.
    pub closed spec fn spec_bridge_ip(&self) -> IpNetworkView {
        self.bridge_ip@
    }

    /// The stage the setup is at.
    pub closed spec fn spec_stage(&self) -> NatStage {
        self.stage
    }

    /// The DHCP server handler.
    pub closed spec fn spec_dhcp(&self) -> DnsmasqServerHandler {
        self.dhcp_server
    }

    /// The message of the failure that is reported once the undoing is done.
    pub closed spec fn spec_pending(&self) -> Seq<char> {
        self.pending@
    }

    /// A setup of `config` with DHCP server `dhcp_server`.
    pub fn create_nat(config: NetworkConfig, dhcp_server: DnsmasqServerHandler) -> (r: Result<NatSetup, NetworkManagerError>)
        ensures
            r matches Ok(s) && s.spec_stage() == NatStage::Start && s.spec_name() == config.net_if_name@
                && s.spec_net() == config.net_if_ip && s.spec_bridge_ip() == spec_bridge_addr(config.net_if_ip@)
                && s.spec_dhcp() == dhcp_server,
    {
        let bridge_ip = match calculate_bridge_addr(&config.net_if_ip) {
            Ok(ip) => ip,
            Err(e) => return Err(e),
        };
        Ok(NatSetup { config, bridge_ip, dhcp_server, stage: NatStage::Start, pending: String::new() })
    }

    /// The first action: creating the bridge.
    pub fn first_action(&mut self) -> (r: NatAction)
        requires
            old(self).spec_stage() == NatStage::Start,
        ensures
            r@ == (NatActionView::CreateBridge { name: old(self).spec_name(), ip: old(self).spec_bridge_ip() }),
            final(self).spec_stage() == NatStage::CreatingBridge,
            final(self).spec_name() == old(self).spec_name(),
            final(self).spec_net() == old(self).spec_net(),
            final(self).spec_bridge_ip() == old(self).spec_bridge_ip(),
            final(self).spec_dhcp() == old(self).spec_dhcp(),
    {
        self.stage = NatStage::CreatingBridge;
        NatAction::CreateBridge { name: self.config.net_if_name.clone(), ip: self.bridge_ip }
    }

    /// The action after the last one ended with `outcome` (a failure with its message).
    pub fn next_action(&mut self, outcome: Result<(), String>) -> (r: NatAction)
        requires
            old(self).spec_stage() != NatStage::Start,
            old(self).spec_stage() != NatStage::Finished,
        ensures
            final(self).spec_name() == old(self).spec_name(),
            final(self).spec_net() == old(self).spec_net(),
            final(self).spec_bridge_ip() == old(self).spec_bridge_ip(),
            (final(self).spec_stage(), action_kind(r@)) == nat_transition(
                old(self).spec_stage(),
                outcome is Ok,
                old(self).spec_dhcp().spec_started(),
            ),
            old(self).spec_stage() != NatStage::PreparingRouting && old(self).spec_stage() != NatStage::StartingDhcp
                ==> final(self).spec_dhcp() == old(self).spec_dhcp(),
            old(self).spec_stage() != NatStage::PreparingRouting && old(self).spec_stage() != NatStage::StartingDhcp
                ==> final(self).spec_pending() == old(self).spec_pending(),
            old(self).spec_stage() == NatStage::StartingDhcp && outcome is Ok ==> final(self).spec_pending()
                == old(self).spec_pending(),
            old(self).spec_stage() == NatStage::PreparingRouting && outcome is Ok && !old(self).spec_dhcp().spec_started()
                ==> final(self).spec_pending() == old(self).spec_pending(),
            old(self).spec_stage() == NatStage::PreparingRouting ==> final(self).spec_dhcp().spec_started()
                == old(self).spec_dhcp().spec_started() && final(self).spec_dhcp().spec_connections()
                == old(self).spec_dhcp().spec_connections() && final(self).spec_dhcp().spec_command().program
                == old(self).spec_dhcp().spec_command().program,
            old(self).spec_stage() == NatStage::StartingDhcp ==> final(self).spec_dhcp().spec_command()
                == old(self).spec_dhcp().spec_command() && final(self).spec_dhcp().spec_connections()
                == old(self).spec_dhcp().spec_connections(),
            old(self).spec_stage() == NatStage::CreatingBridge ==> match outcome {
                Err(m) => r@ == NatActionView::Finish(Err(NetworkErrorView::CreateNatNetwork(m@)))
                    && final(self).spec_stage() == NatStage::Finished,
                Ok(()) => r@ == NatActionView::RunPlan(routing_setup_plan(old(self).spec_name(), old(self).spec_net()))
                    && final(self).spec_stage() == NatStage::PreparingRouting,
            },
            old(self).spec_stage() == NatStage::PreparingRouting ==> match outcome {
                Err(m) => r@ == (NatActionView::DestroyBridge { name: old(self).spec_name() })
                    && final(self).spec_stage() == NatStage::RoutingFailed && final(self).spec_pending() == m@,
                Ok(()) => if old(self).spec_dhcp().spec_started() {
                    r@ == (NatActionView::DestroyBridge { name: old(self).spec_name() })
                        && final(self).spec_stage() == NatStage::DhcpFailed
                        && final(self).spec_pending() == "Error while launching DHCP Server: "@
                        + "Dnsmasq Server already has been started."@
                } else {
                    r@ == NatActionView::SpawnDhcp(final(self).spec_dhcp().spec_command())
                        && final(self).spec_stage() == NatStage::StartingDhcp
                },
            },
            old(self).spec_stage() == NatStage::PreparingRouting ==> {
                &&& final(self).spec_dhcp().spec_command().args == old(self).spec_dhcp().spec_command().args
                    + (if outcome is Ok { seq!["-i"@, old(self).spec_name(), dhcp_range_arg(
                        old(self).spec_bridge_ip(),
                        old(self).spec_dhcp().spec_connections(),
                    )] } else { Seq::empty() })
            },
            old(self).spec_stage() == NatStage::RoutingFailed ==> final(self).spec_stage() == NatStage::Finished
                && match outcome {
                Err(m) => r@ == NatActionView::Finish(Err(NetworkErrorView::DestroyNatNetwork(m@))),
                Ok(()) => r@ == NatActionView::Finish(Err(NetworkErrorView::CreateNatNetwork(old(self).spec_pending()))),
            },
            old(self).spec_stage() == NatStage::StartingDhcp ==> match outcome {
                Ok(()) => r@ == NatActionView::Finish(Ok(())) && final(self).spec_stage() == NatStage::Finished
                    && final(self).spec_dhcp().spec_started(),
                Err(m) => r@ == (NatActionView::DestroyBridge { name: old(self).spec_name() })
                    && final(self).spec_stage() == NatStage::DhcpFailed
                    && final(self).spec_pending() == "Error while launching DHCP Server: "@
                    + "Spawning udhcp Server failed: "@ + m@,
            },
            old(self).spec_stage() == NatStage::DhcpFailed ==> match outcome {
                Err(m) => r@ == NatActionView::Finish(Err(NetworkErrorView::DestroyNatNetwork(m@)))
                    && final(self).spec_stage() == NatStage::Finished,
                Ok(()) => r@ == NatActionView::RunPlan(routing_cleanup_plan(old(self).spec_name(), old(self).spec_net()))
                    && final(self).spec_stage() == NatStage::CleaningRouting
                    && final(self).spec_pending() == old(self).spec_pending(),
            },
            old(self).spec_stage() == NatStage::CleaningRouting ==> final(self).spec_stage() == NatStage::Finished
                && match outcome {
                Err(m) => r@ == NatActionView::Finish(Err(NetworkErrorView::DestroyNatNetwork(m@))),
                Ok(()) => r@ == NatActionView::Finish(Err(NetworkErrorView::CreateNatNetwork(old(self).spec_pending()))),
            },
    {
        match self.stage {
            NatStage::CreatingBridge => match outcome {
                Err(m) => {
                    self.stage = NatStage::Finished;
                    NatAction::Finish(Err(NetworkManagerError::CreateNatNetwork(m)))
                },
                Ok(()) => {
                    self.stage = NatStage::PreparingRouting;
                    NatAction::RunPlan(routing_setup(&self.config.net_if_name, self.config.net_if_ip))
                },
            },
            NatStage::PreparingRouting => match outcome {
                Err(m) => {
                    self.stage = NatStage::RoutingFailed;
                    self.pending = m;
                    NatAction::DestroyBridge { name: self.config.net_if_name.clone() }
                },
                Ok(()) => {
                    let name = self.config.net_if_name.clone();
                    match self.dhcp_server.start(self.bridge_ip, name.as_str()) {
                        Ok(command) => {
                            self.stage = NatStage::StartingDhcp;
                            NatAction::SpawnDhcp(command)
                        },
                        Err(e) => {
                            self.stage = NatStage::DhcpFailed;
                            self.pending = e.to_message();
                            NatAction::DestroyBridge { name }
                        },
                    }
                },
            },
            NatStage::RoutingFailed => {
                self.stage = NatStage::Finished;
                match outcome {
                    Err(m) => NatAction::Finish(Err(NetworkManagerError::DestroyNatNetwork(m))),
                    Ok(()) => NatAction::Finish(Err(NetworkManagerError::CreateNatNetwork(self.pending.clone()))),
                }
            },
            NatStage::StartingDhcp => match self.dhcp_server.spawned(outcome) {
                Ok(()) => {
                    self.stage = NatStage::Finished;
                    NatAction::Finish(Ok(()))
                },
                Err(e) => {
                    self.stage = NatStage::DhcpFailed;
                    self.pending = e.to_message();
                    NatAction::DestroyBridge { name: self.config.net_if_name.clone() }
                },
            },
            NatStage::DhcpFailed => match outcome {
                Err(m) => {
                    self.stage = NatStage::Finished;
                    NatAction::Finish(Err(NetworkManagerError::DestroyNatNetwork(m)))
                },
                Ok(()) => {
                    self.stage = NatStage::CleaningRouting;
                    NatAction::RunPlan(routing_cleanup(&self.config.net_if_name, self.config.net_if_ip))
                },
            },
            _ => {
                self.stage = NatStage::Finished;
                match outcome {
                    Err(m) => NatAction::Finish(Err(NetworkManagerError::DestroyNatNetwork(m))),
                    Ok(()) => NatAction::Finish(Err(NetworkManagerError::CreateNatNetwork(self.pending.clone()))),
                }
            },
        }
    }

    /// The network manager of a network whose setup succeeded.
    pub fn into_handler(self) -> (r: NetworkManagerHandler)
        requires
            self.spec_stage() == NatStage::Finished,
        ensures
            r.spec_name() == self.spec_name(),
            r.spec_net() == self.spec_net(),
            r.spec_taps() == Map::<u128, Seq<char>>::empty(),
    {
        NetworkManagerHandler {
            config: self.config,
            dhcp_server: self.dhcp_server,
            taps: std::collections::HashMap::new(),
        }
    }
}

/// A setup of the NAT network ends after at most five actions once the
/// bridge is being created. It succeeds only when creating the bridge, setting
/// up the routing and spawning the DHCP server all succeed (with the server
/// not spawned before); when it fails after the bridge was created, the
/// bridge's removal is asked for before the failure is reported; when
/// creating the bridge fails, nothing else is done.
pub proof fn law_nat_setup_undoes_on_failure(outcomes: Seq<bool>, dhcp_started: bool)
    requires
        outcomes.len() == 5,
    ensures
        ({
            let run = nat_run(NatStage::CreatingBridge, outcomes, dhcp_started);
            &&& 1 <= run.len() <= 5
            &&& (run.last() is FinishOk || run.last() is FinishErr)
            &&& forall|i: int| 0 <= i < run.len() - 1 ==> !(#[trigger] run[i] is FinishOk) && !(run[i] is FinishErr)
            &&& (run.last() is FinishOk <==> (!dhcp_started && outcomes[0] && outcomes[1] && outcomes[2]))
            &&& (run.last() is FinishOk ==> run =~= seq![
                NatActionKind::RunPlan,
                NatActionKind::SpawnDhcp,
                NatActionKind::FinishOk,
            ])
            &&& (!outcomes[0] ==> run =~= seq![NatActionKind::FinishErr])
            &&& (outcomes[0] && run.last() is FinishErr ==> exists|i: int|
                0 <= i < run.len() - 1 && #[trigger] run[i] is DestroyBridge)
        }),
{
    reveal_with_fuel(nat_run, 6);
    let o = outcomes;
    let r1 = nat_run(NatStage::CreatingBridge, o, dhcp_started);
    if o[0] {
        let o1 = o.drop_first();
        let o2 = o1.drop_first();
        let o3 = o2.drop_first();
        let o4 = o3.drop_first();
        assert(o1[0] == o[1] && o2[0] == o[2] && o3[0] == o[3] && o4[0] == o[4]);
        assert(o4.drop_first().len() == 0);
        if !o[1] {
            assert(r1 =~= seq![NatActionKind::RunPlan, NatActionKind::DestroyBridge, NatActionKind::FinishErr]);
            assert(r1[1] is DestroyBridge);
        } else if dhcp_started {
            if o[2] {
                assert(r1 =~= seq![
                    NatActionKind::RunPlan,
                    NatActionKind::DestroyBridge,
                    NatActionKind::RunPlan,
                    NatActionKind::FinishErr,
                ]);
            } else {
                assert(r1 =~= seq![NatActionKind::RunPlan, NatActionKind::DestroyBridge, NatActionKind::FinishErr]);
            }
            assert(r1[1] is DestroyBridge);
        } else if o[2] {
            assert(r1 =~= seq![NatActionKind::RunPlan, NatActionKind::SpawnDhcp, NatActionKind::FinishOk]);
        } else if o[3] {
            assert(r1 =~= seq![
                NatActionKind::RunPlan,
                NatActionKind::SpawnDhcp,
                NatActionKind::DestroyBridge,
                NatActionKind::RunPlan,
                NatActionKind::FinishErr,
            ]);
            assert(r1[2] is DestroyBridge);
        } else {
            assert(r1 =~= seq![
                NatActionKind::RunPlan,
                NatActionKind::SpawnDhcp,
                NatActionKind::DestroyBridge,
                NatActionKind::FinishErr,
            ]);
            assert(r1[2] is DestroyBridge);
        }
    } else {
        assert(r1 =~= seq![NatActionKind::FinishErr]);
    }
}

// ---------------------------------------------------------------------------
// The running NAT network and its tap devices

/// The NAT network once set up: its bridge, its DHCP server and the tap
/// device of each realm (by the realm's UUID).
pub struct NetworkManagerHandler {
    config: NetworkConfig,
    dhcp_server: DnsmasqServerHandler,
    taps: std::collections::HashMap<u128, String>,
}

impl NetworkManagerHandler {
    /// The bridge's name.
    pub closed spec fn spec_name(&self) -> Seq<char> {
        self.config.net_if_name@
    }

    /// The network.
    pub closed spec fn spec_net(&self) -> IpNetwork {
        self.config.net_if_ip
    }

    /// Name of the tap device of each realm.
    pub closed spec fn spec_taps(&self) -> Map<u128, Seq<char>> {
        self.taps@.map_values(|s: String| s@)
    }

    /// The DHCP server of the network.
    pub closed spec fn spec_dhcp(&self) -> DnsmasqServerHandler {
        self.dhcp_server
    }

    /// The bridge's name.
    pub fn bridge_name(&self) -> (r: &str)
        ensures
            r@ == self.spec_name(),
    {
        self.config.net_if_name.as_str()
    }

    /// The DHCP server handler.
    pub fn dhcp_server(&self) -> (r: &DnsmasqServerHandler)
        ensures
            *r == self.spec_dhcp(),
    {
        &self.dhcp_server
    }

    /// The DHCP server handler, to stop it.
    pub fn dhcp_server_mut(&mut self) -> (r: &mut DnsmasqServerHandler)
        ensures
            final(self).spec_name() == old(self).spec_name(),
            final(self).spec_net() == old(self).spec_net(),
            final(self).spec_taps() == old(self).spec_taps(),
            *r == old(self).spec_dhcp(),
            final(self).spec_dhcp() == *final(r),
    {
        &mut self.dhcp_server
    }

    /// Records `name` as the tap device of realm `realm_id`, once it has been
    /// created and added to the bridge; a device recorded before for the
    /// realm is forgotten.
    pub fn create_tap_device_for_realm(&mut self, name: String, realm_id: u128)
        ensures
            final(self).spec_taps() == old(self).spec_taps().insert(realm_id, name@),
            final(self).spec_name() == old(self).spec_name(),
            final(self).spec_net() == old(self).spec_net(),
    {
        let ghost n = name@;
        self.taps.insert(realm_id, name);
        assert(self.spec_taps() =~= old(self).spec_taps().insert(realm_id, n));
    }

    /// The error of a failure to create a realm's tap device or to add it to the bridge.
    pub fn tap_creation_failed(message: String) -> (r: NetworkManagerError)
        ensures
            r@ == NetworkErrorView::CreateTapDevice(message@),
    {
        NetworkManagerError::CreateTapDevice(message)
    }

    /// Takes out the tap device of realm `realm_id` to remove it from the
    /// bridge and delete it; a realm without a device is refused.
    pub fn shutdown_tap_device_for_realm(&mut self, realm_id: u128) -> (r: Result<String, NetworkManagerError>)
        ensures
            old(self).spec_taps().contains_key(realm_id) ==> (r matches Ok(name)
                && name@ == old(self).spec_taps()[realm_id]
                && final(self).spec_taps() == old(self).spec_taps().remove(realm_id)),
            !old(self).spec_taps().contains_key(realm_id) ==> (r matches Err(e)
                && e@ == NetworkErrorView::DestroyTapDevice("No tap device for realm: "@ + hyphenated(realm_id))
                && final(self).spec_taps() == old(self).spec_taps()),
            final(self).spec_name() == old(self).spec_name(),
            final(self).spec_net() == old(self).spec_net(),
    {
        match self.taps.remove(&realm_id) {
            Some(name) => {
                assert(self.spec_taps() =~= old(self).spec_taps().remove(realm_id));
                Ok(name)
            },
            None => {
                assert(self.spec_taps() =~= old(self).spec_taps());
                let id = uuid_to_string(realm_id);
                Err(NetworkManagerError::DestroyTapDevice(concat2("No tap device for realm: ", id.as_str())))
            },
        }
    }

    /// The error of a failure to remove a realm's tap device from the bridge or to delete it.
    pub fn tap_destruction_failed(message: String) -> (r: NetworkManagerError)
        ensures
            r@ == NetworkErrorView::DestroyTapDevice(message@),
    {
        NetworkManagerError::DestroyTapDevice(message)
    }

    /// The realms that have a tap device, each once.
    pub fn tap_owners(&self) -> (r: Vec<u128>)
        ensures
            r@.to_set() == self.spec_taps().dom(),
            r@.no_duplicates(),
    {
        let mut ids: Vec<u128> = Vec::new();
        for k in it: self.taps.keys()
            invariant
                ids@ == it.seq().take(it.index()).unref(),
                it.seq().unref().to_set() == self.taps@.dom(),
                it.seq().unref().no_duplicates(),
                it.index() == it.seq().len() ==> ids@ == it.seq().unref(),
        {
            ids.push(*k);
            assert(ids@ =~= it.seq().take(it.index() + 1).unref());
            assert(it.index() + 1 == it.seq().len() ==> it.seq().take(it.index() + 1) =~= it.seq());
        }
        assert(self.spec_taps().dom() =~= self.taps@.dom());
        ids
    }

    /// Steps that remove the routing of the network.
    pub fn cleanup_routing(&self) -> (r: Vec<IptablesStep>)
        ensures
            plan_view(r@) == routing_cleanup_plan(self.spec_name(), self.spec_net()),
    {
        routing_cleanup(&self.config.net_if_name, self.config.net_if_ip)
    }

    /// The error of a failure while taking the network down.
    pub fn nat_destruction_failed(message: String) -> (r: NetworkManagerError)
        ensures
            r@ == NetworkErrorView::DestroyNatNetwork(message@),
    {
        NetworkManagerError::DestroyNatNetwork(message)
    }
}

// ---------------------------------------------------------------------------
// Taking the NAT network down

/// A piece of the work that takes the NAT network down.
#[derive(Debug, PartialEq, Eq)]
pub enum ShutdownStep {
    /// Take the realm's tap device out (`shutdown_tap_device_for_realm`),
    /// remove it from the bridge and delete it.
    RemoveTap { realm_id: u128 },
    /// Stop the DHCP server.
    StopDhcp,
    /// Delete the bridge.
    DestroyBridge { name: String },
    /// Run the routing cleanup plan (`cleanup_routing`).
    CleanupRouting,
}

/// The value of a `ShutdownStep`.
pub enum ShutdownStepView {
    RemoveTap(u128),
    StopDhcp,
    DestroyBridge(Seq<char>),
    CleanupRouting,
}

impl View for ShutdownStep {
    type V = ShutdownStepView;

    open spec fn view(&self) -> ShutdownStepView {
        match self {
            ShutdownStep::RemoveTap { realm_id } => ShutdownStepView::RemoveTap(*realm_id),
            ShutdownStep::StopDhcp => ShutdownStepView::StopDhcp,
            ShutdownStep::DestroyBridge { name } => ShutdownStepView::DestroyBridge(name@),
            ShutdownStep::CleanupRouting => ShutdownStepView::CleanupRouting,
        }
    }
}

/// Whether `plan` takes down a network with bridge `name` whose realms with
/// tap devices are `realms`: each such realm's device once, in some order,
/// then the DHCP server, the bridge and the routing, in that order.
pub open spec fn is_shutdown_plan(plan: Seq<ShutdownStep>, name: Seq<char>, realms: Set<u128>) -> bool {
    let n = plan.len() - 3;
    &&& plan.len() >= 3
    &&& forall|i: int| 0 <= i < n ==> #[trigger] plan[i] is RemoveTap
    &&& Set::new(|id: u128| exists|i: int| 0 <= i < n && #[trigger] plan[i]@ == ShutdownStepView::RemoveTap(id)) == realms
    &&& forall|i: int, j: int| 0 <= i < j < n ==> #[trigger] plan[i] != #[trigger] plan[j]
    &&& plan[n]@ == ShutdownStepView::StopDhcp
    &&& plan[n + 1]@ == ShutdownStepView::DestroyBridge(name)
    &&& plan[n + 2]@ == ShutdownStepView::CleanupRouting
}

/// The first index after `i` whose step is not a tap removal (the plan's
/// length when there is none).
pub open spec fn first_after_taps(plan: Seq<ShutdownStep>, i: int) -> int
    decreases plan.len() - i,
{
    if i + 1 >= plan.len() {
        plan.len() as int
    } else if !(plan[i + 1] is RemoveTap) {
        i + 1
    } else {
        first_after_taps(plan, i + 1)
    }
}

/// The step after step `i` ended (`succeeded` or not): a failed tap removal
/// skips the remaining tap removals, anything else goes on with the next step;
/// the plan's length means the work is done. Failures do not stop the work:
/// each is reported on its own.
pub open spec fn spec_next_shutdown_step(plan: Seq<ShutdownStep>, i: int, succeeded: bool) -> int {
    if plan[i] is RemoveTap && !succeeded {
        first_after_taps(plan, i)
    } else {
        i + 1
    }
}

impl NetworkManagerHandler {
    /// The work that takes the network down: every realm's tap device, then
    /// the DHCP server, the bridge and the routing.
    pub fn shutdown_nat(&self) -> (r: Vec<ShutdownStep>)
        ensures
            is_shutdown_plan(r@, self.spec_name(), self.spec_taps().dom()),
    {
        let owners = self.tap_owners();
        let mut plan: Vec<ShutdownStep> = Vec::new();
        let mut i: usize = 0;
        while i < owners.len()
            invariant
                i <= owners@.len(),
                plan@.len() == i,
                forall|k: int| 0 <= k < i ==> #[trigger] plan@[k] == (ShutdownStep::RemoveTap { realm_id: owners@[k] }),
            decreases owners@.len() - i,
        {
            plan.push(ShutdownStep::RemoveTap { realm_id: owners[i] });
            i = i + 1;
        }
        plan.push(ShutdownStep::StopDhcp);
        plan.push(ShutdownStep::DestroyBridge { name: self.config.net_if_name.clone() });
        plan.push(ShutdownStep::CleanupRouting);
        proof {
            let n = owners@.len() as int;
            let p = plan@;
            assert(p.len() - 3 == n);
            assert forall|i: int| 0 <= i < n implies #[trigger] p[i] is RemoveTap by {
                assert(p[i] == (ShutdownStep::RemoveTap { realm_id: owners@[i] }));
            }
            assert forall|i: int, j: int| 0 <= i < j < n implies #[trigger] p[i] != #[trigger] p[j] by {
                assert(p[i] == (ShutdownStep::RemoveTap { realm_id: owners@[i] }));
                assert(p[j] == (ShutdownStep::RemoveTap { realm_id: owners@[j] }));
                assert(owners@[i] != owners@[j]);
            }
            let s = Set::new(|id: u128| exists|i: int| 0 <= i < n && #[trigger] p[i]@ == ShutdownStepView::RemoveTap(id));
            assert forall|id: u128| s.contains(id) <==> owners@.to_set().contains(id) by {
                if s.contains(id) {
                    let i = choose|i: int| 0 <= i < n && #[trigger] p[i]@ == ShutdownStepView::RemoveTap(id);
                    assert(p[i] == (ShutdownStep::RemoveTap { realm_id: owners@[i] }));
                    assert(owners@.contains(id));
                }
                if owners@.to_set().contains(id) {
                    let i = choose|i: int| 0 <= i < n && owners@[i] == id;
                    assert(p[i] == (ShutdownStep::RemoveTap { realm_id: owners@[i] }));
                    assert(p[i]@ == ShutdownStepView::RemoveTap(id));
                }
            }
            assert(s =~= self.spec_taps().dom());
        }
        plan
    }
}

/// The step to take after step `i` of `plan` ended, `succeeded` or not (see
/// `spec_next_shutdown_step`).
pub fn next_shutdown_step(plan: &Vec<ShutdownStep>, i: usize, succeeded: bool) -> (r: usize)
    requires
        i < plan@.len(),
    ensures
        r == spec_next_shutdown_step(plan@, i as int, succeeded),
{
    let len = plan.len();
    let is_tap = match &plan[i] {
        ShutdownStep::RemoveTap { .. } => true,
        _ => false,
    };
    if is_tap && !succeeded {
        let mut j: usize = i;
        while j < len - 1
            invariant
                i <= j < plan@.len(),
                len == plan@.len(),
                plan@[i as int] is RemoveTap,
                !succeeded,
                first_after_taps(plan@, j as int) == first_after_taps(plan@, i as int),
            decreases plan@.len() - j,
        {
            let next_is_tap = match &plan[j + 1] {
                ShutdownStep::RemoveTap { .. } => true,
                _ => false,
            };
            if !next_is_tap {
                assert(!(plan@[j + 1] is RemoveTap));
                assert(first_after_taps(plan@, j as int) == j + 1);
                return j + 1;
            }
            j = j + 1;
        }
        len
    } else {
        i + 1
    }
}

/// The error a failed shutdown step is reported as: a tap device's is
/// `DestroyTapDevice`, any other `DestroyNatNetwork`, each with its message.
pub fn shutdown_failure(step: &ShutdownStep, message: String) -> (r: NetworkManagerError)
    ensures
        step is RemoveTap ==> r@ == NetworkErrorView::DestroyTapDevice(message@),
        !(step is RemoveTap) ==> r@ == NetworkErrorView::DestroyNatNetwork(message@),
{
    match step {
        ShutdownStep::RemoveTap { .. } => NetworkManagerError::DestroyTapDevice(message),
        _ => NetworkManagerError::DestroyNatNetwork(message),
    }
}

proof fn lemma_first_after_taps(plan: Seq<ShutdownStep>, i: int)
    requires
        plan.len() >= 3,
        0 <= i < plan.len() - 3,
        forall|k: int| 0 <= k < plan.len() - 3 ==> #[trigger] plan[k] is RemoveTap,
        plan[plan.len() - 3]@ == ShutdownStepView::StopDhcp,
    ensures
        first_after_taps(plan, i) == plan.len() - 3,
    decreases plan.len() - i,
{
    if i + 1 < plan.len() - 3 {
        assert(plan[i + 1] is RemoveTap);
        lemma_first_after_taps(plan, i + 1);
    }
}

/// Taking the network down always stops the DHCP server, deletes the bridge
/// and cleans up the routing, in that order, whatever fails: a failed tap
/// removal skips only the remaining tap removals.
pub proof fn law_shutdown_always_tears_down(
    plan: Seq<ShutdownStep>,
    name: Seq<char>,
    realms: Set<u128>,
    i: int,
    succeeded: bool,
)
    requires
        is_shutdown_plan(plan, name, realms),
        0 <= i < plan.len(),
    ensures
        i < plan.len() - 3 ==> i < spec_next_shutdown_step(plan, i, succeeded) <= plan.len() - 3,
        i < plan.len() - 3 && succeeded ==> spec_next_shutdown_step(plan, i, succeeded) == i + 1,
        i >= plan.len() - 3 ==> spec_next_shutdown_step(plan, i, succeeded) == i + 1,
{
    if i < plan.len() - 3 {
        assert(plan[i] is RemoveTap);
        lemma_first_after_taps(plan, i);
    }
}

/// A tap device recorded for a realm is the one taken out for it, and
/// taking it out forgets it; a realm without one is refused.
pub proof fn law_tap_registry(
    taps: Map<u128, Seq<char>>,
    realm_id: u128,
    name: Seq<char>,
    other: u128,
)
    requires
        other != realm_id,
    ensures
        taps.insert(realm_id, name).contains_key(realm_id),
        taps.insert(realm_id, name)[realm_id] == name,
        !taps.insert(realm_id, name).remove(realm_id).contains_key(realm_id),
        taps.insert(realm_id, name).remove(realm_id).contains_key(other) == taps.contains_key(other),
{
}

} // verus!
