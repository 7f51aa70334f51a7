use warden::iptables::IptablesOp;
use warden::ip::{IpAddress, IpNetwork, PrefixLenError};
use warden::network::{
    calculate_bridge_addr, DHCPError, DnsmasqServerError, DnsmasqServerHandler, NatAction, NatSetup,
    NetworkConfig, NetworkManagerError, UDHCPDServerError, UDHCPServerHandler, ShutdownStep, next_shutdown_step,
    shutdown_failure,
};

const NET_192_168_100_0: u32 = 0xC0A8_6400;

fn net(addr: IpAddress, prefix: u8) -> IpNetwork {
    IpNetwork::new(addr, prefix).unwrap()
}

fn dnsmasq(records: Vec<String>) -> DnsmasqServerHandler {
    DnsmasqServerHandler::new("/usr/sbin/dnsmasq", true, 20, records).unwrap()
}

#[test]
fn addresses_in_text() {
    assert_eq!(IpAddress::V4(NET_192_168_100_0 + 1).to_text(), "192.168.100.1");
    assert_eq!(IpAddress::V4(0).to_text(), "0.0.0.0");
    assert_eq!(IpAddress::V6(0).to_text(), "::");
    assert_eq!(IpAddress::V6(1).to_text(), "::1");
    assert_eq!(IpAddress::V6(0xfe80_0000_0000_0000_0000_0000_0000_0001).to_text(), "fe80::1");
    assert_eq!(IpAddress::V6(0x2001_0db8_0000_0000_0001_0000_0000_0001).to_text(), "2001:db8::1:0:0:1");
    assert_eq!(IpAddress::V6(0x2001_0db8_0000_0001_0001_0001_0001_0001).to_text(), "2001:db8:0:1:1:1:1:1");
    assert_eq!(IpAddress::V6(0x0000_0000_0000_0000_0000_ffff_c0a8_0001).to_text(), "::ffff:192.168.0.1");
    assert_eq!(net(IpAddress::V4(NET_192_168_100_0), 24).to_text(), "192.168.100.0/24");
}

#[test]
fn ipv6_zero_runs() {
    let cases: Vec<(u128, &str)> = vec![
        (0x1_0000, "::1:0"),
        (u128::MAX, "ffff:ffff:ffff:ffff:ffff:ffff:ffff:ffff"),
        (0x0001_0000_0000_0001_0000_0000_0000_0001, "1:0:0:1::1"),
        (0x0001_0000_0001_0000_0000_0001_0000_0001, "1:0:1::1:0:1"),
        (0x0000_0000_0000_0000_0000_ffff_0000_0000, "::ffff:0.0.0.0"),
        (0x0000_0000_0000_0000_0000_0000_0a00_0001, "::a00:1"),
        (0x1234_5678_9abc_def0_0000_0000_0000_0000, "1234:5678:9abc:def0::"),
        (0x0001_0002_0003_0004_0005_0006_0007_0000, "1:2:3:4:5:6:7:0"),
    ];
    for (value, text) in cases {
        assert_eq!(IpAddress::V6(value).to_text(), text);
    }
    assert_eq!(IpAddress::V4(0x7f00_0001).to_text(), "127.0.0.1");
    assert_eq!(IpAddress::V4(u32::MAX).to_text(), "255.255.255.255");
}

#[test]
fn prefix_lengths_are_checked() {
    assert_eq!(IpNetwork::new(IpAddress::V4(0), 33), Err(PrefixLenError));
    assert!(IpNetwork::new(IpAddress::V4(0), 32).is_ok());
    assert!(IpNetwork::new(IpAddress::V6(0), 128).is_ok());
    assert_eq!(IpNetwork::new(IpAddress::V6(0), 129), Err(PrefixLenError));
}

#[test]
fn addresses_saturate() {
    assert_eq!(IpAddress::V4(u32::MAX - 1).saturating_add(5), IpAddress::V4(u32::MAX));
    assert_eq!(IpAddress::V6(u128::MAX).saturating_add(1), IpAddress::V6(u128::MAX));
    assert_eq!(IpAddress::V4(7).saturating_add(3), IpAddress::V4(10));
}

#[test]
fn bridge_takes_the_first_address() {
    let host = net(IpAddress::V4(NET_192_168_100_0), 24);
    let bridge = calculate_bridge_addr(&host).unwrap();
    assert_eq!(bridge.addr(), IpAddress::V4(NET_192_168_100_0 + 1));
    assert_eq!(bridge.prefix_len(), 24);
    assert_eq!(bridge.to_text(), "192.168.100.1/24");
}

#[test]
fn dhcp_range_follows_the_network_address() {
    let host = net(IpAddress::V4(NET_192_168_100_0), 24);
    assert_eq!(
        DnsmasqServerHandler::calculate_range_str(&host, 20),
        Ok((IpAddress::V4(NET_192_168_100_0 + 1), IpAddress::V4(NET_192_168_100_0 + 20)))
    );
}

#[test]
fn dnsmasq_path_is_checked() {
    assert!(matches!(
        DnsmasqServerHandler::new("/usr/sbin/dnsmasq", false, 20, vec![]),
        Err(DnsmasqServerError::InvalidPath)
    ));
    assert!(matches!(
        DnsmasqServerHandler::new("/usr/sbin/udhcpd", true, 20, vec![]),
        Err(DnsmasqServerError::InvalidPath)
    ));
    assert!(DnsmasqServerHandler::new("/usr/sbin/dnsmasq", true, 20, vec![]).is_ok());
}

#[test]
fn dnsmasq_command_line() {
    let mut server = dnsmasq(vec!["/warden.local/10.0.0.1".to_string()]);
    let bridge = net(IpAddress::V4(NET_192_168_100_0 + 1), 24);
    let command = server.start(bridge, "virtbWarden").unwrap();
    assert_eq!(command.program, "/usr/sbin/dnsmasq");
    assert_eq!(
        command.args,
        vec![
            "-I", "lo", "-C", "/dev/null", "-k", "--dhcp-no-override", "--dhcp-authoritative", "--bind-dynamic",
            "--address=/warden.local/10.0.0.1", "-i", "virtbWarden",
            "--dhcp-range=192.168.100.2,192.168.100.21",
        ]
    );
}

#[test]
fn dnsmasq_is_started_once() {
    let mut server = dnsmasq(vec![]);
    let bridge = net(IpAddress::V4(NET_192_168_100_0 + 1), 24);
    assert!(server.start(bridge, "br0").is_ok());
    assert_eq!(server.spawned(Ok(())), Ok(()));
    assert!(server.stop());
    assert!(matches!(
        server.start(bridge, "br0"),
        Err(DHCPError::DHCPServerStart(m)) if m == "Dnsmasq Server already has been started."
    ));
    assert_eq!(
        server.stopped(Err(DnsmasqServerError::KillFail("no such process".to_string()))),
        Err(DHCPError::DHCPServerStop("Failed to kill udhcp Server: no such process".to_string()))
    );
}

#[test]
fn dnsmasq_spawn_failure_is_a_start_error() {
    let mut server = dnsmasq(vec![]);
    let bridge = net(IpAddress::V4(NET_192_168_100_0 + 1), 24);
    assert!(server.start(bridge, "br0").is_ok());
    assert_eq!(
        server.spawned(Err("not found".to_string())),
        Err(DHCPError::DHCPServerStart("Spawning udhcp Server failed: not found".to_string()))
    );
    assert!(!server.stop());
    assert_eq!(
        DHCPError::DHCPServerStart("x".to_string()).to_message(),
        "Error while launching DHCP Server: x"
    );
}

#[test]
fn udhcpd_path_is_checked_and_started_once() {
    assert!(matches!(UDHCPServerHandler::new("/usr/sbin/udhcpd", false), Err(UDHCPDServerError::InvalidPath)));
    let mut server = UDHCPServerHandler::new("/usr/sbin/udhcpd", true).unwrap();
    let bridge = net(IpAddress::V4(NET_192_168_100_0 + 1), 24);
    assert!(server.start(bridge).is_ok());
    assert_eq!(server.spawned(Ok(())), Ok(()));
    assert!(server.start(bridge).is_err());
}

fn setup() -> NatSetup {
    let config = NetworkConfig {
        net_if_name: "virtbWarden".to_string(),
        net_if_ip: net(IpAddress::V4(NET_192_168_100_0), 24),
    };
    NatSetup::create_nat(config, dnsmasq(vec![])).unwrap()
}

fn plan_len(action: &NatAction) -> usize {
    match action {
        NatAction::RunPlan(plan) => plan.len(),
        _ => panic!("a plan was expected"),
    }
}

#[test]
fn nat_setup_in_order() {
    let mut s = setup();
    match s.first_action() {
        NatAction::CreateBridge { name, ip } => {
            assert_eq!(name, "virtbWarden");
            assert_eq!(ip.to_text(), "192.168.100.1/24");
        }
        _ => panic!("the bridge comes first"),
    }
    let routing = s.next_action(Ok(()));
    assert_eq!(plan_len(&routing), 1 + 7 + 1 + 10 + 13 + 1 + 3);
    if let NatAction::RunPlan(plan) = &routing {
        assert_eq!(plan[0].op, IptablesOp::OpenHandler { ipv6: false });
    }
    match s.next_action(Ok(())) {
        NatAction::SpawnDhcp(command) => {
            assert_eq!(command.args[command.args.len() - 1], "--dhcp-range=192.168.100.2,192.168.100.21");
        }
        _ => panic!("the DHCP server comes after the routing"),
    }
    assert!(matches!(s.next_action(Ok(())), NatAction::Finish(Ok(()))));
    let handler = s.into_handler();
    assert_eq!(handler.bridge_name(), "virtbWarden");
    assert!(handler.dhcp_server().stop());
}

#[test]
fn nat_setup_failures_undo_what_was_done() {
    let mut s = setup();
    s.first_action();
    assert!(matches!(
        s.next_action(Err("exists".to_string())),
        NatAction::Finish(Err(NetworkManagerError::CreateNatNetwork(m))) if m == "exists"
    ));

    let mut s = setup();
    s.first_action();
    s.next_action(Ok(()));
    assert!(matches!(s.next_action(Err("iptables".to_string())), NatAction::DestroyBridge { name } if name == "virtbWarden"));
    assert!(matches!(
        s.next_action(Ok(())),
        NatAction::Finish(Err(NetworkManagerError::CreateNatNetwork(m))) if m == "iptables"
    ));

    let mut s = setup();
    s.first_action();
    s.next_action(Ok(()));
    s.next_action(Ok(()));
    assert!(matches!(s.next_action(Err("denied".to_string())), NatAction::DestroyBridge { .. }));
    let cleanup = s.next_action(Ok(()));
    assert_eq!(plan_len(&cleanup), 1 + 3 + 1 + 15 + 1 + 3);
    assert!(matches!(
        s.next_action(Ok(())),
        NatAction::Finish(Err(NetworkManagerError::CreateNatNetwork(m)))
            if m == "Error while launching DHCP Server: Spawning udhcp Server failed: denied"
    ));
}

#[test]
fn tap_devices_are_registered_per_realm() {
    let mut s = setup();
    s.first_action();
    s.next_action(Ok(()));
    s.next_action(Ok(()));
    s.next_action(Ok(()));
    let mut handler = s.into_handler();
    assert!(handler.tap_owners().is_empty());
    handler.create_tap_device_for_realm("tap100".to_string(), 7);
    handler.create_tap_device_for_realm("tap101".to_string(), 9);
    let mut owners = handler.tap_owners();
    owners.sort();
    assert_eq!(owners, vec![7, 9]);
    assert_eq!(handler.shutdown_tap_device_for_realm(7), Ok("tap100".to_string()));
    assert_eq!(
        handler.shutdown_tap_device_for_realm(7),
        Err(NetworkManagerError::DestroyTapDevice(
            "No tap device for realm: 00000000-0000-0000-0000-000000000007".to_string()
        ))
    );
    assert_eq!(handler.tap_owners(), vec![9]);
    assert_eq!(plan_len(&NatAction::RunPlan(handler.cleanup_routing())), 1 + 3 + 1 + 15 + 1 + 3);
}

#[test]
fn shutdown_removes_taps_then_the_network() {
    let mut s = setup();
    s.first_action();
    s.next_action(Ok(()));
    s.next_action(Ok(()));
    s.next_action(Ok(()));
    let mut handler = s.into_handler();
    handler.create_tap_device_for_realm("tap1".to_string(), 1);
    handler.create_tap_device_for_realm("tap2".to_string(), 2);
    let plan = handler.shutdown_nat();
    assert_eq!(plan.len(), 5);
    let mut realms: Vec<u128> = plan[..2]
        .iter()
        .map(|s| match s {
            ShutdownStep::RemoveTap { realm_id } => *realm_id,
            _ => panic!("taps come first"),
        })
        .collect();
    realms.sort();
    assert_eq!(realms, vec![1, 2]);
    assert_eq!(plan[2], ShutdownStep::StopDhcp);
    assert_eq!(plan[3], ShutdownStep::DestroyBridge { name: "virtbWarden".to_string() });
    assert_eq!(plan[4], ShutdownStep::CleanupRouting);
    assert_eq!(next_shutdown_step(&plan, 0, true), 1);
    assert_eq!(next_shutdown_step(&plan, 0, false), 2);
    assert_eq!(next_shutdown_step(&plan, 2, false), 3);
    assert_eq!(next_shutdown_step(&plan, 4, false), 5);
    assert_eq!(
        shutdown_failure(&plan[0], "busy".to_string()),
        NetworkManagerError::DestroyTapDevice("busy".to_string())
    );
    assert_eq!(
        shutdown_failure(&plan[3], "gone".to_string()),
        NetworkManagerError::DestroyNatNetwork("gone".to_string())
    );
}

#[test]
fn udhcpd_command_and_stop() {
    let mut server = UDHCPServerHandler::new("/sbin/udhcpd", true).unwrap();
    let bridge = net(IpAddress::V4(NET_192_168_100_0 + 1), 24);
    let command = server.start(bridge).unwrap();
    assert_eq!(command.program, "/sbin/udhcpd");
    assert_eq!(command.args, vec!["-fS", "-I", "192.168.100.1"]);
    assert!(!server.stop());
    assert_eq!(
        server.spawned(Err("denied".to_string())),
        Err(DHCPError::DHCPServerStart("Spawning udhcp Server failed: denied".to_string()))
    );
    assert_eq!(
        server.stopped(Err(UDHCPDServerError::WaitFail("gone".to_string()))),
        Err(DHCPError::DHCPServerStop("Failed to wait for udhcp Server exit: gone".to_string()))
    );
    assert_eq!(
        NetworkManagerError::CreateNatNetwork("x".to_string()).to_message(),
        "Failed to create nat network: x."
    );
}

#[test]
fn nat_setup_with_a_running_dhcp_server_is_undone() {
    let mut server = dnsmasq(vec![]);
    let bridge = net(IpAddress::V4(NET_192_168_100_0 + 1), 24);
    assert!(server.start(bridge, "br0").is_ok());
    assert_eq!(server.spawned(Ok(())), Ok(()));
    let config = NetworkConfig {
        net_if_name: "virtbWarden".to_string(),
        net_if_ip: net(IpAddress::V4(NET_192_168_100_0), 24),
    };
    let mut s = NatSetup::create_nat(config, server).unwrap();
    assert!(matches!(s.first_action(), NatAction::CreateBridge { .. }));
    assert!(matches!(s.next_action(Ok(())), NatAction::RunPlan(_)));
    assert!(matches!(s.next_action(Ok(())), NatAction::DestroyBridge { .. }));
    assert!(matches!(s.next_action(Ok(())), NatAction::RunPlan(_)));
    assert!(matches!(
        s.next_action(Ok(())),
        NatAction::Finish(Err(NetworkManagerError::CreateNatNetwork(m)))
            if m == "Error while launching DHCP Server: Dnsmasq Server already has been started."
    ));
}

#[test]
fn error_messages() {
    assert_eq!(
        DnsmasqServerError::WaitFail("interrupted".to_string()).to_message(),
        "Failed to wait for udhcp Server exit: interrupted"
    );
    assert_eq!(DnsmasqServerError::InvalidPath.to_message(), "Path to Dnsmasq server is invalid.");
    assert_eq!(
        warden::network::NetworkManagerHandler::tap_creation_failed("busy".to_string()).to_message(),
        "Failed to create tap device: busy"
    );
    assert_eq!(
        warden::network::BridgeError::AddTap("no device".to_string()).to_message(),
        "Failed to create bridge: no device"
    );
}
