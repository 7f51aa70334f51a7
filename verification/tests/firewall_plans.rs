use warden::ip::{IpAddress, IpNetwork};
use warden::iptables::{
    after_step, routing_cleanup, routing_setup, start_plan, FailureKind, FilterIpTableManager, IpTableHandler,
    IpTableHandlerError, IptablesOp, MangleTableManager, NatIpTableManager, PlanAction,
};

fn net() -> IpNetwork {
    IpNetwork::new(IpAddress::V4(0xC0A8_6400), 24).unwrap()
}

fn append(table: &str, chain: &str, rule: &str) -> IptablesOp {
    IptablesOp::AppendReplace { table: table.to_string(), chain: chain.to_string(), rule: rule.to_string() }
}

#[test]
fn filter_chains_are_named_after_the_interface() {
    let f = FilterIpTableManager::new("br0".to_string(), net());
    let create = f.create_chains();
    assert_eq!(create.len(), 10);
    assert_eq!(create[0].op, IptablesOp::NewChain { table: "filter".to_string(), chain: "br0_FWI".to_string() });
    assert_eq!(create[4].op, IptablesOp::NewChain { table: "filter".to_string(), chain: "br0_OUT".to_string() });
    assert_eq!(create[5].op, append("filter", "INPUT", "-j br0_INP"));
    assert_eq!(create[9].op, append("filter", "FORWARD", "-j br0_FWX"));
    assert_eq!(create[9].failure, FailureKind::ChainAdd);
    assert_eq!(create[9].failure_chain, "FORWARD");
}

#[test]
fn filter_rules_accept_the_bridge_network() {
    let f = FilterIpTableManager::new("br0".to_string(), net());
    let rules = f.insert_rules();
    assert_eq!(rules.len(), 13);
    assert_eq!(
        rules[0].op,
        append("filter", "br0_FWI", "-d 192.168.100.0/24 -o br0 -m conntrack --ctstate RELATED,ESTABLISHED -j ACCEPT")
    );
    assert_eq!(rules[2].op, append("filter", "br0_FWO", "-s 192.168.100.0/24 -i br0 -j ACCEPT"));
    assert_eq!(rules[12].op, append("filter", "br0_OUT", "-o br0 -p tcp -m tcp --dport 68 -j ACCEPT"));
    assert_eq!(rules[12].failure, FailureKind::RuleAdd);
    assert_eq!(f.insert_ip_table_rules().len(), 23);
    let remove = f.remove_ip_table_rules();
    assert_eq!(remove.len(), 15);
    assert_eq!(remove[0].op, IptablesOp::FlushChain { table: "filter".to_string(), chain: "br0_FWI".to_string() });
    assert_eq!(
        remove[14].op,
        IptablesOp::DeleteChain { table: "filter".to_string(), chain: "br0_OUT".to_string() }
    );
    assert!(!f.uses_ipv6());
}

#[test]
fn mangle_and_nat_plans() {
    let m = MangleTableManager::new("br0".to_string(), net());
    let insert = m.insert_ip_table_rules();
    assert_eq!(
        insert[0].op,
        IptablesOp::NewChainIfMissing { table: "mangle".to_string(), chain: "br0_PRT".to_string() }
    );
    assert_eq!(insert[1].op, append("mangle", "POSTROUTING", "-j br0_PRT"));
    assert_eq!(insert[2].op, append("mangle", "br0_PRT", "-o br0 -p udp -m udp --dport 68 -j CHECKSUM --checksum-fill"));
    assert_eq!(m.remove_ip_table_rules().len(), 3);

    let n = NatIpTableManager::new(net());
    let insert = n.insert_ip_table_rules();
    assert_eq!(insert.len(), 7);
    assert_eq!(insert[2].op, append("nat", "DAEMONVIRT_PRT", "-s 192.168.100.0/24 -d 224.0.0.0/24 -j RETURN"));
    assert_eq!(
        insert[6].op,
        append("nat", "DAEMONVIRT_PRT", "-s 192.168.100.0/24 ! -d 192.168.100.0/24 -j MASQUERADE")
    );
    let remove = n.remove_ip_table_rules();
    assert_eq!(remove[2].op, IptablesOp::DeleteChain { table: "nat".to_string(), chain: "DAEMONVIRT_PRT".to_string() });
}

#[test]
fn ipv6_networks_use_ipv6_tables() {
    let v6 = IpNetwork::new(IpAddress::V6(0xfd00 << 112), 64).unwrap();
    let plan = routing_setup(&"br6".to_string(), v6);
    assert_eq!(plan[0].op, IptablesOp::OpenHandler { ipv6: true });
    assert_eq!(plan[5].op, append("nat", "DAEMONVIRT_PRT", "-s fd00::/64 ! -d fd00::/64 -p tcp -j MASQUERADE --to-ports 1024-65535"));
    assert!(NatIpTableManager::new(v6).uses_ipv6());
}

#[test]
fn routing_plans_go_table_by_table() {
    let setup = routing_setup(&"br0".to_string(), net());
    assert_eq!(setup.len(), 36);
    assert_eq!(setup[0].op, IptablesOp::OpenHandler { ipv6: false });
    assert_eq!(setup[0].failure, FailureKind::Handler);
    assert_eq!(setup[8].op, IptablesOp::OpenHandler { ipv6: false });
    assert_eq!(setup[32].op, IptablesOp::OpenHandler { ipv6: false });
    let cleanup = routing_cleanup(&"br0".to_string(), net());
    assert_eq!(cleanup.len(), 24);
}

#[test]
fn a_plan_runs_until_its_first_failure() {
    let plan = routing_setup(&"br0".to_string(), net());
    assert!(matches!(start_plan(&plan), PlanAction::Run(0)));
    assert!(matches!(after_step(&plan, 0, Ok(())), PlanAction::Run(1)));
    assert!(matches!(after_step(&plan, 35, Ok(())), PlanAction::Finish(Ok(()))));
    match after_step(&plan, 3, Err("exit status 1".to_string())) {
        PlanAction::Finish(Err(e)) => {
            assert_eq!(
                e,
                IpTableHandlerError::RuleAdd {
                    chain_name: "DAEMONVIRT_PRT".to_string(),
                    table_name: "nat".to_string(),
                    message: "exit status 1".to_string(),
                }
            );
            assert_eq!(
                e.to_message(),
                "Failed to insert rule to chain: DAEMONVIRT_PRT in table: nat message: exit status 1"
            );
        }
        _ => panic!("a failure ends the run"),
    }
    match after_step(&plan, 0, Err("no iptables".to_string())) {
        PlanAction::Finish(Err(e)) => {
            assert_eq!(e, IpTableHandlerError::HandlerError("no iptables".to_string()));
            assert_eq!(e.to_message(), "Failed to create handler: no iptables");
        }
        _ => panic!("a failure ends the run"),
    }
    assert!(matches!(start_plan(&Vec::new()), PlanAction::Finish(Ok(()))));
}

#[test]
fn removal_failures_name_the_chain() {
    let plan = routing_cleanup(&"br0".to_string(), net());
    match after_step(&plan, 1, Err("busy".to_string())) {
        PlanAction::Finish(Err(e)) => assert_eq!(
            e.to_message(),
            "Failed to remove chain: DAEMONVIRT_PRT from table: nat message: busy"
        ),
        _ => panic!("a failure ends the run"),
    }
}

#[test]
fn cleanup_removes_everything_the_setup_adds() {
    for net in [net(), IpNetwork::new(IpAddress::V6(0xfd00 << 112), 64).unwrap()] {
        let setup = routing_setup(&"br0".to_string(), net);
        let cleanup = routing_cleanup(&"br0".to_string(), net);
        let position = |wanted: &IptablesOp| cleanup.iter().position(|s| &s.op == wanted);
        for step in &setup {
            match &step.op {
                IptablesOp::NewChain { table, chain } | IptablesOp::NewChainIfMissing { table, chain } => {
                    let flush = position(&IptablesOp::FlushChain { table: table.clone(), chain: chain.clone() });
                    let delete = position(&IptablesOp::DeleteChain { table: table.clone(), chain: chain.clone() });
                    assert!(flush.is_some() && delete.is_some() && flush < delete, "{} {}", table, chain);
                }
                IptablesOp::AppendReplace { table, chain, rule } => {
                    let deleted = position(&IptablesOp::Delete {
                        table: table.clone(),
                        chain: chain.clone(),
                        rule: rule.clone(),
                    });
                    let flushed = position(&IptablesOp::FlushChain { table: table.clone(), chain: chain.clone() });
                    assert!(deleted.is_some() || flushed.is_some(), "{} {} {}", table, chain, rule);
                }
                _ => {}
            }
        }
    }
}

#[test]
fn chain_creation_failures_name_the_chain() {
    let plan = routing_setup(&"br0".to_string(), net());
    match after_step(&plan, 9, Err("exists".to_string())) {
        PlanAction::Finish(Err(e)) => assert_eq!(
            e.to_message(),
            "Failed to insert chain: br0_FWI to table: filter message: exists"
        ),
        _ => panic!("a failure ends the run"),
    }
}

#[test]
fn only_a_missing_chain_is_created() {
    assert!(warden::iptables::needs_new_chain(false));
    assert!(!warden::iptables::needs_new_chain(true));
}
