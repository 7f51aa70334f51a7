use warden::daemon::{
    RealmAction, RealmManagerFabric, RealmStep, RealmWork, StepOutcome, UnixSocketServerError, WardenFabric,
};
use warden::protocol::{
    application_config_from_client, create_example_client_app_config, realm_config_from_client,
    realm_description_to_client, state_from_client, state_to_client, State,
};
use warden::realm::{
    self, create_example_app_config, create_example_application_data, create_example_realm_config,
    create_example_realm_data, create_example_realm_description, create_example_realm_provisioning_config,
    create_example_uuid, WardenError,
};

const REALM: u128 = 0xa46289a4_5902_4586_81a3_908bdd62e7a1;
const REALM_DIR: &str = "/var/warden/a46289a4-5902-4586-81a3-908bdd62e7a1";

#[test]
fn realms_live_in_directories_named_by_uuid() {
    let fabric = RealmManagerFabric::new("/var/warden".to_string());
    assert_eq!(fabric.realm_workdir(REALM), REALM_DIR);
    let warden = WardenFabric::new("/var/warden".to_string());
    assert_eq!(warden.workdir(), "/var/warden");
}

fn realm_config(tap: &str) -> realm::RealmConfig {
    let mut c = create_example_realm_config();
    c.machine = "virt".to_string();
    c.network.tap_device = tap.to_string();
    c
}

#[test]
fn realm_creation_loading_and_cleanup_order() {
    let fabric = RealmManagerFabric::new("/var/warden".to_string());
    assert_eq!(
        fabric.create_realm(REALM, &realm_config("tap100")),
        vec![
            RealmStep::CreateWorkdir { path: REALM_DIR.to_string() },
            RealmStep::CreateTap { name: "tap100".to_string(), realm_id: REALM },
            RealmStep::CreateVm { realm_workdir: REALM_DIR.to_string(), config: realm_config("tap100") },
            RealmStep::SaveConfig { realm_workdir: REALM_DIR.to_string(), config: realm_config("tap100") },
        ]
    );
    assert_eq!(
        fabric.load_realm(REALM),
        vec![
            RealmStep::LoadApplications { realm_workdir: REALM_DIR.to_string() },
            RealmStep::LoadConfig { realm_workdir: REALM_DIR.to_string() },
        ]
    );
    assert_eq!(
        fabric.clean_up_realm(REALM),
        vec![RealmStep::ShutdownTap { realm_id: REALM }, RealmStep::RemoveWorkdir { path: REALM_DIR.to_string() }]
    );
}

#[test]
fn step_failures_are_reported_by_phase() {
    let fabric = RealmManagerFabric::new("/w".to_string());
    for step in fabric.create_realm(1, &realm_config("tap1")) {
        assert_eq!(step.failure("e".to_string()), WardenError::RealmCreationFail("e".to_string()));
    }
    for step in fabric.clean_up_realm(1) {
        assert_eq!(step.failure("e".to_string()), WardenError::DestroyFail("e".to_string()));
    }
    assert_eq!(
        UnixSocketServerError::SocketFail("address in use".to_string()).to_message(),
        "Socket operation failed: address in use"
    );
}

#[test]
fn loading_a_realm_uses_the_configuration_read() {
    let fabric = RealmManagerFabric::new("/var/warden".to_string());
    let mut work = RealmWork::new(REALM, fabric.load_realm(REALM));
    assert_eq!(work.start(), RealmAction::Run(0));
    assert_eq!(work.after_step(0, StepOutcome::Done), RealmAction::Run(1));
    assert_eq!(work.after_step(1, StepOutcome::ConfigRead(realm_config("tap7"))), RealmAction::Run(2));
    assert_eq!(work.step(2), &RealmStep::CreateTap { name: "tap7".to_string(), realm_id: REALM });
    assert_eq!(
        work.step(3),
        &RealmStep::CreateVm { realm_workdir: REALM_DIR.to_string(), config: realm_config("tap7") }
    );
    assert_eq!(work.after_step(2, StepOutcome::Done), RealmAction::Run(3));
    assert_eq!(work.after_step(3, StepOutcome::Done), RealmAction::Finish(Ok(())));
}

#[test]
fn a_failed_step_ends_the_work_with_its_error() {
    let fabric = RealmManagerFabric::new("/var/warden".to_string());
    let mut work = RealmWork::new(REALM, fabric.load_realm(REALM));
    assert_eq!(
        work.after_step(1, StepOutcome::Failed("no config".to_string())),
        RealmAction::Finish(Err(WardenError::RealmCreationFail("no config".to_string())))
    );
    let mut create = RealmWork::new(REALM, fabric.create_realm(REALM, &realm_config("tap1")));
    assert_eq!(
        create.after_step(0, StepOutcome::Failed("exists".to_string())),
        RealmAction::Finish(Err(WardenError::RealmCreationFail("exists".to_string())))
    );
    let mut clean = RealmWork::new(REALM, fabric.clean_up_realm(REALM));
    assert_eq!(
        clean.after_step(1, StepOutcome::Failed("busy".to_string())),
        RealmAction::Finish(Err(WardenError::DestroyFail("busy".to_string())))
    );
    assert_eq!(RealmWork::new(REALM, vec![]).start(), RealmAction::Finish(Ok(())));
}

#[test]
fn states_convert_both_ways() {
    for s in [State::Halted, State::Provisioning, State::Running, State::NeedReboot] {
        assert_eq!(state_to_client(state_from_client(s)), s);
    }
    assert_eq!(state_from_client(State::NeedReboot), realm::State::NeedReboot);
}

#[test]
fn examples_are_empty() {
    let c = create_example_realm_config();
    assert_eq!(c.cpu.cores_number, 0);
    assert!(c.kernel.kernel_cmd_params.is_none());
    assert_eq!(create_example_app_config().image_storage_size_mb, 0);
    assert!(create_example_realm_provisioning_config().applications_data.is_empty());
    assert_eq!(create_example_application_data().id, 0);
    assert!(create_example_realm_data().applications.is_empty());
    assert_eq!(create_example_uuid(), REALM);
    let d = create_example_realm_description();
    assert_eq!(d.uuid, REALM);
    assert_eq!(d.realm_data.state, realm::State::Halted);
    let client = realm_description_to_client(d);
    assert_eq!(client.uuid, REALM);
    assert_eq!(client.state, State::Halted);
    let app = application_config_from_client(create_example_client_app_config());
    assert_eq!(app.name, "");
}

#[test]
fn client_realm_configuration_is_taken_over() {
    let mut c = warden::protocol::RealmConfig {
        machine: "virt".to_string(),
        cpu: warden::protocol::CpuConfig { cpu: "cortex-a57".to_string(), cores_number: 2 },
        memory: warden::protocol::MemoryConfig { ram_size: 2048 },
        network: warden::protocol::NetworkConfig {
            vsock_cid: 3,
            tap_device: "tap100".to_string(),
            mac_address: "52:55:00:d1:55:01".to_string(),
            hardware_device: None,
            remote_terminal_uri: None,
        },
        kernel: warden::protocol::KernelConfig {
            kernel_path: "/k".to_string(),
            kernel_initramfs_path: None,
            kernel_cmd_params: None,
        },
    };
    c.kernel.kernel_cmd_params = Some("quiet".to_string());
    let r = realm_config_from_client(c);
    assert_eq!(r.machine, "virt");
    assert_eq!(r.cpu.cores_number, 2);
    assert_eq!(r.network.tap_device, "tap100");
    assert_eq!(r.kernel.kernel_path, "/k");
    assert!(r.kernel.kernel_cmd_params.is_none());
}

#[test]
fn provisioned_applications_keep_their_order() {
    let mut config = create_example_realm_provisioning_config();
    for id in 1..=3u128 {
        let mut data = create_example_application_data();
        data.id = id;
        data.name = format!("app{}", id);
        data.image_part_uuid = id * 10;
        config.applications_data.push(data);
    }
    let infos = warden::protocol::application_infos_from_provisioning(config);
    assert_eq!(infos.iter().map(|i| i.id).collect::<Vec<_>>(), vec![1, 2, 3]);
    assert_eq!(infos[1].name, "app2");
    assert_eq!(infos[2].image_part_uuid, 30);
}
