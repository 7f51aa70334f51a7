use warden::realm::{
    create_example_realm_config, CpuConfig, KernelConfig, MemoryConfig, NetworkConfig, RealmConfig, VmManagerError,
};
use warden::vm::{create_realm_vm, LkvmError, LkvmRunner, QemuRunner, RealmVm, VmCommand, VmRunner};

const APP: u128 = 0xa46289a4_5902_4586_81a3_908bdd62e7a1;

fn config() -> RealmConfig {
    RealmConfig {
        machine: "virt".to_string(),
        cpu: CpuConfig { cpu: "cortex-a57".to_string(), cores_number: 2 },
        memory: MemoryConfig { ram_size: 2048 },
        network: NetworkConfig {
            vsock_cid: 12344,
            tap_device: "tap100".to_string(),
            mac_address: "52:55:00:d1:55:01".to_string(),
            hardware_device: None,
            remote_terminal_uri: Some("tcp:localhost:1337".to_string()),
        },
        kernel: KernelConfig {
            kernel_path: "/images/Image".to_string(),
            kernel_initramfs_path: Some("/images/initramfs".to_string()),
            kernel_cmd_params: Some("console=ttyS0".to_string()),
        },
    }
}

#[test]
fn qemu_command_line() {
    let runner = QemuRunner::new("/usr/bin/qemu-system-aarch64".to_string(), "/w/realm".to_string(), &config());
    let vm = VmRunner::new(runner, 1, "/w/realm".to_string());
    let command = vm.launch_vm(&vec![APP]).unwrap();
    assert_eq!(command.program, "/usr/bin/qemu-system-aarch64");
    assert_eq!(
        command.args,
        vec![
            "-smp", "2", "-cpu", "cortex-a57", "-kernel", "/images/Image", "-m", "2048", "-machine", "virt",
            "-netdev", "tap,id=mynet0,ifname=tap100,script=no,downscript=no",
            "-device", "e1000,netdev=mynet0,mac=52:55:00:d1:55:01",
            "-device", "vhost-vsock-pci,id=vhost-vsock-pci0,guest-cid=12344",
            "-serial", "tcp:localhost:1337", "-nographic", "-append", "console=ttyAMA0",
            "-drive", "file=/w/realm/a46289a4-5902-4586-81a3-908bdd62e7a1/disk.raw",
        ]
    );
}

#[test]
fn lkvm_command_line_with_cca() {
    let mut runner = LkvmRunner::new("/usr/bin/lkvm".to_string(), "/w/realm".to_string(), &config());
    runner.configure_cca_settings();
    let vm = VmRunner::new(runner, 1, "/w/realm".to_string());
    let command = vm.launch_vm(&vec![APP, 1]).unwrap();
    assert_eq!(
        command.args,
        vec![
            "run", "-c", "2", "-k", "/images/Image", "-i", "/images/initramfs", "-p", "\"console=ttyS0\"",
            "-m", "2048", "-n", "tapif=tap100,guest_mac=52:55:00:d1:55:01", "--vsock", "12344",
            "--console", "serial",
            "--debug", "--irqchip=gicv3", "--disable-sve", "--realm", "--measurement-algo=sha256",
            "-d", "/w/realm/a46289a4-5902-4586-81a3-908bdd62e7a1/disk.raw",
            "-d", "/w/realm/00000000-0000-0000-0000-000000000001/disk.raw",
        ]
    );
}

#[test]
fn default_configuration_runs_without_optional_arguments() {
    let runner = QemuRunner::new("qemu".to_string(), String::new(), &create_example_realm_config());
    let vm = VmRunner::new(runner, 9, String::new());
    assert_eq!(vm.realm_id(), 9);
    let command = vm.launch_vm(&vec![]).unwrap();
    assert_eq!(command.args.len(), 19);
    assert_eq!(command.args[13], "e1000,netdev=mynet0,mac=");
}

#[test]
fn a_vm_is_launched_once_and_shut_down_after() {
    let runner = QemuRunner::new("qemu".to_string(), "/w".to_string(), &config());
    let mut vm = VmRunner::new(runner, 3, "/w".to_string());
    assert_eq!(vm.shutdown(), Err(VmManagerError::VmNotLaunched));
    assert_eq!(vm.try_get_exit_status(), Err(VmManagerError::VmNotLaunched));
    assert!(vm.launch_vm(&vec![]).is_ok());
    assert_eq!(vm.vm_spawned(Ok(())), Ok(()));
    assert!(matches!(vm.launch_vm(&vec![]), Err(VmManagerError::VmAlreadyLaunched)));
    assert_eq!(vm.shutdown(), Ok(()));
    assert_eq!(
        vm.shutdown_done(Err("timeout".to_string())),
        Err(VmManagerError::Shutdown("timeout".to_string()))
    );
    assert_eq!(vm.exit_status_read::<i32>(Ok(Some(0))), Ok(Some(0)));
    assert_eq!(
        vm.exit_status_read::<i32>(Err("gone".to_string())),
        Err(VmManagerError::GetExitCode("gone".to_string()))
    );
}

#[test]
fn a_failed_spawn_leaves_the_vm_unlaunched() {
    let runner = QemuRunner::new("qemu".to_string(), "/w".to_string(), &config());
    let mut vm = VmRunner::new(runner, 3, "/w".to_string());
    assert_eq!(vm.vm_spawned(Err("no binary".to_string())), Err(VmManagerError::Launch("no binary".to_string())));
    assert_eq!(vm.shutdown(), Err(VmManagerError::VmNotLaunched));
    assert!(vm.launch_vm(&vec![]).is_ok());
}

#[test]
fn commands_keep_their_arguments() {
    let mut c = VmCommand::new("prog".to_string());
    c.arg("a".to_string());
    c.arg("b".to_string());
    let d = c.duplicate();
    assert_eq!(d.program, "prog");
    assert_eq!(d.args, vec!["a", "b"]);
    assert_eq!(
        LkvmError::MissingObligatoryParam("kernel".to_string()).to_message(),
        "Missing param: kernel"
    );
}

#[test]
fn the_virtualizer_is_chosen_by_the_daemon_options() {
    match create_realm_vm(true, false, "/usr/bin/lkvm".to_string(), "/w".to_string(), 5, &config()) {
        RealmVm::Lkvm(vm) => {
            let c = vm.launch_vm(&vec![]).unwrap();
            assert_eq!(c.program, "/usr/bin/lkvm");
            assert_eq!(c.args.last().unwrap(), "serial");
            assert_eq!(vm.realm_id(), 5);
        }
        RealmVm::Qemu(_) => panic!("kvmtool was asked for"),
    }
    match create_realm_vm(true, true, "/usr/bin/lkvm".to_string(), "/w".to_string(), 5, &config()) {
        RealmVm::Lkvm(vm) => {
            let c = vm.launch_vm(&vec![]).unwrap();
            assert_eq!(c.args.last().unwrap(), "--measurement-algo=sha256");
        }
        RealmVm::Qemu(_) => panic!("kvmtool was asked for"),
    }
    match create_realm_vm(false, true, "/usr/bin/qemu".to_string(), "/w".to_string(), 5, &config()) {
        RealmVm::Qemu(vm) => {
            let c = vm.launch_vm(&vec![]).unwrap();
            assert_eq!(c.args[0], "-smp");
        }
        RealmVm::Lkvm(_) => panic!("QEMU is the default"),
    }
}
