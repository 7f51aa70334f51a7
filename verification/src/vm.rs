//! Command lines of a realm's virtual machine (QEMU or kvmtool) and the
//! launch state of a realm's VM.
use vstd::prelude::*;
use crate::disk::disk_name;
use crate::realm::{RealmConfig, VmManagerError};
use crate::text::{concat2, concat3, concat4, decimal, decimal_string, join_path, owned, path_join};
use crate::uuids::{hyphenated, uuid_nibble, uuid_to_string};
use crate::text::hex_digit_char;

verus! {

/// A program and its arguments.
#[derive(Debug)]
pub struct VmCommand {
    pub program: String,
    pub args: Vec<String>,
}

/// The value of a `VmCommand`.
pub struct VmCommandView {
    pub program: Seq<char>,
    pub args: Seq<Seq<char>>,
}

/// The values of a list of texts.
pub open spec fn texts(v: Seq<String>) -> Seq<Seq<char>> {
    v.map_values(|s: String| s@)
}

impl View for VmCommand {
    type V = VmCommandView;

    open spec fn view(&self) -> VmCommandView {
        VmCommandView { program: self.program@, args: texts(self.args@) }
    }
}

impl VmCommand {
    /// A command running `program` without arguments.
    pub fn new(program: String) -> (r: VmCommand)
        ensures
            r@.program == program@,
            r@.args == Seq::<Seq<char>>::empty(),
    {
        let r = VmCommand { program, args: Vec::new() };
        assert(r@.args =~= Seq::<Seq<char>>::empty());
        r
    }

    /// Appends one argument.
    pub fn arg(&mut self, a: String)
        ensures
            final(self)@.program == old(self)@.program,
            final(self)@.args == old(self)@.args.push(a@),
    {
        self.args.push(a);
        assert(texts(self.args@) =~= texts(old(self).args@).push(a@));
    }

    /// A copy of the command.
    pub fn duplicate(&self) -> (r: VmCommand)
        ensures
            r@ == self@,
    {
        let mut r = VmCommand::new(self.program.clone());
        let mut i: usize = 0;
        while i < self.args.len()
            invariant
                i <= self.args@.len(),
                r@.program == self@.program,
                r@.args == self@.args.subrange(0, i as int),
            decreases self.args@.len() - i,
        {
            r.arg(self.args[i].clone());
            assert(self@.args.subrange(0, i + 1) =~= self@.args.subrange(0, i as int).push(
                self.args@[i as int]@,
            ));
            i = i + 1;
        }
        assert(self@.args.subrange(0, i as int) =~= self@.args);
        r
    }
}

/// A hypervisor's base command line and the arguments that attach a disk.
pub trait CommandRunner {
    /// The base command line.
    spec fn spec_command(&self) -> VmCommandView;

    /// Arguments that attach the disk image at `path`.
    spec fn spec_disk_args(&self, path: Seq<char>) -> Seq<Seq<char>>;

    /// The base command line.
    fn get_command(&self) -> (r: &VmCommand)
        ensures
            r@ == self.spec_command(),
    ;

    /// Appends to `command` the arguments that attach the disk image at `app_disk_path`.
    fn setup_disk(&self, command: &mut VmCommand, app_disk_path: &str)
        ensures
            final(command)@.program == old(command)@.program,
            final(command)@.args == old(command)@.args + self.spec_disk_args(app_disk_path@),
    ;
}

/// The emulated network card: the configured one, `e1000` when none is.
pub open spec fn network_device(hw: Option<String>) -> Seq<char> {
    match hw {
        Some(h) => h@,
        None => "e1000"@,
    }
}

/// QEMU's arguments for a realm.
pub open spec fn qemu_args(c: RealmConfig) -> Seq<Seq<char>> {
    seq![
        "-smp"@, decimal(c.cpu.cores_number as nat), "-cpu"@, c.cpu.cpu@,
        "-kernel"@, c.kernel.kernel_path@,
        "-m"@, decimal(c.memory.ram_size as nat),
        "-machine"@, c.machine@,
        "-netdev"@, "tap,id=mynet0,ifname="@ + c.network.tap_device@ + ",script=no,downscript=no"@,
        "-device"@, network_device(c.network.hardware_device) + ",netdev=mynet0,mac="@ + c.network.mac_address@,
        "-device"@, "vhost-vsock-pci,id=vhost-vsock-pci0,guest-cid="@ + decimal(c.network.vsock_cid as nat),
    ] + match c.network.remote_terminal_uri {
        Some(uri) => seq!["-serial"@, uri@],
        None => Seq::empty(),
    } + seq!["-nographic"@, "-append"@, "console=ttyAMA0"@]
}

/// QEMU runs the realm's emulated network card on the tap device of its
/// configuration, with its MAC address: the card configured, or `e1000` when
/// none is; a remote terminal, when configured, is the serial console.
pub proof fn law_qemu_network_card(c: RealmConfig)
    ensures
        qemu_args(c)[10] == "-netdev"@,
        qemu_args(c)[11] == "tap,id=mynet0,ifname="@ + c.network.tap_device@ + ",script=no,downscript=no"@,
        qemu_args(c)[12] == "-device"@,
        c.network.hardware_device matches Some(h) ==> qemu_args(c)[13] == h@ + ",netdev=mynet0,mac="@
            + c.network.mac_address@,
        c.network.hardware_device is None ==> qemu_args(c)[13] == "e1000"@ + ",netdev=mynet0,mac="@
            + c.network.mac_address@,
        c.network.remote_terminal_uri matches Some(u) ==> qemu_args(c)[16] == "-serial"@ && qemu_args(c)[17]
            == u@,
        c.network.remote_terminal_uri is None ==> qemu_args(c).len() == 19 && qemu_args(c)[16] == "-nographic"@,
{
}

/// Runs realms with QEMU.
pub struct QemuRunner {
    realm_workdir: String,
    command: VmCommand,
}

impl QemuRunner {
    /// Directory of the realm the runner was made for.
    pub closed spec fn spec_workdir(&self) -> Seq<char> {
        self.realm_workdir@
    }

    /// QEMU at `path_to_qemu` configured for the realm `config`.
    pub fn new(path_to_qemu: String, realm_workdir: String, config: &RealmConfig) -> (r: QemuRunner)
        ensures
            r.spec_command() == (VmCommandView { program: path_to_qemu@, args: qemu_args(*config) }),
            r.spec_workdir() == realm_workdir@,
    {
        let mut c = VmCommand::new(path_to_qemu);
        c.arg(owned("-smp"));
        c.arg(decimal_string(config.cpu.cores_number as u64));
        c.arg(owned("-cpu"));
        c.arg(config.cpu.cpu.clone());
        c.arg(owned("-kernel"));
        c.arg(config.kernel.kernel_path.clone());
        c.arg(owned("-m"));
        c.arg(decimal_string(config.memory.ram_size as u64));
        c.arg(owned("-machine"));
        c.arg(config.machine.clone());
        c.arg(owned("-netdev"));
        c.arg(concat3("tap,id=mynet0,ifname=", config.network.tap_device.as_str(), ",script=no,downscript=no"));
        c.arg(owned("-device"));
        let device = match &config.network.hardware_device {
            Some(h) => h.as_str(),
            None => "e1000",
        };
        c.arg(concat3(device, ",netdev=mynet0,mac=", config.network.mac_address.as_str()));
        c.arg(owned("-device"));
        let mut vsock = owned("vhost-vsock-pci,id=vhost-vsock-pci0,guest-cid=");
        crate::text::append_decimal(&mut vsock, config.network.vsock_cid as u64);
        c.arg(vsock);
        if let Some(uri) = &config.network.remote_terminal_uri {
            c.arg(owned("-serial"));
            c.arg(uri.clone());
        }
        c.arg(owned("-nographic"));
        c.arg(owned("-append"));
        c.arg(owned("console=ttyAMA0"));
        let r = QemuRunner { realm_workdir, command: c };
        assert(r.command@.args =~= qemu_args(*config));
        r
    }
}

impl CommandRunner for QemuRunner {
    closed spec fn spec_command(&self) -> VmCommandView {
        self.command@
    }

    open spec fn spec_disk_args(&self, path: Seq<char>) -> Seq<Seq<char>> {
        seq!["-drive"@, "file="@ + path]
    }

    fn get_command(&self) -> (r: &VmCommand) {
        &self.command
    }

    fn setup_disk(&self, command: &mut VmCommand, app_disk_path: &str) {
        command.arg(owned("-drive"));
        command.arg(concat2("file=", app_disk_path));
        assert(command@.args =~= old(command)@.args + self.spec_disk_args(app_disk_path@));
    }
}

/// The quoted form of the kernel's command line parameters.
pub open spec fn quoted(s: Seq<char>) -> Seq<char> {
    "\""@ + s + "\""@
}

/// Error of preparing kvmtool's command line.
#[derive(Debug, PartialEq, Eq)]
pub enum LkvmError {
    /// A parameter that kvmtool needs was not given.
    MissingObligatoryParam(String),
}

impl LkvmError {
    /// The error's text.
    pub fn to_message(&self) -> (r: String)
        ensures
            r@ == "Missing param: "@ + self->MissingObligatoryParam_0@,
    {
        match self {
            LkvmError::MissingObligatoryParam(p) => concat2("Missing param: ", p.as_str()),
        }
    }
}

/// kvmtool's arguments for a realm.
pub open spec fn lkvm_args(c: RealmConfig) -> Seq<Seq<char>> {
    seq!["run"@, "-c"@, decimal(c.cpu.cores_number as nat), "-k"@, c.kernel.kernel_path@]
        + match c.kernel.kernel_initramfs_path {
        Some(p) => seq!["-i"@, p@],
        None => Seq::empty(),
    } + match c.kernel.kernel_cmd_params {
        Some(p) => seq!["-p"@, quoted(p@)],
        None => Seq::empty(),
    } + seq![
        "-m"@, decimal(c.memory.ram_size as nat),
        "-n"@, "tapif="@ + c.network.tap_device@ + ",guest_mac="@ + c.network.mac_address@,
        "--vsock"@, decimal(c.network.vsock_cid as nat),
        "--console"@, "serial"@,
    ]
}

/// kvmtool's arguments that run the VM as a CCA realm.
pub open spec fn cca_args() -> Seq<Seq<char>> {
    seq!["--debug"@, "--irqchip=gicv3"@, "--disable-sve"@, "--realm"@, "--measurement-algo=sha256"@]
}

/// kvmtool runs the realm with its number of cores, its kernel (with its
/// initramfs and its command line parameters in double quotes, each when
/// configured), its memory, a network card on the tap device of its
/// configuration with its MAC address, its vsock CID, and the serial console.
pub proof fn law_lkvm_arguments(c: RealmConfig)
    ensures
        ({
            let a = lkvm_args(c);
            let i: int = if c.kernel.kernel_initramfs_path is Some { 2int } else { 0int };
            let k: int = i + if c.kernel.kernel_cmd_params is Some { 2int } else { 0int };
            &&& a.len() == 13 + k
            &&& a[0] == "run"@ && a[1] == "-c"@ && a[2] == decimal(c.cpu.cores_number as nat)
            &&& a[3] == "-k"@ && a[4] == c.kernel.kernel_path@
            &&& (c.kernel.kernel_initramfs_path matches Some(p) ==> a[5] == "-i"@ && a[6] == p@)
            &&& (c.kernel.kernel_cmd_params matches Some(q) ==> a[5 + i] == "-p"@ && a[6 + i] == "\""@ + q@ + "\""@)
            &&& a[5 + k] == "-m"@ && a[6 + k] == decimal(c.memory.ram_size as nat)
            &&& a[7 + k] == "-n"@
            &&& a[8 + k] == "tapif="@ + c.network.tap_device@ + ",guest_mac="@ + c.network.mac_address@
            &&& a[9 + k] == "--vsock"@ && a[10 + k] == decimal(c.network.vsock_cid as nat)
            &&& a[11 + k] == "--console"@ && a[12 + k] == "serial"@
        }),
        cca_args() == seq!["--debug"@, "--irqchip=gicv3"@, "--disable-sve"@, "--realm"@, "--measurement-algo=sha256"@],
{
}

/// Runs realms with kvmtool.
pub struct LkvmRunner {
    realm_workdir: String,
    command: VmCommand,
}

impl LkvmRunner {
    /// Directory of the realm the runner was made for.
    pub closed spec fn spec_workdir(&self) -> Seq<char> {
        self.realm_workdir@
    }

    /// kvmtool at `path_to_runner` configured for the realm `config`.
    pub fn new(path_to_runner: String, realm_workdir: String, config: &RealmConfig) -> (r: LkvmRunner)
        ensures
            r.spec_command() == (VmCommandView { program: path_to_runner@, args: lkvm_args(*config) }),
            r.spec_workdir() == realm_workdir@,
    {
        let mut c = VmCommand::new(path_to_runner);
        c.arg(owned("run"));
        c.arg(owned("-c"));
        c.arg(decimal_string(config.cpu.cores_number as u64));
        c.arg(owned("-k"));
        c.arg(config.kernel.kernel_path.clone());
        if let Some(p) = &config.kernel.kernel_initramfs_path {
            c.arg(owned("-i"));
            c.arg(p.clone());
        }
        if let Some(p) = &config.kernel.kernel_cmd_params {
            c.arg(owned("-p"));
            c.arg(concat3("\"", p.as_str(), "\""));
        }
        c.arg(owned("-m"));
        c.arg(decimal_string(config.memory.ram_size as u64));
        c.arg(owned("-n"));
        c.arg(concat4("tapif=", config.network.tap_device.as_str(), ",guest_mac=", config.network.mac_address.as_str()));
        c.arg(owned("--vsock"));
        c.arg(decimal_string(config.network.vsock_cid as u64));
        c.arg(owned("--console"));
        c.arg(owned("serial"));
        let r = LkvmRunner { realm_workdir, command: c };
        assert(r.command@.args =~= lkvm_args(*config));
        r
    }

    /// Makes the VM run as a CCA realm.
    pub fn configure_cca_settings(&mut self)
        ensures
            final(self).spec_workdir() == old(self).spec_workdir(),
            final(self).spec_command().program == old(self).spec_command().program,
            final(self).spec_command().args == old(self).spec_command().args + cca_args(),
    {
        self.command.arg(owned("--debug"));
        self.command.arg(owned("--irqchip=gicv3"));
        self.command.arg(owned("--disable-sve"));
        self.command.arg(owned("--realm"));
        self.command.arg(owned("--measurement-algo=sha256"));
        assert(self.command@.args =~= old(self).command@.args + cca_args());
    }
}

impl CommandRunner for LkvmRunner {
    closed spec fn spec_command(&self) -> VmCommandView {
        self.command@
    }

    open spec fn spec_disk_args(&self, path: Seq<char>) -> Seq<Seq<char>> {
        seq!["-d"@, path]
    }

    fn get_command(&self) -> (r: &VmCommand) {
        &self.command
    }

    fn setup_disk(&self, command: &mut VmCommand, app_disk_path: &str) {
        command.arg(owned("-d"));
        command.arg(owned(app_disk_path));
        assert(command@.args =~= old(command)@.args + self.spec_disk_args(app_disk_path@));
    }
}

/// Path of an application's disk image inside a realm's directory.
pub open spec fn app_disk_path(realm_workdir: Seq<char>, app: u128) -> Seq<char> {
    path_join(path_join(realm_workdir, hyphenated(app)), disk_name())
}

/// Disk arguments of the applications `apps[from..]`, in order.
pub open spec fn disks_args<T: CommandRunner>(
    runner: T,
    realm_workdir: Seq<char>,
    apps: Seq<u128>,
) -> Seq<Seq<char>>
    decreases apps.len(),
{
    if apps.len() == 0 {
        Seq::empty()
    } else {
        disks_args(runner, realm_workdir, apps.drop_last()) + runner.spec_disk_args(
            app_disk_path(realm_workdir, apps.last()),
        )
    }
}

/// A realm's virtual machine: the command that runs it and whether it was launched.
pub struct VmRunner<T: CommandRunner> {
    cmd_runner: T,
    realm_id: u128,
    realm_workdir: String,
    launched: bool,
}

impl<T: CommandRunner> VmRunner<T> {
    /// The hypervisor's runner.
    pub closed spec fn spec_runner(&self) -> T {
        self.cmd_runner
    }

    /// Directory of the realm.
    pub closed spec fn spec_workdir(&self) -> Seq<char> {
        self.realm_workdir@
    }

    /// The realm's UUID.
    pub closed spec fn spec_realm_id(&self) -> u128 {
        self.realm_id
    }

    /// Whether the VM has been launched (a later shutdown does not reset this).
    pub closed spec fn spec_launched(&self) -> bool {
        self.launched
    }

    /// A VM of realm `realm_id` in `realm_workdir`, not launched.
    pub fn new(runner: T, realm_id: u128, realm_workdir: String) -> (r: VmRunner<T>)
        ensures
            r.spec_runner() == runner,
            r.spec_workdir() == realm_workdir@,
            r.spec_realm_id() == realm_id,
            !r.spec_launched(),
    {
        VmRunner { cmd_runner: runner, realm_id, realm_workdir, launched: false }
    }

    /// The realm's UUID.
    pub fn realm_id(&self) -> (r: u128)
        ensures
            r == self.spec_realm_id(),
    {
        self.realm_id
    }

    /// The command that runs the VM with the disks of the given applications,
    /// each at `<workdir>/<uuid>/disk.raw`.
    pub fn prepare_run_command(&self, application_uuids: &Vec<u128>) -> (r: VmCommand)
        ensures
            r@.program == self.spec_runner().spec_command().program,
            r@.args == self.spec_runner().spec_command().args + disks_args(
                self.spec_runner(),
                self.spec_workdir(),
                application_uuids@,
            ),
    {
        let mut command = self.cmd_runner.get_command().duplicate();
        let mut i: usize = 0;
        while i < application_uuids.len()
            invariant
                i <= application_uuids@.len(),
                command@.program == self.spec_runner().spec_command().program,
                command@.args == self.spec_runner().spec_command().args + disks_args(
                    self.spec_runner(),
                    self.spec_workdir(),
                    application_uuids@.subrange(0, i as int),
                ),
            decreases application_uuids@.len() - i,
        {
            let app_dir = join_path(self.realm_workdir.as_str(), uuid_to_string(application_uuids[i]).as_str());
            let path = join_path(app_dir.as_str(), "disk.raw");
            self.cmd_runner.setup_disk(&mut command, path.as_str());
            let ghost prefix = application_uuids@.subrange(0, i as int);
            let ghost next = application_uuids@.subrange(0, i + 1);
            assert(next.drop_last() =~= prefix);
            assert(command@.args =~= self.spec_runner().spec_command().args + disks_args(
                self.spec_runner(),
                self.spec_workdir(),
                next,
            ));
            i = i + 1;
        }
        assert(application_uuids@.subrange(0, i as int) =~= application_uuids@);
        command
    }

    /// Starts a launch: refused with `VmAlreadyLaunched` once the VM has been
    /// launched; otherwise the command to spawn.
    pub fn launch_vm(&self, application_uuids: &Vec<u128>) -> (r: Result<VmCommand, VmManagerError>)
        ensures
            self.spec_launched() ==> r == Err::<VmCommand, VmManagerError>(VmManagerError::VmAlreadyLaunched),
            !self.spec_launched() ==> (r matches Ok(c) && c@.args == self.spec_runner().spec_command().args
                + disks_args(self.spec_runner(), self.spec_workdir(), application_uuids@)
                && c@.program == self.spec_runner().spec_command().program),
    {
        let command = self.prepare_run_command(application_uuids);
        if self.launched {
            Err(VmManagerError::VmAlreadyLaunched)
        } else {
            Ok(command)
        }
    }

    /// Ends a launch with the outcome of spawning the VM: a failure is
    /// `Launch` with its message; a success marks the VM launched.
    pub fn vm_spawned(&mut self, spawned: Result<(), String>) -> (r: Result<(), VmManagerError>)
        requires
            !old(self).spec_launched(),
        ensures
            final(self).spec_runner() == old(self).spec_runner(),
            final(self).spec_workdir() == old(self).spec_workdir(),
            final(self).spec_realm_id() == old(self).spec_realm_id(),
            match spawned {
                Ok(()) => r is Ok && final(self).spec_launched(),
                Err(m) => (r matches Err(VmManagerError::Launch(e)) && e@ == m@) && !final(self).spec_launched(),
            },
    {
        match spawned {
            Ok(()) => {
                self.launched = true;
                Ok(())
            },
            Err(m) => Err(VmManagerError::Launch(m)),
        }
    }

    /// Whether the VM can be shut down: refused with `VmNotLaunched` before a launch.
    pub fn shutdown(&self) -> (r: Result<(), VmManagerError>)
        ensures
            r is Ok <==> self.spec_launched(),
            r is Err ==> r == Err::<(), VmManagerError>(VmManagerError::VmNotLaunched),
    {
        if self.launched {
            Ok(())
        } else {
            Err(VmManagerError::VmNotLaunched)
        }
    }

    /// The outcome of stopping the VM: a failure is `Shutdown` with its message.
    pub fn shutdown_done(&self, stopped: Result<(), String>) -> (r: Result<(), VmManagerError>)
        ensures
            match stopped {
                Ok(()) => r is Ok,
                Err(m) => r matches Err(VmManagerError::Shutdown(e)) && e@ == m@,
            },
    {
        match stopped {
            Ok(()) => Ok(()),
            Err(m) => Err(VmManagerError::Shutdown(m)),
        }
    }

    /// Whether the VM's exit status can be asked for: refused with `VmNotLaunched` before a launch.
    pub fn try_get_exit_status(&self) -> (r: Result<(), VmManagerError>)
        ensures
            r is Ok <==> self.spec_launched(),
            r is Err ==> r == Err::<(), VmManagerError>(VmManagerError::VmNotLaunched),
    {
        self.shutdown()
    }

    /// The outcome of asking for the exit status: a failure is `GetExitCode` with its message.
    pub fn exit_status_read<S>(&self, status: Result<Option<S>, String>) -> (r: Result<Option<S>, VmManagerError>)
        ensures
            match status {
                Ok(s) => r == Ok::<Option<S>, VmManagerError>(s),
                Err(m) => r matches Err(VmManagerError::GetExitCode(e)) && e@ == m@,
            },
    {
        match status {
            Ok(s) => Ok(s),
            Err(m) => Err(VmManagerError::GetExitCode(m)),
        }
    }
}

/// The virtual machine of a realm, run by kvmtool or by QEMU.
pub enum RealmVm {
    Lkvm(VmRunner<LkvmRunner>),
    Qemu(VmRunner<QemuRunner>),
}

/// The virtual machine of realm `realm_id` in `realm_workdir`, not launched:
/// kvmtool when `lkvm` is set (as a CCA realm when `cca` is set too),
/// QEMU otherwise, both at `virtualizer_path` and configured by `config`.
pub fn create_realm_vm(
    lkvm: bool,
    cca: bool,
    virtualizer_path: String,
    realm_workdir: String,
    realm_id: u128,
    config: &RealmConfig,
) -> (r: RealmVm)
    ensures
        lkvm <==> r is Lkvm,
        r matches RealmVm::Lkvm(v) ==> {
            &&& v.spec_runner().spec_command() == (VmCommandView {
                program: virtualizer_path@,
                args: lkvm_args(*config) + if cca { cca_args() } else { Seq::empty() },
            })
            &&& v.spec_workdir() == realm_workdir@
            &&& v.spec_realm_id() == realm_id
            &&& !v.spec_launched()
        },
        r matches RealmVm::Qemu(v) ==> {
            &&& v.spec_runner().spec_command() == (VmCommandView { program: virtualizer_path@, args: qemu_args(*config) })
            &&& v.spec_workdir() == realm_workdir@
            &&& v.spec_realm_id() == realm_id
            &&& !v.spec_launched()
        },
{
    if lkvm {
        let mut runner = LkvmRunner::new(virtualizer_path, realm_workdir.clone(), config);
        if cca {
            runner.configure_cca_settings();
        } else {
            assert(runner.spec_command().args =~= lkvm_args(*config) + Seq::<Seq<char>>::empty());
        }
        RealmVm::Lkvm(VmRunner::new(runner, realm_id, realm_workdir))
    } else {
        RealmVm::Qemu(VmRunner::new(QemuRunner::new(virtualizer_path, realm_workdir.clone(), config), realm_id, realm_workdir))
    }
}

proof fn lemma_disks_args<T: CommandRunner>(r: T, w: Seq<char>, apps: Seq<u128>)
    requires
        forall|p: Seq<char>| (#[trigger] r.spec_disk_args(p)).len() == 2,
    ensures
        disks_args(r, w, apps).len() == 2 * apps.len(),
        forall|k: int|
            0 <= k < apps.len() ==> #[trigger] disks_args(r, w, apps).subrange(2 * k, 2 * k + 2)
                == r.spec_disk_args(app_disk_path(w, apps[k])),
    decreases apps.len(),
{
    if apps.len() > 0 {
        lemma_disks_args(r, w, apps.drop_last());
        let d = disks_args(r, w, apps);
        let e = disks_args(r, w, apps.drop_last());
        let last = r.spec_disk_args(app_disk_path(w, apps.last()));
        assert(last.len() == 2);
        assert forall|k: int| 0 <= k < apps.len() implies #[trigger] d.subrange(2 * k, 2 * k + 2)
            == r.spec_disk_args(app_disk_path(w, apps[k])) by {
            if k < apps.len() - 1 {
                assert(d.subrange(2 * k, 2 * k + 2) =~= e.subrange(2 * k, 2 * k + 2));
                assert(apps.drop_last()[k] == apps[k]);
            } else {
                assert(d.subrange(2 * k, 2 * k + 2) =~= last);
            }
        }
    }
}

/// A realm's VM gets the disk image of each of its applications, in the
/// order given, through two arguments each (`-drive file=<path>` for QEMU,
/// `-d <path>` for kvmtool); the image of application `a` is `disk.raw` in
/// the directory named by `a`'s hyphenated UUID inside the realm's directory.
pub proof fn law_vm_disks(q: QemuRunner, l: LkvmRunner, w: Seq<char>, apps: Seq<u128>)
    ensures
        disks_args(q, w, apps).len() == 2 * apps.len(),
        disks_args(l, w, apps).len() == 2 * apps.len(),
        forall|k: int|
            0 <= k < apps.len() ==> #[trigger] disks_args(q, w, apps).subrange(2 * k, 2 * k + 2)
                == seq!["-drive"@, "file="@ + app_disk_path(w, apps[k])],
        forall|k: int|
            0 <= k < apps.len() ==> #[trigger] disks_args(l, w, apps).subrange(2 * k, 2 * k + 2)
                == seq!["-d"@, app_disk_path(w, apps[k])],
        forall|a: u128|
            w.len() > 0 && w.last() != '/' ==> #[trigger] app_disk_path(w, a) == w + "/"@ + hyphenated(a)
                + "/disk.raw"@,
{
    lemma_disks_args(q, w, apps);
    lemma_disks_args(l, w, apps);
    reveal_strlit("/");
    reveal_strlit("disk.raw");
    reveal_strlit("/disk.raw");
    assert forall|a: u128| w.len() > 0 && w.last() != '/' implies #[trigger] app_disk_path(w, a) == w + "/"@
        + hyphenated(a) + "/disk.raw"@ by {
        let h = hyphenated(a);
        reveal_strlit("-");
        assert(h[0] == hex_digit_char(uuid_nibble(a, 0)));
        assert(h.last() == hex_digit_char(uuid_nibble(a, 31)));
        let b = path_join(w, h);
        assert(b =~= w + seq!['/'] + h);
        assert(b.last() == h.last());
        assert(path_join(b, disk_name()) =~= b + seq!['/'] + disk_name());
        assert(w + "/"@ + h + "/disk.raw"@ =~= b + seq!['/'] + disk_name());
    }
}

} // verus!
