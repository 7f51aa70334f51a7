//! The daemon's handling of realms as a whole: where each realm lives on disk,
//! the order of the work that creates, loads and cleans up a realm, and which
//! error a failure of that work is reported as.
use vstd::prelude::*;
use crate::realm::{RealmConfig, WardenError};
use crate::text::{concat2, join_path, path_join};
use crate::uuids::{hyphenated, uuid_to_string};

verus! {

/// Error of the daemon's Unix socket server.
#[derive(Debug, PartialEq, Eq)]
pub enum UnixSocketServerError {
    /// A socket operation failed, with the system's message.
    SocketFail(String),
}

impl UnixSocketServerError {
    /// The error's text.
    pub fn to_message(&self) -> (r: String)
        ensures
            r@ == "Socket operation failed: "@ + self->SocketFail_0@,
    {
        match self {
            UnixSocketServerError::SocketFail(m) => concat2("Socket operation failed: ", m.as_str()),
        }
    }
}

/// The directory of realm `realm_id` under the daemon's working directory.
pub open spec fn spec_realm_workdir(workdir: Seq<char>, realm_id: u128) -> Seq<char> {
    path_join(workdir, hyphenated(realm_id))
}

/// Maker of the warden from the realms found in its working directory (once
/// the directory exists).
pub struct WardenFabric {
    warden_workdir_path: String,
}

impl WardenFabric {
    /// The daemon's working directory.
    pub closed spec fn spec_workdir(&self) -> Seq<char> {
        self.warden_workdir_path@
    }

    /// The fabric of the working directory `warden_workdir_path`.
    pub fn new(warden_workdir_path: String) -> (r: WardenFabric)
        ensures
            r.spec_workdir() == warden_workdir_path@,
    {
        WardenFabric { warden_workdir_path }
    }

    /// The daemon's working directory, which holds one directory per realm.
    pub fn workdir(&self) -> (r: &str)
        ensures
            r@ == self.spec_workdir(),
    {
        self.warden_workdir_path.as_str()
    }
}

/// A piece of work on the resources of a realm.
#[derive(Debug, PartialEq, Eq)]
pub enum RealmStep {
    /// Create the realm's directory.
    CreateWorkdir { path: String },
    /// Load each application found in a subdirectory of the realm's directory.
    LoadApplications { realm_workdir: String },
    /// Read the realm's configuration from its directory; its outcome hands
    /// the configuration read back (`StepOutcome::ConfigRead`).
    LoadConfig { realm_workdir: String },
    /// Store `config` as the realm's configuration in its directory.
    SaveConfig { realm_workdir: String, config: RealmConfig },
    /// Create the tap device `name` for realm `realm_id` and attach it to the bridge.
    CreateTap { name: String, realm_id: u128 },
    /// Make the realm's virtual machine manager for `realm_workdir` from `config`.
    CreateVm { realm_workdir: String, config: RealmConfig },
    /// Remove the realm's tap device.
    ShutdownTap { realm_id: u128 },
    /// Remove the realm's directory and all it holds.
    RemoveWorkdir { path: String },
}

/// The value of a `RealmStep`.
pub enum RealmStepView {
    CreateWorkdir(Seq<char>),
    LoadApplications(Seq<char>),
    LoadConfig(Seq<char>),
    SaveConfig(Seq<char>, RealmConfig),
    CreateTap(Seq<char>, u128),
    CreateVm(Seq<char>, RealmConfig),
    ShutdownTap(u128),
    RemoveWorkdir(Seq<char>),
}

impl View for RealmStep {
    type V = RealmStepView;

    open spec fn view(&self) -> RealmStepView {
        match self {
            RealmStep::CreateWorkdir { path } => RealmStepView::CreateWorkdir(path@),
            RealmStep::LoadApplications { realm_workdir } => RealmStepView::LoadApplications(realm_workdir@),
            RealmStep::LoadConfig { realm_workdir } => RealmStepView::LoadConfig(realm_workdir@),
            RealmStep::SaveConfig { realm_workdir, config } => RealmStepView::SaveConfig(realm_workdir@, *config),
            RealmStep::CreateTap { name, realm_id } => RealmStepView::CreateTap(name@, *realm_id),
            RealmStep::CreateVm { realm_workdir, config } => RealmStepView::CreateVm(realm_workdir@, *config),
            RealmStep::ShutdownTap { realm_id } => RealmStepView::ShutdownTap(*realm_id),
            RealmStep::RemoveWorkdir { path } => RealmStepView::RemoveWorkdir(path@),
        }
    }
}

/// The values of a list of steps.
pub open spec fn steps_view(s: Seq<RealmStep>) -> Seq<RealmStepView> {
    s.map_values(|x: RealmStep| x@)
}

/// The work that creates realm `realm_id` with configuration `config`: its
/// directory, the tap device named in `config`, its virtual machine manager
/// made from `config`, then `config` stored in the directory.
pub open spec fn create_realm_plan(workdir: Seq<char>, realm_id: u128, config: RealmConfig) -> Seq<RealmStepView> {
    let dir = spec_realm_workdir(workdir, realm_id);
    seq![
        RealmStepView::CreateWorkdir(dir),
        RealmStepView::CreateTap(config.network.tap_device@, realm_id),
        RealmStepView::CreateVm(dir, config),
        RealmStepView::SaveConfig(dir, config),
    ]
}

/// The work that loads a realm found on disk, up to reading its
/// configuration: its applications, then its configuration.
pub open spec fn load_realm_plan(workdir: Seq<char>, realm_id: u128) -> Seq<RealmStepView> {
    let dir = spec_realm_workdir(workdir, realm_id);
    seq![RealmStepView::LoadApplications(dir), RealmStepView::LoadConfig(dir)]
}

/// The work that follows reading configuration `config` of realm `realm_id`
/// from `dir`: the tap device named in `config`, then the virtual machine
/// manager made from `config`.
pub open spec fn loaded_realm_plan(dir: Seq<char>, realm_id: u128, config: RealmConfig) -> Seq<RealmStepView> {
    seq![RealmStepView::CreateTap(config.network.tap_device@, realm_id), RealmStepView::CreateVm(dir, config)]
}

/// The work that cleans up a destroyed realm: its tap device, then its directory.
pub open spec fn clean_up_realm_plan(workdir: Seq<char>, realm_id: u128) -> Seq<RealmStepView> {
    seq![
        RealmStepView::ShutdownTap(realm_id),
        RealmStepView::RemoveWorkdir(spec_realm_workdir(workdir, realm_id)),
    ]
}

/// Whether a step belongs to taking a realm down.
pub open spec fn is_teardown(step: RealmStepView) -> bool {
    step is ShutdownTap || step is RemoveWorkdir
}

/// The error that the failure of `step` with `message` is reported as: a
/// failure while taking a realm down is a failure to destroy it, any other a
/// failure to create it.
pub open spec fn spec_step_failure(step: RealmStepView, message: String) -> WardenError {
    if is_teardown(step) {
        WardenError::DestroyFail(message)
    } else {
        WardenError::RealmCreationFail(message)
    }
}

/// Maker of realms: where they live, and the work on their resources.
pub struct RealmManagerFabric {
    warden_workdir_path: String,
}

impl RealmManagerFabric {
    /// The daemon's working directory.
    pub closed spec fn spec_workdir(&self) -> Seq<char> {
        self.warden_workdir_path@
    }

    /// The fabric that keeps realms under `warden_workdir_path`.
    pub fn new(warden_workdir_path: String) -> (r: RealmManagerFabric)
        ensures
            r.spec_workdir() == warden_workdir_path@,
    {
        RealmManagerFabric { warden_workdir_path }
    }

    /// The directory of realm `realm_id`: its hyphenated UUID under the
    /// working directory.
    pub fn realm_workdir(&self, realm_id: u128) -> (r: String)
        ensures
            r@ == spec_realm_workdir(self.spec_workdir(), realm_id),
    {
        let id = uuid_to_string(realm_id);
        join_path(self.warden_workdir_path.as_str(), id.as_str())
    }

    /// The work that creates realm `realm_id` with configuration `config`, in order.
    pub fn create_realm(&self, realm_id: u128, config: &RealmConfig) -> (r: Vec<RealmStep>)
        ensures
            steps_view(r@) == create_realm_plan(self.spec_workdir(), realm_id, *config),
    {
        let dir = self.realm_workdir(realm_id);
        let v = vec![
            RealmStep::CreateWorkdir { path: dir.clone() },
            RealmStep::CreateTap { name: config.network.tap_device.clone(), realm_id },
            RealmStep::CreateVm { realm_workdir: dir.clone(), config: config.duplicate() },
            RealmStep::SaveConfig { realm_workdir: dir, config: config.duplicate() },
        ];
        assert(steps_view(v@) =~= create_realm_plan(self.spec_workdir(), realm_id, *config));
        v
    }

    /// The work that loads realm `realm_id` from its directory, up to reading
    /// its configuration; `RealmWork::after_step` adds the rest once the
    /// configuration is read.
    pub fn load_realm(&self, realm_id: u128) -> (r: Vec<RealmStep>)
        ensures
            steps_view(r@) == load_realm_plan(self.spec_workdir(), realm_id),
    {
        let dir = self.realm_workdir(realm_id);
        let v = vec![
            RealmStep::LoadApplications { realm_workdir: dir.clone() },
            RealmStep::LoadConfig { realm_workdir: dir },
        ];
        assert(steps_view(v@) =~= load_realm_plan(self.spec_workdir(), realm_id));
        v
    }

    /// The work that cleans up realm `realm_id`, in order.
    pub fn clean_up_realm(&self, realm_id: u128) -> (r: Vec<RealmStep>)
        ensures
            steps_view(r@) == clean_up_realm_plan(self.spec_workdir(), realm_id),
    {
        let dir = self.realm_workdir(realm_id);
        let v = vec![RealmStep::ShutdownTap { realm_id }, RealmStep::RemoveWorkdir { path: dir }];
        assert(steps_view(v@) =~= clean_up_realm_plan(self.spec_workdir(), realm_id));
        v
    }
}

impl RealmStep {
    /// The error that the failure of this step, with `message`, is reported as.
    pub fn failure(&self, message: String) -> (r: WardenError)
        ensures
            r == spec_step_failure(self@, message),
    {
        match self {
            RealmStep::ShutdownTap { .. } | RealmStep::RemoveWorkdir { .. } => WardenError::DestroyFail(message),
            _ => WardenError::RealmCreationFail(message),
        }
    }
}

/// How a step of the work on a realm ended.
pub enum StepOutcome {
    /// The step succeeded.
    Done,
    /// The realm's configuration was read (the outcome of `LoadConfig`).
    ConfigRead(RealmConfig),
    /// The step failed with this message.
    Failed(String),
}

/// What to do next in the work on a realm: run the step at an index, or stop
/// with the work's result.
#[derive(Debug, PartialEq, Eq)]
pub enum RealmAction {
    Run(usize),
    Finish(Result<(), WardenError>),
}

/// The work on a realm's resources, step by step.
pub struct RealmWork {
    realm_id: u128,
    steps: Vec<RealmStep>,
}

impl RealmWork {
    /// The realm worked on.
    pub closed spec fn spec_realm_id(&self) -> u128 {
        self.realm_id
    }

    /// The steps known so far.
    pub closed spec fn spec_steps(&self) -> Seq<RealmStepView> {
        steps_view(self.steps@)
    }

    /// The work `steps` on realm `realm_id`.
    pub fn new(realm_id: u128, steps: Vec<RealmStep>) -> (r: RealmWork)
        ensures
            r.spec_realm_id() == realm_id,
            r.spec_steps() == steps_view(steps@),
    {
        RealmWork { realm_id, steps }
    }

    /// The step at index `i`.
    pub fn step(&self, i: usize) -> (r: &RealmStep)
        requires
            i < self.spec_steps().len(),
        ensures
            r@ == self.spec_steps()[i as int],
    {
        &self.steps[i]
    }

    /// The first action: the first step, or success when there is none.
    pub fn start(&self) -> (r: RealmAction)
        ensures
            r == (if self.spec_steps().len() == 0 {
                RealmAction::Finish(Ok(()))
            } else {
                RealmAction::Run(0)
            }),
    {
        if self.steps.len() == 0 {
            RealmAction::Finish(Ok(()))
        } else {
            RealmAction::Run(0)
        }
    }

    /// The action after step `i` ended with `outcome`. A failed step ends the
    /// work with that step's error. Reading the configuration adds the tap
    /// device named in it and the virtual machine made from it as the next
    /// steps. A success runs the next step, or ends the work with success
    /// after the last one.
    pub fn after_step(&mut self, i: usize, outcome: StepOutcome) -> (r: RealmAction)
        requires
            i < old(self).spec_steps().len(),
            old(self).spec_steps()[i as int] is LoadConfig ==> !(outcome is Done),
            !(old(self).spec_steps()[i as int] is LoadConfig) ==> !(outcome is ConfigRead),
        ensures
            final(self).spec_realm_id() == old(self).spec_realm_id(),
            match outcome {
                StepOutcome::Failed(m) => r == RealmAction::Finish(Err(spec_step_failure(
                    old(self).spec_steps()[i as int],
                    m,
                ))) && final(self).spec_steps() == old(self).spec_steps(),
                StepOutcome::ConfigRead(c) => final(self).spec_steps() == old(self).spec_steps()
                    + loaded_realm_plan(
                    old(self).spec_steps()[i as int]->LoadConfig_0,
                    old(self).spec_realm_id(),
                    c,
                ),
                StepOutcome::Done => final(self).spec_steps() == old(self).spec_steps(),
            },
            !(outcome is Failed) ==> r == (if i + 1 < final(self).spec_steps().len() {
                RealmAction::Run((i + 1) as usize)
            } else {
                RealmAction::Finish(Ok(()))
            }),
    {
        let ghost old_steps = self.steps@;
        match outcome {
            StepOutcome::Failed(m) => RealmAction::Finish(Err(self.steps[i].failure(m))),
            StepOutcome::ConfigRead(c) => {
                let dir = match &self.steps[i] {
                    RealmStep::LoadConfig { realm_workdir } => realm_workdir.clone(),
                    _ => String::new(),
                };
                let name = c.network.tap_device.clone();
                let ghost config = c;
                self.steps.push(RealmStep::CreateTap { name, realm_id: self.realm_id });
                self.steps.push(RealmStep::CreateVm { realm_workdir: dir, config: c });
                assert(steps_view(self.steps@) =~= steps_view(old_steps) + loaded_realm_plan(
                    steps_view(old_steps)[i as int]->LoadConfig_0,
                    self.realm_id,
                    config,
                ));
                let n = self.steps.len();
                if i < n - 1 {
                    RealmAction::Run(i + 1)
                } else {
                    RealmAction::Finish(Ok(()))
                }
            },
            StepOutcome::Done => {
                let n = self.steps.len();
                if i < n - 1 {
                    RealmAction::Run(i + 1)
                } else {
                    RealmAction::Finish(Ok(()))
                }
            },
        }
    }
}

/// The result of running a plan from step `i` on, when step `k` ends as
/// `outcomes[k]` says (`None` for success, a failure's message otherwise).
pub open spec fn realm_run(plan: Seq<RealmStepView>, i: int, outcomes: Seq<Option<String>>) -> Result<(), WardenError>
    decreases plan.len() - i,
{
    if i < 0 || i >= plan.len() {
        Ok(())
    } else {
        match outcomes[i] {
            Some(m) => Err(spec_step_failure(plan[i], m)),
            None => realm_run(plan, i + 1, outcomes),
        }
    }
}

proof fn lemma_realm_run(plan: Seq<RealmStepView>, i: int, outcomes: Seq<Option<String>>)
    requires
        0 <= i <= plan.len(),
        outcomes.len() >= plan.len(),
    ensures
        realm_run(plan, i, outcomes) is Ok <==> (forall|k: int| i <= k < plan.len() ==> outcomes[k] is None),
        realm_run(plan, i, outcomes) is Err ==> exists|k: int|
            i <= k < plan.len() && outcomes[k] is Some && (forall|j: int| i <= j < k ==> outcomes[j] is None)
                && realm_run(plan, i, outcomes) == Err::<(), WardenError>(
                spec_step_failure(plan[k], outcomes[k]->Some_0),
            ),
    decreases plan.len() - i,
{
    if i < plan.len() {
        lemma_realm_run(plan, i + 1, outcomes);
        if outcomes[i] is None {
            if realm_run(plan, i + 1, outcomes) is Err {
                let k = choose|k: int|
                    i + 1 <= k < plan.len() && outcomes[k] is Some && (forall|j: int| i + 1 <= j < k ==> outcomes[j] is None)
                        && realm_run(plan, i + 1, outcomes) == Err::<(), WardenError>(
                        spec_step_failure(plan[k], outcomes[k]->Some_0),
                    );
                assert(forall|j: int| i <= j < k ==> outcomes[j] is None);
            }
        } else {
            assert(forall|j: int| i <= j < i ==> outcomes[j] is None);
        }
    }
}

/// Work on a realm succeeds exactly when every step succeeds; otherwise it
/// ends with the error of the first step that failed, with its message: a
/// failure to create the realm for its creation or loading, a failure to
/// destroy it for its cleanup.
pub proof fn law_realm_work_stops_at_first_failure(
    workdir: Seq<char>,
    realm_id: u128,
    config: RealmConfig,
    outcomes: Seq<Option<String>>,
)
    requires
        outcomes.len() == 4,
    ensures
        ({
            let plan = create_realm_plan(workdir, realm_id, config);
            &&& realm_run(plan, 0, outcomes) is Ok <==> (forall|k: int| 0 <= k < 4 ==> outcomes[k] is None)
            &&& realm_run(plan, 0, outcomes) is Err ==> exists|k: int|
                0 <= k < 4 && outcomes[k] is Some && (forall|j: int| 0 <= j < k ==> outcomes[j] is None)
                    && realm_run(plan, 0, outcomes) == Err::<(), WardenError>(
                    WardenError::RealmCreationFail(outcomes[k]->Some_0),
                )
        }),
        ({
            let plan = clean_up_realm_plan(workdir, realm_id);
            &&& realm_run(plan, 0, outcomes) is Ok <==> (forall|k: int| 0 <= k < 2 ==> outcomes[k] is None)
            &&& realm_run(plan, 0, outcomes) is Err ==> exists|k: int|
                0 <= k < 2 && outcomes[k] is Some && (forall|j: int| 0 <= j < k ==> outcomes[j] is None)
                    && realm_run(plan, 0, outcomes) == Err::<(), WardenError>(
                    WardenError::DestroyFail(outcomes[k]->Some_0),
                )
        }),
{
    let c = create_realm_plan(workdir, realm_id, config);
    let d = clean_up_realm_plan(workdir, realm_id);
    lemma_realm_run(c, 0, outcomes);
    lemma_realm_run(d, 0, outcomes);
    assert(forall|k: int| 0 <= k < 4 ==> !is_teardown(#[trigger] c[k]));
    assert(forall|k: int| 0 <= k < 2 ==> is_teardown(#[trigger] d[k]));
}

/// A realm that was created and then cleaned up leaves nothing behind: the
/// tap device created for it is the one removed, and the directory created
/// for it is the one removed.
pub proof fn law_clean_up_undoes_creation(workdir: Seq<char>, realm_id: u128, config: RealmConfig)
    ensures
        ({
            let c = create_realm_plan(workdir, realm_id, config);
            let d = clean_up_realm_plan(workdir, realm_id);
            &&& c[0] == RealmStepView::CreateWorkdir(d[1]->RemoveWorkdir_0)
            &&& c[1]->CreateTap_1 == d[0]->ShutdownTap_0
            &&& load_realm_plan(workdir, realm_id)[0]->LoadApplications_0 == d[1]->RemoveWorkdir_0
        }),
{
}

} // verus!
