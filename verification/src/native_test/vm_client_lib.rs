//! Starting the virtual machine and connecting to the payload.
use crate::native_test::timeouts;
use crate::native_test::timeouts::Timeouts;
use crate::status;
use crate::text;
use vstd::prelude::*;
use vstd::string::StringExecFns;

verus! {

/// Where the packages are looked for.
pub const APK_DIR: &'static str = "/data/local/tmp/";

/// CPU topology of a virtual machine.
#[derive(Debug, PartialEq, Eq, Structural, Clone, Copy)]
pub enum VmCpuTopology {
    /// One virtual CPU only.
    OneCpu,
    /// The topology of the host.
    MatchHost,
}

impl Default for VmCpuTopology {
    fn default() -> (r: Self)
        ensures
            r == VmCpuTopology::OneCpu,
    {
        VmCpuTopology::OneCpu
    }
}

/// Parameters of a virtual machine instance.
#[derive(Debug, Clone)]
pub struct VmParameters {
    /// The name of the virtual machine.
    pub name: String,
    /// Whether it is debuggable.
    pub debug_mode: bool,
    pub cpu_topology: VmCpuTopology,
    /// Task profiles to apply to it.
    pub task_profiles: Vec<String>,
    /// If present, overrides the amount of memory.
    pub memory_mib: Option<i32>,
    /// Whether staged packages are preferred to activated ones.
    pub prefer_staged: bool,
}

/// What the parameters are.
pub struct ParametersView {
    pub name: Seq<char>,
    pub debug_mode: bool,
    pub cpu_topology: VmCpuTopology,
    pub task_profiles: Seq<Seq<char>>,
    pub memory_mib: Option<i32>,
    pub prefer_staged: bool,
}

impl View for VmParameters {
    type V = ParametersView;

    open spec fn view(&self) -> ParametersView {
        ParametersView {
            name: self.name@,
            debug_mode: self.debug_mode,
            cpu_topology: self.cpu_topology,
            task_profiles: self.task_profiles@.map_values(|s: String| s@),
            memory_mib: self.memory_mib,
            prefer_staged: self.prefer_staged,
        }
    }
}

impl Default for VmParameters {
    fn default() -> (r: Self)
        ensures
            r@ == (ParametersView {
                name: Seq::empty(),
                debug_mode: false,
                cpu_topology: VmCpuTopology::OneCpu,
                task_profiles: Seq::empty(),
                memory_mib: None,
                prefer_staged: false,
            }),
    {
        let r = VmParameters {
            name: String::new(),
            debug_mode: false,
            cpu_topology: VmCpuTopology::OneCpu,
            task_profiles: Vec::new(),
            memory_mib: None,
            prefer_staged: false,
        };
        assert(r@.task_profiles =~= Seq::empty());
        r
    }
}

/// The parameters of the test virtual machine.
pub fn start_parameters() -> (r: VmParameters)
    ensures
        r@ == (ParametersView {
            name: "Test_Payload_VM"@,
            debug_mode: true,
            cpu_topology: VmCpuTopology::MatchHost,
            task_profiles: seq!["SCHED_SP_COMPUTE"@],
            memory_mib: Some(256),
            prefer_staged: false,
        }),
{
    let mut task_profiles: Vec<String> = Vec::new();
    task_profiles.push("SCHED_SP_COMPUTE".to_owned());
    let r = VmParameters {
        name: "Test_Payload_VM".to_owned(),
        debug_mode: true,
        cpu_topology: VmCpuTopology::MatchHost,
        task_profiles,
        memory_mib: Some(256),
        prefer_staged: false,
    };
    assert(r@.task_profiles =~= seq!["SCHED_SP_COMPUTE"@]);
    r
}

/// How much a virtual machine may be debugged.
#[derive(Debug, PartialEq, Eq, Structural, Clone, Copy)]
pub enum DebugLevel {
    Full,
    Off,
}

/// The configuration of a virtual machine, apart from its files.
#[derive(Debug)]
pub struct AppConfig {
    pub name: String,
    pub payload_binary_name: String,
    pub debug_level: DebugLevel,
    pub protected_vm: bool,
    /// Zero stands for the default amount.
    pub memory_mib: i32,
}

/// How much a virtual machine with the given parameters may be debugged.
pub open spec fn debug_level_of(p: ParametersView) -> DebugLevel {
    if p.debug_mode {
        DebugLevel::Full
    } else {
        DebugLevel::Off
    }
}

/// What a configuration is.
pub struct ConfigView {
    pub name: Seq<char>,
    pub payload_binary_name: Seq<char>,
    pub debug_level: DebugLevel,
    pub protected_vm: bool,
    pub memory_mib: i32,
}

impl View for AppConfig {
    type V = ConfigView;

    open spec fn view(&self) -> ConfigView {
        ConfigView {
            name: self.name@,
            payload_binary_name: self.payload_binary_name@,
            debug_level: self.debug_level,
            protected_vm: self.protected_vm,
            memory_mib: self.memory_mib,
        }
    }
}

/// The configuration of a virtual machine with the given parameters.
pub open spec fn configured(
    p: ParametersView,
    protected_vm: bool,
    config_path: Seq<char>,
) -> ConfigView {
    ConfigView {
        name: p.name,
        payload_binary_name: config_path,
        debug_level: debug_level_of(p),
        protected_vm,
        memory_mib: match p.memory_mib {
            Some(m) => m,
            None => 0,
        },
    }
}

/// The configuration of a virtual machine with the given parameters.
pub fn app_config(p: &VmParameters, protected_vm: bool, config_path: &str) -> (r: AppConfig)
    ensures
        r.name@ == p@.name,
        r.payload_binary_name@ == config_path@,
        r.debug_level == debug_level_of(p@),
        r.protected_vm == protected_vm,
        r.memory_mib == match p@.memory_mib {
            Some(m) => m,
            None => 0,
        },
        r@ == configured(p@, protected_vm, config_path@),
{
    AppConfig {
        name: p.name.clone(),
        payload_binary_name: config_path.to_owned(),
        debug_level: if p.debug_mode {
            DebugLevel::Full
        } else {
            DebugLevel::Off
        },
        protected_vm,
        memory_mib: match p.memory_mib {
            Some(m) => m,
            None => 0,
        },
    }
}

/// Why a virtual machine did not become ready.
#[derive(Debug, PartialEq, Eq, Clone)]
pub enum NotReady {
    /// The payload has finished.
    Finished,
    /// Any other reason; what was said of it.
    Other(String),
}

/// What the reason is.
pub enum NotReadyView {
    Finished,
    Other(Seq<char>),
}

impl View for NotReady {
    type V = NotReadyView;

    open spec fn view(&self) -> NotReadyView {
        match *self {
            NotReady::Finished => NotReadyView::Finished,
            NotReady::Other(words) => NotReadyView::Other(words@),
        }
    }
}

/// A call that is made on the way to a virtual machine that runs.
#[derive(Debug, PartialEq, Eq, Structural, Clone, Copy)]
pub enum StartCall {
    /// Locate the package.
    LocateApk,
    /// Open the package.
    OpenApk,
    /// Create the signature file.
    CreateIdsig,
    /// Have the signature file written for the package.
    UpdateIdsig,
    /// Open the signature file for reading.
    OpenIdsig,
    /// Create the virtual machine.
    CreateVm,
    /// Start the virtual machine.
    StartVm,
}

/// Why a virtual machine could not be started.
#[derive(Debug)]
pub enum StartError {
    /// A call failed; what it said.
    Call(StartCall, String),
    /// The virtual machine died while it started up; the description of the reason.
    Died(String),
    /// The virtual machine did not become ready.
    NotReady(NotReady),
}

/// What is to be done next to have a virtual machine that runs.
#[derive(Debug)]
pub enum StartStep {
    /// Make the call.
    Call(StartCall),
    /// See whether the signature file exists.
    CheckIdsig,
    /// Wait until the virtual machine is ready.
    AwaitReady,
    /// See whether the virtual machine dies within the time that it may take to exit.
    AwaitDeath,
    /// Nothing; the result.
    Done(Result<(), StartError>),
}

/// What a step is.
pub enum StartView {
    Call(StartCall),
    CheckIdsig,
    AwaitReady,
    AwaitDeath,
    Started,
    CallFailed(StartCall, Seq<char>),
    Died(Seq<char>),
    NotReady(NotReadyView),
}

impl View for StartStep {
    type V = StartView;

    open spec fn view(&self) -> StartView {
        match *self {
            StartStep::Call(call) => StartView::Call(call),
            StartStep::CheckIdsig => StartView::CheckIdsig,
            StartStep::AwaitReady => StartView::AwaitReady,
            StartStep::AwaitDeath => StartView::AwaitDeath,
            StartStep::Done(Ok(_)) => StartView::Started,
            StartStep::Done(Err(StartError::Call(call, words))) => StartView::CallFailed(
                call,
                words@,
            ),
            StartStep::Done(Err(StartError::Died(reason))) => StartView::Died(reason@),
            StartStep::Done(Err(StartError::NotReady(why))) => StartView::NotReady(why@),
        }
    }
}

/// How long a step waits, in seconds, if it waits.
pub open spec fn seconds_of(step: StartView, t: Timeouts) -> Option<u64> {
    match step {
        StartView::AwaitReady => Some(t.vm_max_time_to_ready),
        StartView::AwaitDeath => Some(t.vm_max_time_to_exit),
        _ => None,
    }
}

impl StartStep {
    /// How long the step waits, in seconds, if it waits: for the virtual machine to become
    /// ready, or for it to exit.
    pub fn seconds(&self, t: &Timeouts) -> (r: Option<u64>)
        ensures
            r == seconds_of(self@, *t),
    {
        match self {
            StartStep::AwaitReady => Some(t.vm_max_time_to_ready),
            StartStep::AwaitDeath => Some(t.vm_max_time_to_exit),
            _ => None,
        }
    }
}

/// The step after a call that has succeeded.
pub open spec fn succeeded(call: StartCall) -> StartView {
    match call {
        StartCall::LocateApk => StartView::Call(StartCall::OpenApk),
        StartCall::OpenApk => StartView::CheckIdsig,
        StartCall::CreateIdsig => StartView::Call(StartCall::UpdateIdsig),
        StartCall::UpdateIdsig => StartView::Call(StartCall::OpenIdsig),
        StartCall::OpenIdsig => StartView::Call(StartCall::CreateVm),
        StartCall::CreateVm => StartView::Call(StartCall::StartVm),
        StartCall::StartVm => StartView::AwaitReady,
    }
}

/// The step after a call.
pub open spec fn called(call: StartCall, result: Result<(), Seq<char>>) -> StartView {
    match result {
        Ok(_) => succeeded(call),
        Err(words) => StartView::CallFailed(call, words),
    }
}

/// The step after it is known whether the signature file exists; it is made only if not.
pub open spec fn idsig_checked(exists: bool) -> StartView {
    if exists {
        StartView::Call(StartCall::OpenIdsig)
    } else {
        StartView::Call(StartCall::CreateIdsig)
    }
}

/// The step once the virtual machine is ready or will not be. One that is debugged and whose
/// payload has finished is given the time to shut down, for the sake of its logs.
pub open spec fn waited(ready: Result<(), NotReadyView>, debug_level: DebugLevel) -> StartView {
    match ready {
        Ok(_) => StartView::Started,
        Err(why) => if why is Finished && debug_level != DebugLevel::Off {
            StartView::AwaitDeath
        } else {
            StartView::NotReady(why)
        },
    }
}

/// The end of a virtual machine whose payload has finished, given why it died if it did.
pub open spec fn exited(death_reason: Option<Seq<char>>) -> StartView {
    match death_reason {
        Some(reason) => StartView::Died(reason),
        None => StartView::NotReady(NotReadyView::Finished),
    }
}

/// Begins once it is known whether the virtual machine is to be protected.
pub fn start() -> (r: StartStep)
    ensures
        r@ == StartView::Call(StartCall::LocateApk),
{
    StartStep::Call(StartCall::LocateApk)
}

/// What a call came to.
pub open spec fn result_view(result: Result<(), String>) -> Result<(), Seq<char>> {
    match result {
        Ok(_) => Ok(()),
        Err(words) => Err(words@),
    }
}

/// Goes on after a call.
pub fn start_after_call(call: StartCall, result: Result<(), String>) -> (r: StartStep)
    ensures
        r@ == called(call, result_view(result)),
{
    match result {
        Err(words) => StartStep::Done(Err(StartError::Call(call, words))),
        Ok(_) => match call {
            StartCall::LocateApk => StartStep::Call(StartCall::OpenApk),
            StartCall::OpenApk => StartStep::CheckIdsig,
            StartCall::CreateIdsig => StartStep::Call(StartCall::UpdateIdsig),
            StartCall::UpdateIdsig => StartStep::Call(StartCall::OpenIdsig),
            StartCall::OpenIdsig => StartStep::Call(StartCall::CreateVm),
            StartCall::CreateVm => StartStep::Call(StartCall::StartVm),
            StartCall::StartVm => StartStep::AwaitReady,
        },
    }
}

/// Goes on after it is known whether the signature file exists.
pub fn start_after_idsig_check(exists: bool) -> (r: StartStep)
    ensures
        r@ == idsig_checked(exists),
{
    if exists {
        StartStep::Call(StartCall::OpenIdsig)
    } else {
        StartStep::Call(StartCall::CreateIdsig)
    }
}

/// Whether the virtual machine became ready, or why not.
pub open spec fn ready_view(ready: Result<(), NotReady>) -> Result<(), NotReadyView> {
    match ready {
        Ok(_) => Ok(()),
        Err(why) => Err(why@),
    }
}

/// Goes on once the virtual machine is ready or will not be.
pub fn start_after_ready(ready: Result<(), NotReady>, debug_level: DebugLevel) -> (r: StartStep)
    ensures
        r@ == waited(ready_view(ready), debug_level),
{
    match ready {
        Ok(_) => StartStep::Done(Ok(())),
        Err(NotReady::Finished) => {
            if debug_level != DebugLevel::Off {
                StartStep::AwaitDeath
            } else {
                StartStep::Done(Err(StartError::NotReady(NotReady::Finished)))
            }
        },
        Err(why) => StartStep::Done(Err(StartError::NotReady(why))),
    }
}

/// Ends with the description of why the virtual machine died, or `None` if it did not.
pub fn start_after_death(death_reason: Option<String>) -> (r: StartStep)
    ensures
        r@ == exited(status::opt_text(death_reason)),
{
    match death_reason {
        Some(reason) => StartStep::Done(Err(StartError::Died(reason))),
        None => StartStep::Done(Err(StartError::NotReady(NotReady::Finished))),
    }
}

/// What is said of a call that failed, before its own words, if anything.
pub open spec fn context_of(call: StartCall) -> Option<Seq<char>> {
    match call {
        StartCall::LocateApk => None,
        StartCall::OpenApk => Some("Failed to open config APK file"@),
        StartCall::CreateIdsig => Some("Failed to create idsig file"@),
        StartCall::UpdateIdsig => Some("Failed to update idsig file"@),
        StartCall::OpenIdsig => Some("Failed to open idsig file"@),
        StartCall::CreateVm => Some("Failed to create VM"@),
        StartCall::StartVm => Some("Failed to start VM"@),
    }
}

impl StartCall {
    /// What is said of the call if it failed, before its own words, if anything.
    pub fn context(self) -> (r: Option<&'static str>)
        ensures
            r is Some <==> context_of(self) is Some,
            r matches Some(words) ==> Some(words@) == context_of(self),
    {
        match self {
            StartCall::LocateApk => None,
            StartCall::OpenApk => Some("Failed to open config APK file"),
            StartCall::CreateIdsig => Some("Failed to create idsig file"),
            StartCall::UpdateIdsig => Some("Failed to update idsig file"),
            StartCall::OpenIdsig => Some("Failed to open idsig file"),
            StartCall::CreateVm => Some("Failed to create VM"),
            StartCall::StartVm => Some("Failed to start VM"),
        }
    }
}

/// All that the outside can answer on the way to a virtual machine that runs.
pub struct StartAnswers {
    pub calls: spec_fn(StartCall) -> Result<(), Seq<char>>,
    pub idsig_exists: bool,
    pub ready: Result<(), NotReadyView>,
    pub death_reason: Option<Seq<char>>,
}

/// The step after a step, given the answers.
pub open spec fn next_step(step: StartView, a: StartAnswers, debug_level: DebugLevel) -> StartView {
    match step {
        StartView::Call(call) => called(call, (a.calls)(call)),
        StartView::CheckIdsig => idsig_checked(a.idsig_exists),
        StartView::AwaitReady => waited(a.ready, debug_level),
        StartView::AwaitDeath => exited(a.death_reason),
        end => end,
    }
}

/// The step after a number of steps from the beginning.
pub open spec fn step_after(n: nat, a: StartAnswers, debug_level: DebugLevel) -> StartView
    decreases n,
{
    if n == 0 {
        StartView::Call(StartCall::LocateApk)
    } else {
        next_step(step_after((n - 1) as nat, a, debug_level), a, debug_level)
    }
}

/// Whether nothing remains to be done.
pub open spec fn is_end(step: StartView) -> bool {
    step is Started || step is CallFailed || step is Died || step is NotReady
}

/// Whether a call succeeds.
pub open spec fn call_succeeds(a: StartAnswers, call: StartCall) -> bool {
    (a.calls)(call) is Ok
}

/// Ten steps are enough.
pub proof fn start_ends(a: StartAnswers, debug_level: DebugLevel)
    ensures
        is_end(step_after(10, a, debug_level)),
{
    reveal_with_fuel(step_after, 11);
}

/// The virtual machine runs exactly if every call that is needed succeeds and it becomes
/// ready; the calls that make the signature file are needed only if there is none.
pub proof fn started_if_all_succeed(a: StartAnswers, debug_level: DebugLevel)
    ensures
        step_after(10, a, debug_level) is Started <==> {
            &&& call_succeeds(a, StartCall::LocateApk)
            &&& call_succeeds(a, StartCall::OpenApk)
            &&& a.idsig_exists || (call_succeeds(a, StartCall::CreateIdsig) && call_succeeds(
                a,
                StartCall::UpdateIdsig,
            ))
            &&& call_succeeds(a, StartCall::OpenIdsig)
            &&& call_succeeds(a, StartCall::CreateVm)
            &&& call_succeeds(a, StartCall::StartVm)
            &&& a.ready is Ok
        },
{
    reveal_with_fuel(step_after, 11);
}

/// A signature file that exists is not made anew.
pub proof fn existing_idsig_is_kept(n: nat, a: StartAnswers, debug_level: DebugLevel)
    requires
        a.idsig_exists,
    ensures
        step_after(n, a, debug_level) != StartView::Call(StartCall::CreateIdsig),
        step_after(n, a, debug_level) != StartView::Call(StartCall::UpdateIdsig),
    decreases n,
{
    if n > 0 {
        existing_idsig_is_kept((n - 1) as nat, a, debug_level);
    }
}

/// A virtual machine that is not debugged is not waited for once it will not be ready.
pub proof fn not_debugged_is_not_awaited(ready: Result<(), NotReadyView>)
    ensures
        is_end(waited(ready, DebugLevel::Off)),
{
}

/// The words with which a death during startup is reported.
pub open spec fn death_words(reason: Seq<char>) -> Seq<char> {
    "VM died during startup - reason "@ + reason
}

/// The words with which a death during startup is reported.
pub fn death_text(reason: &str) -> (r: String)
    ensures
        r@ == "VM died during startup - reason "@ + reason@,
        r@ == death_words(reason@),
{
    "VM died during startup - reason ".to_owned().concat(reason)
}

/// The pattern of the packages of the given name, in any directory under `app`.
pub open spec fn apk_pattern_of(apk_dir: Seq<char>, apk: Seq<char>) -> Seq<char> {
    text::joined(text::joined(text::joined(apk_dir, "app"@), "**"@), apk + "*.apk"@)
}

/// The pattern by which a package is looked for.
pub fn apk_pattern(apk_dir: &str, apk: &str) -> (r: String)
    ensures
        r@ == apk_pattern_of(apk_dir@, apk@),
{
    let apk_name = apk.to_owned().concat("*.apk");
    let app = text::join(apk_dir, "app");
    let any = text::join(app.as_str(), "**");
    text::join(any.as_str(), apk_name.as_str())
}

/// The entries that could be read, in their order.
pub open spec fn readable<P, E>(entries: Seq<Result<P, E>>) -> Seq<P>
    decreases entries.len(),
{
    if entries.len() == 0 {
        Seq::empty()
    } else {
        let init = readable(entries.drop_last());
        match entries.last() {
            Ok(path) => init.push(path),
            Err(_) => init,
        }
    }
}

/// The only one of the paths, or what is said where there is none or more than one.
pub open spec fn located<P>(paths: Seq<P>, pattern: Seq<char>) -> Result<P, Seq<char>> {
    if paths.len() == 1 {
        Ok(paths[0])
    } else if paths.len() == 0 {
        Err("No apks match "@ + pattern)
    } else {
        Err("Found more than one apk matching "@ + pattern)
    }
}

/// The package among the entries that match the pattern; entries that could not be read are
/// passed over, and it has to be the only one.
pub fn locate_config_apk<P, E>(entries: Vec<Result<P, E>>, pattern: &str) -> (r: Result<P, String>)
    ensures
        readable(entries@).len() == 1 ==> r == Ok::<P, String>(readable(entries@)[0]),
        readable(entries@).len() > 1 ==> (r matches Err(words) && words@
            == "Found more than one apk matching "@ + pattern@),
        readable(entries@).len() == 0 ==> (r matches Err(words) && words@ == "No apks match "@
            + pattern@),
        (match r {
            Ok(path) => Ok(path),
            Err(words) => Err(words@),
        }) == located(readable(entries@), pattern@),
{
    let ghost all = entries@;
    let mut found: Vec<P> = Vec::new();
    for entry in it: entries
        invariant
            it.seq() == all,
            found@ == readable(all.take(it.index())),
    {
        proof {
            let i = it.index();
            assert(all.take(i + 1).drop_last() =~= all.take(i));
            assert(all.take(i + 1).last() == entry);
        }
        match entry {
            Ok(path) => found.push(path),
            Err(_) => {},
        }
    }
    assert(all.take(all.len() as int) =~= all);
    if found.len() > 1 {
        return Err("Found more than one apk matching ".to_owned().concat(pattern));
    }
    match found.pop() {
        Some(path) => Ok(path),
        None => Err("No apks match ".to_owned().concat(pattern)),
    }
}

/// An entry that could not be read makes no difference.
pub proof fn unreadable_is_passed_over<P, E>(
    before: Seq<Result<P, E>>,
    e: E,
    after: Seq<Result<P, E>>,
)
    ensures
        readable(before + seq![Err(e)] + after) == readable(before + after),
    decreases after.len(),
{
    let with = before + seq![Err::<P, E>(e)] + after;
    if after.len() == 0 {
        assert(with.drop_last() =~= before);
        assert(before + after =~= before);
    } else {
        unreadable_is_passed_over(before, e, after.drop_last());
        assert(with.drop_last() =~= before + seq![Err::<P, E>(e)] + after.drop_last());
        assert((before + after).drop_last() =~= before + after.drop_last());
    }
}

/// What is to be done next to find out whether to run a protected virtual machine.
#[derive(Debug)]
pub enum ProtectionStep {
    /// Read the property that tells whether protected virtual machines are supported.
    ReadProtected,
    /// Read the property that tells whether this is a debuggable build.
    ReadDebuggable,
    /// Read the property that tells whether other virtual machines are supported.
    ReadNonProtected,
    /// Nothing; whether to run a protected virtual machine, or why to run none.
    Done(Result<bool, String>),
}

/// What a step is.
pub enum ProtectionView {
    ReadProtected,
    ReadDebuggable,
    ReadNonProtected,
    Decided(bool),
    Refused(Seq<char>),
}

impl View for ProtectionStep {
    type V = ProtectionView;

    open spec fn view(&self) -> ProtectionView {
        match *self {
            ProtectionStep::ReadProtected => ProtectionView::ReadProtected,
            ProtectionStep::ReadDebuggable => ProtectionView::ReadDebuggable,
            ProtectionStep::ReadNonProtected => ProtectionView::ReadNonProtected,
            ProtectionStep::Done(Ok(protected)) => ProtectionView::Decided(protected),
            ProtectionStep::Done(Err(words)) => ProtectionView::Refused(words@),
        }
    }
}

/// The property that tells whether protected virtual machines are supported.
pub const PROTECTED_PROP: &'static str = "ro.boot.hypervisor.protected_vm.supported";

/// The property that tells whether this is a debuggable build.
pub const DEBUGGABLE_PROP: &'static str = "ro.debuggable";

/// The property that tells whether virtual machines that are not protected are supported.
pub const NON_PROTECTED_PROP: &'static str = "ro.boot.hypervisor.vm.supported";

/// The step after it is known whether protected virtual machines are supported.
pub open spec fn protected_read(supported: Result<bool, Seq<char>>) -> ProtectionView {
    match supported {
        Ok(true) => ProtectionView::Decided(true),
        Ok(false) => ProtectionView::ReadDebuggable,
        Err(words) => ProtectionView::Refused(words),
    }
}

/// The step after the value of the property is known that tells of a debuggable build.
pub open spec fn debuggable_read(value: Result<Option<Seq<char>>, Seq<char>>) -> ProtectionView {
    match value {
        Ok(v) => if v == Some("1"@) {
            ProtectionView::ReadNonProtected
        } else {
            ProtectionView::Refused("Protected VM not supported, unable to start VM"@)
        },
        Err(words) => ProtectionView::Refused(words),
    }
}

/// The end after it is known whether virtual machines that are not protected are supported.
pub open spec fn non_protected_read(supported: Result<bool, Seq<char>>) -> ProtectionView {
    match supported {
        Ok(true) => ProtectionView::Decided(false),
        Ok(false) => ProtectionView::Refused("No VM support available"@),
        Err(words) => ProtectionView::Refused(words),
    }
}

/// What reading a property that is either true or false came to.
pub open spec fn flag_view(read: Result<bool, String>) -> Result<bool, Seq<char>> {
    match read {
        Ok(flag) => Ok(flag),
        Err(words) => Err(words@),
    }
}

/// Begins to find out whether to run a protected virtual machine.
pub fn want_protected_vm() -> (r: ProtectionStep)
    ensures
        r@ == ProtectionView::ReadProtected,
{
    ProtectionStep::ReadProtected
}

/// Goes on after it is known whether protected virtual machines are supported; a property
/// without a value tells that they are not.
pub fn after_protected(supported: Result<bool, String>) -> (r: ProtectionStep)
    ensures
        r@ == protected_read(flag_view(supported)),
{
    match supported {
        Ok(true) => ProtectionStep::Done(Ok(true)),
        Ok(false) => ProtectionStep::ReadDebuggable,
        Err(words) => ProtectionStep::Done(Err(words)),
    }
}

/// Goes on after the value of the property is known that tells of a debuggable build.
pub fn after_debuggable(value: Result<Option<String>, String>) -> (r: ProtectionStep)
    ensures
        r@ == debuggable_read(timeouts::read_view(value)),
{
    match value {
        Ok(v) => {
            if let Some(v) = v {
                if text::str_eq(v.as_str(), "1") {
                    return ProtectionStep::ReadNonProtected;
                }
            }
            ProtectionStep::Done(Err("Protected VM not supported, unable to start VM".to_owned()))
        },
        Err(words) => ProtectionStep::Done(Err(words)),
    }
}

/// Ends after it is known whether virtual machines that are not protected are supported; a
/// property without a value tells that they are not.
pub fn after_non_protected(supported: Result<bool, String>) -> (r: ProtectionStep)
    ensures
        r@ == non_protected_read(flag_view(supported)),
{
    match supported {
        Ok(true) => ProtectionStep::Done(Ok(false)),
        Ok(false) => ProtectionStep::Done(Err("No VM support available".to_owned())),
        Err(words) => ProtectionStep::Done(Err(words)),
    }
}

/// What the steps come to, given what reading each property comes to.
pub open spec fn protection(
    protected: Result<bool, Seq<char>>,
    debuggable: Result<Option<Seq<char>>, Seq<char>>,
    non_protected: Result<bool, Seq<char>>,
) -> ProtectionView {
    match protected_read(protected) {
        ProtectionView::ReadDebuggable => match debuggable_read(debuggable) {
            ProtectionView::ReadNonProtected => non_protected_read(non_protected),
            step => step,
        },
        step => step,
    }
}

/// A protected virtual machine is run exactly where it is supported.
pub proof fn protected_where_supported(
    protected: Result<bool, Seq<char>>,
    debuggable: Result<Option<Seq<char>>, Seq<char>>,
    non_protected: Result<bool, Seq<char>>,
)
    ensures
        protection(protected, debuggable, non_protected) == ProtectionView::Decided(true)
            <==> protected == Ok::<bool, Seq<char>>(true),
{
}

/// A virtual machine that is not protected is run exactly on a debuggable build that supports
/// it and supports no protected one.
pub proof fn unprotected_on_debuggable(
    protected: Result<bool, Seq<char>>,
    debuggable: Result<Option<Seq<char>>, Seq<char>>,
    non_protected: Result<bool, Seq<char>>,
)
    ensures
        protection(protected, debuggable, non_protected) == ProtectionView::Decided(false) <==> {
            &&& protected == Ok::<bool, Seq<char>>(false)
            &&& debuggable == Ok::<Option<Seq<char>>, Seq<char>>(Some("1"@))
            &&& non_protected == Ok::<bool, Seq<char>>(true)
        },
{
}

/// A configuration takes over the name, the payload and the protection as they are; it is
/// debugged exactly if the parameters say so, and has the memory that they say or, where they
/// say nothing, the default.
pub proof fn configuration_takes_over_the_parameters(
    p: ParametersView,
    protected_vm: bool,
    config_path: Seq<char>,
)
    ensures
        ({
            let c = configured(p, protected_vm, config_path);
            &&& c.name == p.name
            &&& c.payload_binary_name == config_path
            &&& c.protected_vm == protected_vm
            &&& c.debug_level == DebugLevel::Full <==> p.debug_mode
            &&& p.memory_mib matches Some(m) ==> c.memory_mib == m
            &&& p.memory_mib is None ==> c.memory_mib == 0
        }),
{
}

/// A call that fails ends the start with what it said, whichever call it is.
pub proof fn failed_call_is_reported(call: StartCall, words: Seq<char>)
    ensures
        called(call, Err(words)) == StartView::CallFailed(call, words),
        !is_end(called(call, Ok(()))),
{
}

/// The start ends with a failed call exactly if a call that is needed fails, and it is one
/// that failed with those words.
pub proof fn end_names_a_failed_call(a: StartAnswers, debug_level: DebugLevel)
    ensures
        step_after(10, a, debug_level) matches StartView::CallFailed(call, words) ==> (a.calls)(
            call,
        ) == Err::<(), Seq<char>>(words),
        step_after(10, a, debug_level) is CallFailed <==> {
            ||| !call_succeeds(a, StartCall::LocateApk)
            ||| !call_succeeds(a, StartCall::OpenApk)
            ||| !a.idsig_exists && !(call_succeeds(a, StartCall::CreateIdsig) && call_succeeds(
                a,
                StartCall::UpdateIdsig,
            ))
            ||| !call_succeeds(a, StartCall::OpenIdsig)
            ||| !call_succeeds(a, StartCall::CreateVm)
            ||| !call_succeeds(a, StartCall::StartVm)
        },
{
    reveal_with_fuel(step_after, 11);
}

/// The virtual machine is started only after it was created, and created only once the
/// package and the signature file are open.
pub proof fn files_are_open_before_the_machine(n: nat, a: StartAnswers, debug_level: DebugLevel)
    ensures
        step_after(n, a, debug_level) == StartView::Call(StartCall::OpenApk) ==> call_succeeds(
            a,
            StartCall::LocateApk,
        ),
        step_after(n, a, debug_level) is CheckIdsig || step_after(n, a, debug_level)
            == StartView::Call(StartCall::CreateIdsig) || step_after(n, a, debug_level)
            == StartView::Call(StartCall::UpdateIdsig) || step_after(n, a, debug_level)
            == StartView::Call(StartCall::OpenIdsig) ==> call_succeeds(a, StartCall::OpenApk),
        step_after(n, a, debug_level) == StartView::Call(StartCall::UpdateIdsig) ==> call_succeeds(
            a,
            StartCall::CreateIdsig,
        ),
        step_after(n, a, debug_level) == StartView::Call(StartCall::OpenIdsig) ==> a.idsig_exists
            || call_succeeds(a, StartCall::UpdateIdsig),
        step_after(n, a, debug_level) == StartView::Call(StartCall::CreateVm) ==> call_succeeds(
            a,
            StartCall::OpenIdsig,
        ) && call_succeeds(a, StartCall::OpenApk),
        step_after(n, a, debug_level) == StartView::Call(StartCall::StartVm) ==> call_succeeds(
            a,
            StartCall::CreateVm,
        ),
        step_after(n, a, debug_level) is AwaitReady ==> call_succeeds(a, StartCall::StartVm),
    decreases n,
{
    if n > 0 {
        files_are_open_before_the_machine((n - 1) as nat, a, debug_level);
    }
}

/// A virtual machine that is ready has started; one that is not is given up with its reason,
/// unless its payload has finished and it is debugged: then its death is awaited.
pub proof fn death_is_awaited_only_of_the_finished(words: Seq<char>, debug_level: DebugLevel)
    ensures
        waited(Ok(()), debug_level) is Started,
        waited(Err(NotReadyView::Other(words)), debug_level) == StartView::NotReady(
            NotReadyView::Other(words),
        ),
        waited(Err(NotReadyView::Finished), debug_level) is AwaitDeath <==> debug_level
            == DebugLevel::Full,
        debug_level == DebugLevel::Off ==> waited(Err(NotReadyView::Finished), debug_level)
            == StartView::NotReady(NotReadyView::Finished),
{
}

/// A virtual machine that is debugged and whose payload has finished has died for the reason
/// that was seen, or is not ready if none was.
pub proof fn death_is_reported_with_its_reason(a: StartAnswers)
    requires
        forall|call: StartCall| call_succeeds(a, call),
        a.ready == Err::<(), NotReadyView>(NotReadyView::Finished),
    ensures
        a.death_reason matches Some(reason) ==> step_after(10, a, DebugLevel::Full)
            == StartView::Died(reason),
        a.death_reason is None ==> step_after(10, a, DebugLevel::Full) == StartView::NotReady(
            NotReadyView::Finished,
        ),
{
    reveal_with_fuel(step_after, 11);
    assert(call_succeeds(a, StartCall::LocateApk));
    assert(call_succeeds(a, StartCall::OpenApk));
    assert(call_succeeds(a, StartCall::CreateIdsig));
    assert(call_succeeds(a, StartCall::UpdateIdsig));
    assert(call_succeeds(a, StartCall::OpenIdsig));
    assert(call_succeeds(a, StartCall::CreateVm));
    assert(call_succeeds(a, StartCall::StartVm));
}

/// A step waits exactly if it awaits something: for the virtual machine to be ready the one
/// time, for its death the other.
pub proof fn each_wait_has_its_own_time(step: StartView, t: Timeouts)
    ensures
        seconds_of(step, t) is Some <==> step is AwaitReady || step is AwaitDeath,
        seconds_of(StartView::AwaitReady, t) == Some(t.vm_max_time_to_ready),
        seconds_of(StartView::AwaitDeath, t) == Some(t.vm_max_time_to_exit),
{
}

/// The words of a death give its reason at their end.
pub proof fn death_words_end_with_the_reason(a: Seq<char>, b: Seq<char>)
    ensures
        text::has_prefix(death_words(a), "VM died during startup - reason "@),
        text::has_suffix(death_words(a), a),
        death_words(a).len() == "VM died during startup - reason "@.len() + a.len(),
        a != b ==> death_words(a) != death_words(b),
{
    let n = "VM died during startup - reason "@.len() as int;
    assert(death_words(a).take(n) =~= "VM died during startup - reason "@);
    assert(death_words(a).skip(n) =~= a);
    assert(death_words(b).skip(n) =~= b);
}

/// A package is looked for in any directory under `app` in the given directory, by the start
/// of its name; whether the directory is written with a separator at its end does not matter.
pub proof fn pattern_of_a_package(apk_dir: Seq<char>, apk: Seq<char>)
    requires
        apk.len() == 0 || apk[0] != '/',
    ensures
        apk_dir.len() > 0 && apk_dir.last() != '/' ==> apk_pattern_of(apk_dir, apk) == apk_dir
            + "/app/**/"@ + apk + "*.apk"@,
        apk_pattern_of(apk_dir.push('/'), apk) == apk_dir + "/app/**/"@ + apk + "*.apk"@,
{
    reveal_strlit("app");
    reveal_strlit("**");
    reveal_strlit("*.apk");
    reveal_strlit("/app/**/");
    let name = apk + "*.apk"@;
    assert(name[0] != '/');
    let whole = apk_dir + "/app/**/"@ + apk + "*.apk"@;
    let slashed = apk_dir.push('/');
    assert(text::joined(slashed, "app"@) == slashed + "app"@);
    assert(text::joined(slashed + "app"@, "**"@) == (slashed + "app"@).push('/') + "**"@);
    assert(apk_pattern_of(slashed, apk) =~= whole);
    if apk_dir.len() > 0 && apk_dir.last() != '/' {
        assert(text::joined(apk_dir, "app"@) == slashed + "app"@);
        assert(apk_pattern_of(apk_dir, apk) =~= whole);
    }
}

/// A package of an absolute name is looked for there, whatever the directory.
pub proof fn absolute_package_is_looked_for_there(apk_dir: Seq<char>, apk: Seq<char>)
    requires
        apk.len() > 0,
        apk[0] == '/',
    ensures
        apk_pattern_of(apk_dir, apk) == apk + "*.apk"@,
{
    assert((apk + "*.apk"@)[0] == '/');
}

/// The entries that could be read are kept, in their order.
pub proof fn readable_entries_are_kept<P, E>(
    a: Seq<Result<P, E>>,
    path: P,
    b: Seq<Result<P, E>>,
)
    ensures
        readable(a + b) == readable(a) + readable(b),
        readable(a.push(Ok(path))) == readable(a).push(path),
        readable(Seq::<Result<P, E>>::empty()).len() == 0,
    decreases b.len(),
{
    assert(a.push(Ok(path)).drop_last() =~= a);
    if b.len() == 0 {
        assert(a + b =~= a);
        assert(readable(a) + readable(b) =~= readable(a));
    } else {
        readable_entries_are_kept(a, path, b.drop_last());
        assert((a + b).drop_last() =~= a + b.drop_last());
        assert(readable(a + b) =~= readable(a) + readable(b));
    }
}

/// A package is found exactly if it is the only one, and it is that one; otherwise the words
/// tell whether there was none, and for which pattern.
pub proof fn found_exactly_if_the_only_one<P>(paths: Seq<P>, path: P, pattern: Seq<char>)
    ensures
        located(paths, pattern) == Ok::<P, Seq<char>>(path) <==> paths == seq![path],
        located(paths, pattern) == Err::<P, Seq<char>>("No apks match "@ + pattern) <==> paths.len()
            == 0,
        located(paths, pattern) == Err::<P, Seq<char>>(
            "Found more than one apk matching "@ + pattern,
        ) <==> paths.len() > 1,
{
    reveal_strlit("No apks match ");
    reveal_strlit("Found more than one apk matching ");
    assert(("No apks match "@ + pattern).len() != ("Found more than one apk matching "@
        + pattern).len());
    if paths.len() == 1 && paths[0] == path {
        assert(paths =~= seq![path]);
    }
}

/// Where no virtual machine can be run, the words say whether the build or the support is
/// missing; a property that cannot be read decides only if it is asked for.
pub proof fn refusals_say_what_is_missing(
    debuggable: Result<Option<Seq<char>>, Seq<char>>,
    non_protected: Result<bool, Seq<char>>,
    value: Option<Seq<char>>,
    words: Seq<char>,
)
    ensures
        protection(Err(words), debuggable, non_protected) == ProtectionView::Refused(words),
        protection(Ok(false), Err(words), non_protected) == ProtectionView::Refused(words),
        value != Some("1"@) ==> protection(Ok(false), Ok(value), non_protected)
            == ProtectionView::Refused("Protected VM not supported, unable to start VM"@),
        protection(Ok(false), Ok(Some("1"@)), Err(words)) == ProtectionView::Refused(words),
        protection(Ok(false), Ok(Some("1"@)), Ok(false)) == ProtectionView::Refused(
            "No VM support available"@,
        ),
{
}

/// What the parameters and the configuration of a virtual machine are shows in their parts,
/// each in its own.
pub proof fn parameters_show_their_parts(p: VmParameters, c: AppConfig)
    ensures
        p@.name == p.name@,
        p@.debug_mode == p.debug_mode,
        p@.cpu_topology == p.cpu_topology,
        p@.memory_mib == p.memory_mib,
        p@.prefer_staged == p.prefer_staged,
        p@.task_profiles.len() == p.task_profiles@.len(),
        forall|i: int|
            0 <= i < p.task_profiles@.len() ==> #[trigger] p@.task_profiles[i]
                == p.task_profiles@[i]@,
        c@.name == c.name@,
        c@.payload_binary_name == c.payload_binary_name@,
        c@.debug_level == c.debug_level,
        c@.protected_vm == c.protected_vm,
        c@.memory_mib == c.memory_mib,
{
}

} // verus!
