//! How a virtual machine is booted: the command line of the virtual machine monitor, what
//! its process comes to, and how often booting is tried.
use crate::qvirtservice::parameters::{
    ControlState, DiskProperties, DiskView, ParametersView, VmParameters,
};
use crate::text;
use vstd::prelude::*;
use vstd::string::StringExecFns;

verus! {

/// The virtual machine monitor.
pub const VM_BINARY_FILE: &'static str = "/system_ext/bin/qcrosvm";

/// What is known of a process.
#[derive(Debug, PartialEq, Eq, Structural, Clone, Copy)]
pub enum ProcessStatus {
    /// It has exited with the given code.
    Exited(i32),
    /// A signal has ended it.
    Signaled,
    StillAlive,
    /// Something else happened to it.
    Other,
}

/// Why waiting for a process fails.
#[derive(Debug, PartialEq, Eq)]
pub enum WaitError {
    /// The process could not be killed; what was said of it.
    KillFailed(String),
    /// The process has exited with an error code.
    ExitCode,
}

/// What a failed wait is.
pub enum WaitFailure {
    KillFailed(Seq<char>),
    ExitCode,
}

impl View for WaitError {
    type V = WaitFailure;

    open spec fn view(&self) -> WaitFailure {
        match *self {
            WaitError::KillFailed(words) => WaitFailure::KillFailed(words@),
            WaitError::ExitCode => WaitFailure::ExitCode,
        }
    }
}

/// The words of a failed wait; the exit code is not among them.
pub open spec fn wait_error_text(e: WaitFailure) -> Seq<char> {
    match e {
        WaitFailure::KillFailed(words) => words,
        WaitFailure::ExitCode => "Result {s}"@,
    }
}

impl WaitError {
    /// The words of the error.
    pub fn text(self) -> (r: String)
        ensures
            r@ == wait_error_text(self@),
    {
        match self {
            WaitError::KillFailed(words) => words,
            WaitError::ExitCode => "Result {s}".to_owned(),
        }
    }
}

/// What is to be done next to wait for a process.
#[derive(Debug, PartialEq, Eq)]
pub enum WaitStep {
    /// Ask what is known of the process, to see whether it has to be killed.
    Probe,
    /// Kill the process.
    Kill,
    /// Ask what is known of the process.
    Reap,
    /// Nothing; the result.
    Done(Result<(), WaitError>),
}

/// What a step of waiting is.
pub enum WaitView {
    Probe,
    Kill,
    Reap,
    Done(Result<(), WaitFailure>),
}

/// What a wait has come to.
pub open spec fn waited_view(waited: Result<(), WaitError>) -> Result<(), WaitFailure> {
    match waited {
        Ok(_) => Ok(()),
        Err(e) => Err(e@),
    }
}

impl View for WaitStep {
    type V = WaitView;

    open spec fn view(&self) -> WaitView {
        match *self {
            WaitStep::Probe => WaitView::Probe,
            WaitStep::Kill => WaitView::Kill,
            WaitStep::Reap => WaitView::Reap,
            WaitStep::Done(r) => WaitView::Done(waited_view(r)),
        }
    }
}

/// The first step of waiting: a process that may be killed is looked at before.
pub open spec fn wait_begins(force_exit: Option<bool>) -> WaitView {
    if force_exit == Some(true) {
        WaitView::Probe
    } else {
        WaitView::Reap
    }
}

/// A process that is seen alive is killed.
pub open spec fn wait_probed(status: Option<ProcessStatus>) -> WaitView {
    if status == Some(ProcessStatus::StillAlive) {
        WaitView::Kill
    } else {
        WaitView::Reap
    }
}

/// Once the process has been killed it is looked at; if that failed, so does the wait.
pub open spec fn wait_killed(killed: Result<(), Seq<char>>) -> WaitView {
    match killed {
        Ok(_) => WaitView::Reap,
        Err(words) => WaitView::Done(Err(WaitFailure::KillFailed(words))),
    }
}

/// Only a process that has exited with a positive code is a failure.
pub open spec fn exit_result(status: Option<ProcessStatus>) -> Result<(), WaitFailure> {
    match status {
        Some(ProcessStatus::Exited(code)) => if code > 0 {
            Err(WaitFailure::ExitCode)
        } else {
            Ok(())
        },
        _ => Ok(()),
    }
}

/// Begins to wait for a process, which is killed before if `force_exit` asks for that.
pub fn wait_for_exit(force_exit: Option<bool>) -> (r: WaitStep)
    ensures
        r@ == wait_begins(force_exit),
{
    match force_exit {
        Some(true) => WaitStep::Probe,
        _ => WaitStep::Reap,
    }
}

/// Goes on after the first look at the process; `None` if there is nothing to see.
pub fn wait_after_probe(status: Option<ProcessStatus>) -> (r: WaitStep)
    ensures
        r@ == wait_probed(status),
{
    match status {
        Some(ProcessStatus::StillAlive) => WaitStep::Kill,
        _ => WaitStep::Reap,
    }
}

/// What an attempt to kill a process came to.
pub open spec fn killed_view(killed: Result<(), String>) -> Result<(), Seq<char>> {
    match killed {
        Ok(_) => Ok(()),
        Err(words) => Err(words@),
    }
}

/// Goes on after the process has been killed, or could not be, with what was said of that.
pub fn wait_after_kill(killed: Result<(), String>) -> (r: WaitStep)
    ensures
        r@ == wait_killed(killed_view(killed)),
{
    match killed {
        Ok(_) => WaitStep::Reap,
        Err(words) => WaitStep::Done(Err(WaitError::KillFailed(words))),
    }
}

/// Ends the wait with what is known of the process; `None` if nothing is.
pub fn wait_after_reap(status: Option<ProcessStatus>) -> (r: Result<(), WaitError>)
    ensures
        waited_view(r) == exit_result(status),
{
    match status {
        Some(ProcessStatus::Exited(code)) => if code > 0 {
            Err(WaitError::ExitCode)
        } else {
            Ok(())
        },
        _ => Ok(()),
    }
}

/// What the steps of a wait come to, given what the looks at the process show and whether it
/// could be killed.
pub open spec fn wait_result(
    force_exit: Option<bool>,
    probed: Option<ProcessStatus>,
    killed: Result<(), Seq<char>>,
    reaped: Option<ProcessStatus>,
) -> Result<(), WaitFailure> {
    match wait_begins(force_exit) {
        WaitView::Probe => match wait_probed(probed) {
            WaitView::Kill => match wait_killed(killed) {
                WaitView::Done(r) => r,
                _ => exit_result(reaped),
            },
            _ => exit_result(reaped),
        },
        _ => exit_result(reaped),
    }
}

/// A wait that does not force an exit kills nothing: it only tells what is known of the
/// process in the end.
pub proof fn unforced_wait_only_looks(
    force_exit: Option<bool>,
    probed: Option<ProcessStatus>,
    killed: Result<(), Seq<char>>,
    reaped: Option<ProcessStatus>,
)
    requires
        force_exit != Some(true),
    ensures
        wait_result(force_exit, probed, killed, reaped) == exit_result(reaped),
{
}

/// A wait that forces an exit fails if the process is seen alive and cannot be killed, with
/// the words of that; a process that was not seen alive need not be killed.
pub proof fn forced_wait_kills_the_living(
    probed: Option<ProcessStatus>,
    killed: Result<(), Seq<char>>,
    reaped: Option<ProcessStatus>,
)
    ensures
        wait_result(Some(true), probed, killed, reaped) == if probed == Some(
            ProcessStatus::StillAlive,
        ) && killed is Err {
            Err(WaitFailure::KillFailed(killed->Err_0))
        } else {
            exit_result(reaped)
        },
{
}

/// As long as no kill fails, a wait fails exactly if the process is seen to have exited with
/// a positive code, and says the same words whatever the code.
pub proof fn only_a_positive_code_fails(
    force_exit: Option<bool>,
    probed: Option<ProcessStatus>,
    reaped: Option<ProcessStatus>,
)
    ensures
        ({
            let r = wait_result(force_exit, probed, Ok(()), reaped);
            &&& r is Err <==> (reaped matches Some(ProcessStatus::Exited(code)) && code > 0)
            &&& r matches Err(e) ==> wait_error_text(e) == "Result {s}"@
        }),
{
}

/// Why a virtual machine cannot be launched.
#[derive(Debug, PartialEq, Eq, Structural, Clone, Copy)]
pub enum LaunchError {
    /// An argument of the command line holds a nul byte at the given place.
    NulByte(u64),
    /// The process could not be forked.
    ForkFailed,
    /// The virtual machine monitor has exited with an error code.
    ExitedUnexpectedly,
}

/// The words of a launch error.
pub open spec fn launch_error_text(e: LaunchError) -> Seq<char> {
    match e {
        LaunchError::NulByte(place) => "nul byte found in provided data at position: "@
            + text::decimal(place as nat),
        LaunchError::ForkFailed => "Fork failed"@,
        LaunchError::ExitedUnexpectedly => "qcrosvm exited unexpectedly"@,
    }
}

impl LaunchError {
    /// The words of the error.
    pub fn text(self) -> (r: String)
        ensures
            r@ == launch_error_text(self),
    {
        match self {
            LaunchError::NulByte(place) => {
                "nul byte found in provided data at position: ".to_owned().concat(
                    text::decimal_string(place).as_str(),
                )
            },
            LaunchError::ForkFailed => "Fork failed".to_owned(),
            LaunchError::ExitedUnexpectedly => "qcrosvm exited unexpectedly".to_owned(),
        }
    }
}

/// The argument that describes a disk.
pub open spec fn disk_arg(d: DiskView) -> Seq<char> {
    "--disk="@ + d.image + ",label="@ + text::decimal(d.label as nat) + ",rw="@
        + text::bool_text(d.read_write)
}

/// The command line that boots a virtual machine: the monitor, each disk, the machine.
pub open spec fn boot_args(p: ParametersView) -> Seq<Seq<char>> {
    seq![VM_BINARY_FILE@] + p.disk.map_values(|d: DiskView| disk_arg(d)) + seq!["--vm="@ + p.name]
}

/// The characters of the strings.
pub open spec fn texts(strings: Seq<String>) -> Seq<Seq<char>> {
    strings.map_values(|s: String| s@)
}

/// The place of the first nul byte, or the length if there is none.
pub open spec fn find_nul(bytes: Seq<u8>) -> nat
    decreases bytes.len(),
{
    if bytes.len() == 0 || bytes[0] == 0 {
        0
    } else {
        1 + find_nul(bytes.skip(1))
    }
}

/// The place of the nul byte in the first argument that has one.
pub open spec fn first_nul(args: Seq<Seq<char>>) -> Option<nat>
    decreases args.len(),
{
    if args.len() == 0 {
        None
    } else {
        let bytes = vstd::utf8::encode_utf8(args[0]);
        if find_nul(bytes) < bytes.len() {
            Some(find_nul(bytes))
        } else {
            first_nul(args.skip(1))
        }
    }
}

fn disk_argument(d: &DiskProperties) -> (r: String)
    ensures
        r@ == disk_arg(d@),
{
    let mut out = "--disk=".to_owned();
    out.append(d.image.as_str());
    out.append(",label=");
    out.append(text::decimal_string(d.label as u64).as_str());
    out.append(",rw=");
    out.append(text::bool_str(d.read_write));
    out
}

fn nul_byte(arg: &str) -> (r: Option<u64>)
    ensures
        ({
            let bytes = vstd::utf8::encode_utf8(arg@);
            if find_nul(bytes) < bytes.len() {
                r == Some(find_nul(bytes) as u64) && find_nul(bytes) <= u64::MAX
            } else {
                r is None
            }
        }),
{
    let bytes = arg.as_bytes();
    let mut i: usize = 0;
    assert(bytes@.skip(0) =~= bytes@);
    while i < bytes.len()
        invariant
            i <= bytes@.len(),
            bytes@ == vstd::utf8::encode_utf8(arg@),
            find_nul(bytes@) == i + find_nul(bytes@.skip(i as int)),
        decreases bytes@.len() - i,
    {
        let ghost rest = bytes@.skip(i as int);
        assert(rest[0] == bytes@[i as int]);
        assert(rest.skip(1) =~= bytes@.skip(i + 1));
        if bytes[i] == 0 {
            return Some(i as u64);
        }
        i = i + 1;
    }
    None
}

/// The place of the nul byte in the first argument that has one.
fn nul_byte_in(args: &Vec<String>) -> (r: Option<u64>)
    ensures
        r is Some <==> first_nul(texts(args@)) is Some,
        r matches Some(place) ==> Some(place as nat) == first_nul(texts(args@)),
{
    let ghost all = texts(args@);
    let mut i: usize = 0;
    assert(all.skip(0) =~= all);
    while i < args.len()
        invariant
            i <= args@.len(),
            all == texts(args@),
            first_nul(all) == first_nul(all.skip(i as int)),
        decreases args@.len() - i,
    {
        let ghost rest = all.skip(i as int);
        assert(rest[0] == args@[i as int]@);
        assert(rest.skip(1) =~= all.skip(i + 1));
        if let Some(place) = nul_byte(args[i].as_str()) {
            return Some(place);
        }
        i = i + 1;
    }
    None
}

/// The command line that boots a virtual machine.
pub fn boot_arguments(p: &VmParameters) -> (r: Vec<String>)
    ensures
        texts(r@) == boot_args(p@),
{
    let mut args: Vec<String> = Vec::new();
    args.push(VM_BINARY_FILE.to_owned());
    let ghost disks = p@.disk.map_values(|d: DiskView| disk_arg(d));
    let mut i: usize = 0;
    assert(texts(args@) =~= seq![VM_BINARY_FILE@] + disks.take(0));
    while i < p.disk.len()
        invariant
            i <= p.disk@.len(),
            disks == p@.disk.map_values(|d: DiskView| disk_arg(d)),
            texts(args@) == seq![VM_BINARY_FILE@] + disks.take(i as int),
        decreases p.disk@.len() - i,
    {
        let ghost before = args@;
        let arg = disk_argument(&p.disk[i]);
        args.push(arg);
        assert(texts(args@) =~= texts(before).push(arg@));
        assert(disks.take(i + 1) =~= disks.take(i as int).push(disks[i as int]));
        i = i + 1;
        assert(texts(args@) =~= seq![VM_BINARY_FILE@] + disks.take(i as int));
    }
    let ghost before = args@;
    let vm = "--vm=".to_owned().concat(p.name.as_str());
    args.push(vm);
    assert(texts(args@) =~= texts(before).push(vm@));
    assert(disks.take(i as int) =~= disks);
    assert(texts(args@) =~= boot_args(p@));
    args
}

/// What is to be done next to boot a virtual machine. The attempts count from one.
#[derive(Debug)]
pub enum BootStep {
    /// Fork a process that executes the command line.
    Spawn { boot_try: u8, args: Vec<String> },
    /// Give the process the seconds, then wait for it without forcing it to exit.
    Settle { boot_try: u8, pid: i32, seconds: u8 },
    /// Let the seconds pass, then try again.
    Retry { boot_try: u8, seconds: u8 },
    /// Nothing; the process, or zero if none was needed, or why there is none.
    Done(Result<i32, LaunchError>),
}

/// What a step is.
pub enum BootView {
    Spawn { boot_try: u8, args: Seq<Seq<char>> },
    Settle { boot_try: u8, pid: i32, seconds: u8 },
    Retry { boot_try: u8, seconds: u8 },
    Done(Result<i32, LaunchError>),
}

impl View for BootStep {
    type V = BootView;

    open spec fn view(&self) -> BootView {
        match *self {
            BootStep::Spawn { boot_try, args } => BootView::Spawn { boot_try, args: texts(args@) },
            BootStep::Settle { boot_try, pid, seconds } => BootView::Settle {
                boot_try,
                pid,
                seconds,
            },
            BootStep::Retry { boot_try, seconds } => BootView::Retry { boot_try, seconds },
            BootStep::Done(r) => BootView::Done(r),
        }
    }
}

/// A failed attempt is followed by another one as long as fewer were made than may be.
pub open spec fn attempt_failed(p: ParametersView, boot_try: u8, e: LaunchError) -> BootView {
    if boot_try < p.try_count {
        BootView::Retry { boot_try, seconds: p.boot_wait_time }
    } else {
        BootView::Done(Err(e))
    }
}

/// An attempt begins: nothing is to be booted unless the configuration says so, and a
/// command line with a nul byte cannot be executed.
pub open spec fn attempt(p: ParametersView, boot_try: u8) -> BootView {
    if p.boot_operation != ControlState::Start {
        BootView::Done(Ok(0))
    } else {
        match first_nul(boot_args(p)) {
            Some(place) => attempt_failed(p, boot_try, LaunchError::NulByte(place as u64)),
            None => BootView::Spawn { boot_try, args: boot_args(p) },
        }
    }
}

/// An attempt goes on once the process is there, or could not be forked.
pub open spec fn attempt_forked(p: ParametersView, boot_try: u8, child: Option<i32>) -> BootView {
    match child {
        Some(pid) => BootView::Settle { boot_try, pid, seconds: p.boot_wait_time },
        None => attempt_failed(p, boot_try, LaunchError::ForkFailed),
    }
}

/// An attempt ends with what the wait for the process has come to.
pub open spec fn attempt_settled(
    p: ParametersView,
    boot_try: u8,
    pid: i32,
    waited: Result<(), WaitFailure>,
) -> BootView {
    match waited {
        Ok(_) => BootView::Done(Ok(pid)),
        Err(_) => attempt_failed(p, boot_try, LaunchError::ExitedUnexpectedly),
    }
}

/// What a virtual machine with the given state and parameters is launched with.
pub open spec fn launch(running: bool, p: ParametersView) -> BootView {
    if running {
        BootView::Done(Ok(0))
    } else {
        attempt(p, 1)
    }
}

fn boot_failed(p: &VmParameters, boot_try: u8, e: LaunchError) -> (r: BootStep)
    ensures
        r@ == attempt_failed(p@, boot_try, e),
{
    if boot_try < p.try_count {
        BootStep::Retry { boot_try, seconds: p.boot_wait_time }
    } else {
        BootStep::Done(Err(e))
    }
}

/// Begins an attempt to boot.
pub fn boot_vm(p: &VmParameters, boot_try: u8) -> (r: BootStep)
    ensures
        r@ == attempt(p@, boot_try),
{
    if p.boot_operation != ControlState::Start {
        return BootStep::Done(Ok(0));
    }
    let args = boot_arguments(p);
    match nul_byte_in(&args) {
        Some(place) => boot_failed(p, boot_try, LaunchError::NulByte(place)),
        None => BootStep::Spawn { boot_try, args },
    }
}

/// Goes on with an attempt: the process that was forked, or `None` if that failed.
pub fn boot_after_fork(p: &VmParameters, boot_try: u8, child: Option<i32>) -> (r: BootStep)
    ensures
        r@ == attempt_forked(p@, boot_try, child),
{
    match child {
        Some(pid) => BootStep::Settle { boot_try, pid, seconds: p.boot_wait_time },
        None => boot_failed(p, boot_try, LaunchError::ForkFailed),
    }
}

/// Ends an attempt with what the wait for the process has come to.
pub fn boot_after_settle(
    p: &VmParameters,
    boot_try: u8,
    pid: i32,
    waited: Result<(), WaitError>,
) -> (r: BootStep)
    ensures
        r@ == attempt_settled(p@, boot_try, pid, waited_view(waited)),
{
    match waited {
        Ok(_) => BootStep::Done(Ok(pid)),
        Err(_) => boot_failed(p, boot_try, LaunchError::ExitedUnexpectedly),
    }
}

/// Begins the next attempt.
pub fn boot_after_retry(p: &VmParameters, boot_try: u8) -> (r: BootStep)
    requires
        boot_try < p@.try_count,
    ensures
        r@ == attempt(p@, (boot_try + 1) as u8),
{
    boot_vm(p, boot_try + 1)
}

/// Begins to boot with the first attempt.
pub fn boot_sequence(p: &VmParameters) -> (r: BootStep)
    ensures
        r@ == attempt(p@, 1),
{
    boot_vm(p, 1)
}

/// How the host answers to an attempt.
pub enum Answer {
    ForkFailed,
    Forked { pid: i32, waited: Result<(), WaitFailure> },
}

/// What one attempt comes to.
pub open spec fn attempt_result(p: ParametersView, answer: Answer) -> Result<i32, LaunchError> {
    if p.boot_operation != ControlState::Start {
        Ok(0)
    } else {
        match first_nul(boot_args(p)) {
            Some(place) => Err(LaunchError::NulByte(place as u64)),
            None => match answer {
                Answer::ForkFailed => Err(LaunchError::ForkFailed),
                Answer::Forked { pid, waited } => match waited {
                    Ok(_) => Ok(pid),
                    Err(_) => Err(LaunchError::ExitedUnexpectedly),
                },
            },
        }
    }
}

/// The steps of one attempt, up to its end.
pub open spec fn run_attempt(p: ParametersView, boot_try: u8, answer: Answer) -> BootView {
    match attempt(p, boot_try) {
        BootView::Spawn { boot_try, args } => match answer {
            Answer::ForkFailed => attempt_forked(p, boot_try, None),
            Answer::Forked { pid, waited } => match attempt_forked(p, boot_try, Some(pid)) {
                BootView::Settle { boot_try, pid, seconds } => attempt_settled(
                    p,
                    boot_try,
                    pid,
                    waited,
                ),
                step => step,
            },
        },
        step => step,
    }
}

/// The steps of all attempts from the given one on, up to the end; `answers(n)` is how the
/// host answers to the attempt `n`.
pub open spec fn run(p: ParametersView, boot_try: u8, answers: spec_fn(int) -> Answer) -> BootView
    decreases 255 - boot_try,
{
    match run_attempt(p, boot_try, answers(boot_try as int)) {
        BootView::Retry { boot_try: again, seconds } => if boot_try < 255 {
            run(p, (boot_try + 1) as u8, answers)
        } else {
            BootView::Retry { boot_try: again, seconds }
        },
        step => step,
    }
}

/// How many attempts are made at most: as many as configured, but at least one.
pub open spec fn max_attempts(p: ParametersView) -> int {
    if p.try_count == 0 {
        1
    } else {
        p.try_count as int
    }
}

/// Booting ends with the first attempt that succeeds: if that is the attempt `n` and no more
/// than the allowed number, its result is the result.
pub proof fn first_success_ends_boot(p: ParametersView, answers: spec_fn(int) -> Answer, n: int)
    requires
        1 <= n <= max_attempts(p),
        attempt_result(p, answers(n)) is Ok,
        forall|k: int| 1 <= k < n ==> attempt_result(p, #[trigger] answers(k)) is Err,
    ensures
        run(p, 1, answers) == BootView::Done(attempt_result(p, answers(n))),
{
    run_reaches(p, answers, 1, n);
}

/// Booting gives up after the allowed number of attempts: if they all fail, the error of
/// the last one is the result.
pub proof fn boot_gives_up(p: ParametersView, answers: spec_fn(int) -> Answer)
    requires
        forall|k: int|
            1 <= k <= max_attempts(p) ==> attempt_result(p, #[trigger] answers(k)) is Err,
    ensures
        run(p, 1, answers) == BootView::Done(attempt_result(p, answers(max_attempts(p)))),
{
    run_reaches(p, answers, 1, max_attempts(p));
}

/// Whatever the host answers, booting ends, and what it ends with depends on no attempt
/// after the allowed number.
pub proof fn boot_ends(
    p: ParametersView,
    answers: spec_fn(int) -> Answer,
    others: spec_fn(int) -> Answer,
)
    requires
        forall|k: int|
            1 <= k <= max_attempts(p) ==> #[trigger] answers(k) == #[trigger] others(k),
    ensures
        run(p, 1, answers) is Done,
        run(p, 1, answers) == run(p, 1, others),
{
    run_is_bounded(p, answers, others, 1);
}

proof fn run_reaches(p: ParametersView, answers: spec_fn(int) -> Answer, from: u8, n: int)
    requires
        1 <= from <= n <= max_attempts(p),
        forall|k: int| from <= k < n ==> attempt_result(p, #[trigger] answers(k)) is Err,
        attempt_result(p, answers(n)) is Ok || n == max_attempts(p),
    ensures
        run(p, from, answers) == BootView::Done(attempt_result(p, answers(n))),
    decreases n - from,
{
    attempt_steps(p, from, answers(from as int));
    if from < n {
        run_reaches(p, answers, (from + 1) as u8, n);
    }
}

proof fn run_is_bounded(
    p: ParametersView,
    answers: spec_fn(int) -> Answer,
    others: spec_fn(int) -> Answer,
    from: u8,
)
    requires
        1 <= from <= max_attempts(p),
        forall|k: int|
            from <= k <= max_attempts(p) ==> #[trigger] answers(k) == #[trigger] others(k),
    ensures
        run(p, from, answers) is Done,
        run(p, from, answers) == run(p, from, others),
    decreases max_attempts(p) - from,
{
    attempt_steps(p, from, answers(from as int));
    assert(answers(from as int) == others(from as int));
    if from < p.try_count {
        run_is_bounded(p, answers, others, (from + 1) as u8);
    }
}

/// The steps of an attempt end in its result: a success is final, a failure is followed by
/// another attempt as long as fewer were made than may be.
pub proof fn attempt_steps(p: ParametersView, boot_try: u8, answer: Answer)
    ensures
        run_attempt(p, boot_try, answer) == match attempt_result(p, answer) {
            Ok(pid) => BootView::Done(Ok(pid)),
            Err(e) => attempt_failed(p, boot_try, e),
        },
{
}

/// Where the configuration does not say to start, booting does nothing and succeeds.
pub proof fn other_operations_boot_nothing(
    p: ParametersView,
    answers: spec_fn(int) -> Answer,
)
    requires
        p.boot_operation != ControlState::Start,
    ensures
        run(p, 1, answers) == BootView::Done(Ok(0)),
{
}

/// The argument of a disk ends with its mode, whatever its image and label.
pub proof fn disk_argument_ends_with_the_mode(d: DiskView)
    ensures
        d.read_write ==> text::has_suffix(disk_arg(d), ",rw=true"@),
        !d.read_write ==> text::has_suffix(disk_arg(d), ",rw=false"@),
        d.read_write ==> !text::has_suffix(disk_arg(d), ",rw=false"@),
        !d.read_write ==> !text::has_suffix(disk_arg(d), ",rw=true"@),
{
    reveal_strlit(",rw=true");
    reveal_strlit(",rw=false");
    let arg = disk_arg(d);
    disk_argument_by_parts(d);
    let on = ",rw=true"@;
    let off = ",rw=false"@;
    if d.read_write {
        assert(arg.skip(arg.len() - on.len()) =~= on);
        assert(arg[arg.len() - 2] == 'u');
        if text::has_suffix(arg, off) {
            assert(arg.skip(arg.len() - off.len())[off.len() - 2] == arg[arg.len() - 2]);
        }
    } else {
        assert(arg.skip(arg.len() - off.len()) =~= off);
        assert(arg[arg.len() - 2] == 's');
        if text::has_suffix(arg, on) {
            assert(arg.skip(arg.len() - on.len())[on.len() - 2] == arg[arg.len() - 2]);
        }
    }
}

/// The argument of a disk names its image, then its label in decimal notation, then its mode.
pub proof fn disk_argument_by_parts(d: DiskView)
    ensures
        disk_arg(d) == "--disk="@ + d.image + ",label="@ + text::decimal(d.label as nat) + (
        if d.read_write {
            ",rw=true"@
        } else {
            ",rw=false"@
        }),
{
    reveal_strlit(",rw=true");
    reveal_strlit(",rw=false");
    reveal_strlit(",rw=");
    reveal_strlit("true");
    reveal_strlit("false");
    assert(",rw="@ + "true"@ =~= ",rw=true"@);
    assert(",rw="@ + "false"@ =~= ",rw=false"@);
    let head = "--disk="@ + d.image + ",label="@ + text::decimal(d.label as nat);
    assert(head + ",rw="@ + "true"@ =~= head + (",rw="@ + "true"@));
    assert(head + ",rw="@ + "false"@ =~= head + (",rw="@ + "false"@));
}

/// Two disks that differ only in their mode, only in their label or only in their image have
/// different arguments.
pub proof fn disk_arguments_tell_disks_apart(
    d: DiskView,
    image: Seq<char>,
    label: u32,
    read_write: bool,
)
    ensures
        d.read_write != read_write ==> disk_arg(d) != disk_arg(DiskView { read_write, ..d }),
        d.label != label ==> disk_arg(d) != disk_arg(DiskView { label, ..d }),
        d.image != image ==> disk_arg(d) != disk_arg(DiskView { image, ..d }),
{
    disk_argument_ends_with_the_mode(d);
    disk_argument_ends_with_the_mode(DiskView { read_write, ..d });
    let mode = ",rw="@ + text::bool_text(d.read_write);
    let other = DiskView { label, ..d };
    let head = "--disk="@ + d.image + ",label="@;
    assert(disk_arg(d) =~= head + text::decimal(d.label as nat) + mode);
    assert(disk_arg(other) =~= head + text::decimal(label as nat) + mode);
    if disk_arg(d) == disk_arg(other) {
        let n = disk_arg(d).len() as int;
        let digits = disk_arg(d).subrange(head.len() as int, n - mode.len());
        assert(digits =~= text::decimal(d.label as nat));
        assert(digits =~= text::decimal(label as nat));
        text::decimal_tells_numbers_apart(d.label as nat, label as nat);
    }
    let moved = DiskView { image, ..d };
    let rest = ",label="@ + text::decimal(d.label as nat) + mode;
    assert(disk_arg(d) =~= "--disk="@ + d.image + rest);
    assert(disk_arg(moved) =~= "--disk="@ + image + rest);
    if disk_arg(d) == disk_arg(moved) {
        let n = disk_arg(d).len() as int;
        let middle = disk_arg(d).subrange("--disk="@.len() as int, n - rest.len());
        assert(middle =~= d.image);
        assert(middle =~= image);
    }
}

/// The command line names the monitor first, the virtual machine last, and between them
/// every disk in its order and nothing else.
pub proof fn command_line_by_parts(p: ParametersView)
    ensures
        boot_args(p).len() == p.disk.len() + 2,
        boot_args(p)[0] == "/system_ext/bin/qcrosvm"@,
        boot_args(p)[p.disk.len() as int + 1] == "--vm="@ + p.name,
        forall|i: int|
            0 <= i < p.disk.len() ==> #[trigger] boot_args(p)[i + 1] == disk_arg(p.disk[i]),
{
    assert forall|i: int| 0 <= i < p.disk.len() implies #[trigger] boot_args(p)[i + 1] == disk_arg(
        p.disk[i],
    ) by {
        assert(p.disk.map_values(|d: DiskView| disk_arg(d))[i] == disk_arg(p.disk[i]));
    }
}

/// The command line depends on the name and the disks alone, and on all of them: virtual
/// machines of different names have different command lines.
pub proof fn command_line_tells_machines_apart(p: ParametersView, q: ParametersView)
    ensures
        p.name == q.name && p.disk == q.disk ==> boot_args(p) == boot_args(q),
        p.name != q.name ==> boot_args(p) != boot_args(q),
        p.disk.len() != q.disk.len() ==> boot_args(p) != boot_args(q),
{
    command_line_by_parts(p);
    command_line_by_parts(q);
    if boot_args(p) == boot_args(q) {
        let vm = "--vm="@;
        assert((vm + p.name).skip(vm.len() as int) =~= p.name);
        assert((vm + q.name).skip(vm.len() as int) =~= q.name);
    }
}

/// Whether the bytes hold a nul byte at the place and none before it.
pub open spec fn first_nul_at(bytes: Seq<u8>, place: int) -> bool {
    0 <= place < bytes.len() && bytes[place] == 0 && forall|j: int|
        0 <= j < place ==> bytes[j] != 0
}

proof fn find_nul_is_first(bytes: Seq<u8>)
    ensures
        find_nul(bytes) <= bytes.len(),
        find_nul(bytes) < bytes.len() ==> first_nul_at(bytes, find_nul(bytes) as int),
        find_nul(bytes) == bytes.len() ==> !bytes.contains(0u8),
    decreases bytes.len(),
{
    if bytes.len() > 0 && bytes[0] != 0 {
        let rest = bytes.skip(1);
        find_nul_is_first(rest);
        if find_nul(rest) < rest.len() {
            assert(bytes[find_nul(bytes) as int] == rest[find_nul(rest) as int]);
            assert forall|j: int| 0 <= j < find_nul(bytes) implies bytes[j] != 0 by {
                if j > 0 {
                    assert(rest[j - 1] == bytes[j]);
                }
            }
        } else if bytes.contains(0u8) {
            let j = choose|j: int| 0 <= j < bytes.len() && bytes[j] == 0;
            assert(rest[j - 1] == 0);
        }
    }
}

/// The nul byte that is reported is the first one of the first argument that has any; none
/// is reported exactly if no argument has one.
pub proof fn nul_byte_is_the_first(args: Seq<Seq<char>>)
    ensures
        match first_nul(args) {
            Some(place) => exists|i: int|
                #![trigger args[i]]
                0 <= i < args.len() && first_nul_at(
                    vstd::utf8::encode_utf8(args[i]),
                    place as int,
                ) && forall|j: int|
                    0 <= j < i ==> !vstd::utf8::encode_utf8(#[trigger] args[j]).contains(0u8),
            None => forall|j: int|
                0 <= j < args.len() ==> !vstd::utf8::encode_utf8(#[trigger] args[j]).contains(0u8),
        },
    decreases args.len(),
{
    if args.len() > 0 {
        let bytes = vstd::utf8::encode_utf8(args[0]);
        find_nul_is_first(bytes);
        if find_nul(bytes) < bytes.len() {
            assert(first_nul_at(vstd::utf8::encode_utf8(args[0]), find_nul(bytes) as int));
        } else {
            let rest = args.skip(1);
            nul_byte_is_the_first(rest);
            match first_nul(rest) {
                Some(place) => {
                    let i = choose|i: int|
                        #![trigger rest[i]]
                        0 <= i < rest.len() && first_nul_at(
                            vstd::utf8::encode_utf8(rest[i]),
                            place as int,
                        ) && forall|j: int|
                            0 <= j < i ==> !vstd::utf8::encode_utf8(#[trigger] rest[j]).contains(
                                0u8,
                            );
                    assert(args[i + 1] == rest[i]);
                    assert forall|j: int| 0 <= j < i + 1 implies !vstd::utf8::encode_utf8(
                        #[trigger] args[j],
                    ).contains(0u8) by {
                        if j > 0 {
                            assert(rest[j - 1] == args[j]);
                        }
                    }
                },
                None => {
                    assert forall|j: int| 0 <= j < args.len() implies !vstd::utf8::encode_utf8(
                        #[trigger] args[j],
                    ).contains(0u8) by {
                        if j > 0 {
                            assert(rest[j - 1] == args[j]);
                        }
                    }
                },
            }
        }
    }
}

/// Whether no argument of the command line holds a nul byte.
pub open spec fn executable(p: ParametersView) -> bool {
    forall|j: int|
        0 <= j < boot_args(p).len() ==> !vstd::utf8::encode_utf8(
            #[trigger] boot_args(p)[j],
        ).contains(0u8)
}

proof fn executable_has_no_nul(p: ParametersView)
    ensures
        executable(p) <==> first_nul(boot_args(p)) is None,
{
    nul_byte_is_the_first(boot_args(p));
    if let Some(place) = first_nul(boot_args(p)) {
        let args = boot_args(p);
        let i = choose|i: int|
            #![trigger args[i]]
            0 <= i < args.len() && first_nul_at(vstd::utf8::encode_utf8(args[i]), place as int)
                && forall|j: int|
                0 <= j < i ==> !vstd::utf8::encode_utf8(#[trigger] args[j]).contains(0u8);
        let bytes = vstd::utf8::encode_utf8(args[i]);
        assert(bytes[place as int] == 0);
        assert(bytes.contains(0u8));
    }
}

/// A process is forked exactly for a virtual machine that is configured to start and whose
/// command line can be executed, and it is handed that command line, whichever attempt it is.
pub proof fn forked_exactly_to_start(p: ParametersView, boot_try: u8)
    ensures
        attempt(p, boot_try) is Spawn <==> p.boot_operation == ControlState::Start && executable(
            p,
        ),
        attempt(p, boot_try) matches BootView::Spawn { boot_try: now, args } ==> now == boot_try
            && args == boot_args(p),
{
    executable_has_no_nul(p);
}

/// Both before a process is looked at and before a further attempt the configured time
/// passes, and a further attempt is made only while fewer were made than configured.
pub proof fn pauses_are_the_configured_time(
    p: ParametersView,
    boot_try: u8,
    pid: i32,
    e: LaunchError,
)
    ensures
        attempt_forked(p, boot_try, Some(pid)) matches BootView::Settle {
            boot_try: now,
            pid: child,
            seconds,
        } && now == boot_try && child == pid && seconds == p.boot_wait_time,
        attempt_failed(p, boot_try, e) matches BootView::Retry { boot_try: now, seconds } ==> now
            == boot_try && seconds == p.boot_wait_time && boot_try < p.try_count,
        attempt_failed(p, boot_try, e) is Retry || attempt_failed(p, boot_try, e)
            == BootView::Done(Err::<i32, LaunchError>(e)),
        attempt_failed(p, boot_try, e) is Done <==> boot_try >= p.try_count,
{
}

/// Whether the host answers to an attempt with a process that does not fail.
pub open spec fn answers_well(answer: Answer) -> bool {
    answer matches Answer::Forked { waited, .. } && waited is Ok
}

/// The host decides what booting comes to: the first process that does not fail is the
/// result; if there is none among the attempts that are made, at least one and otherwise as
/// many as configured, the last answer says why.
pub proof fn host_decides_the_boot(p: ParametersView, answers: spec_fn(int) -> Answer, n: int)
    requires
        p.boot_operation == ControlState::Start,
        executable(p),
        n == 1 || 1 <= n <= p.try_count,
        forall|k: int| 1 <= k < n ==> !answers_well(#[trigger] answers(k)),
    ensures
        answers(n) matches Answer::Forked { pid, waited } ==> waited is Ok ==> run(p, 1, answers)
            == BootView::Done(Ok::<i32, LaunchError>(pid)),
        n >= p.try_count ==> answers(n) is ForkFailed ==> run(p, 1, answers) == BootView::Done(
            Err::<i32, LaunchError>(LaunchError::ForkFailed),
        ),
        n >= p.try_count ==> (answers(n) matches Answer::Forked { pid, waited } ==> waited is Err
            ==> run(p, 1, answers) == BootView::Done(
            Err::<i32, LaunchError>(LaunchError::ExitedUnexpectedly),
        )),
{
    executable_has_no_nul(p);
    if answers_well(answers(n)) {
        first_success_ends_boot(p, answers, n);
    }
    if n >= p.try_count && !answers_well(answers(n)) {
        assert forall|k: int| 1 <= k <= max_attempts(p) implies attempt_result(
            p,
            #[trigger] answers(k),
        ) is Err by {
            if k < n {
                assert(!answers_well(answers(k)));
            }
        }
        boot_gives_up(p, answers);
    }
}

/// A command line that cannot be executed fails every attempt without a process, with the
/// place of the nul byte.
pub proof fn nul_byte_fails_the_boot(p: ParametersView, answers: spec_fn(int) -> Answer)
    requires
        p.boot_operation == ControlState::Start,
        !executable(p),
    ensures
        first_nul(boot_args(p)) matches Some(place) && run(p, 1, answers) == BootView::Done(
            Err::<i32, LaunchError>(LaunchError::NulByte(place as u64)),
        ),
{
    executable_has_no_nul(p);
    boot_gives_up(p, answers);
}

/// The words of a launch error tell the errors apart, and those of a nul byte give its place.
pub proof fn launch_errors_are_told_apart(a: u64, b: u64)
    ensures
        text::has_prefix(
            launch_error_text(LaunchError::NulByte(a)),
            "nul byte found in provided data at position: "@,
        ),
        text::has_suffix(launch_error_text(LaunchError::NulByte(a)), text::decimal(a as nat)),
        launch_error_text(LaunchError::NulByte(a)).len()
            == "nul byte found in provided data at position: "@.len() + text::decimal(
            a as nat,
        ).len(),
        a != b ==> launch_error_text(LaunchError::NulByte(a)) != launch_error_text(
            LaunchError::NulByte(b),
        ),
        launch_error_text(LaunchError::ForkFailed) == "Fork failed"@,
        launch_error_text(LaunchError::ExitedUnexpectedly) == "qcrosvm exited unexpectedly"@,
{
    let head = "nul byte found in provided data at position: "@;
    let x = launch_error_text(LaunchError::NulByte(a));
    let y = launch_error_text(LaunchError::NulByte(b));
    assert(x.take(head.len() as int) =~= head);
    assert(x.skip(head.len() as int) =~= text::decimal(a as nat));
    assert(y.skip(head.len() as int) =~= text::decimal(b as nat));
    text::decimal_tells_numbers_apart(a as nat, b as nat);
}

/// A wait that fails because the process cannot be killed says why in the words of that.
pub proof fn failed_kill_says_why(words: Seq<char>, reaped: Option<ProcessStatus>)
    ensures
        wait_result(Some(true), Some(ProcessStatus::StillAlive), Err(words), reaped) matches Err(
            e,
        ) && wait_error_text(e) == words,
{
}

} // verus!
