use qvirt::qvirtservice::boot::{
    boot_after_fork, boot_after_retry, boot_after_settle, boot_arguments, boot_sequence, boot_vm,
    wait_after_kill, wait_after_probe, wait_after_reap, wait_for_exit, BootStep, LaunchError,
    ProcessStatus, WaitError, WaitStep, VM_BINARY_FILE,
};
use qvirt::qvirtservice::parameters::{ControlState, DiskProperties, VmParameters};

fn machine(try_count: u8) -> VmParameters {
    let mut p = VmParameters::default();
    p.name = "trustedvm".to_string();
    p.boot_operation = ControlState::Start;
    p.try_count = try_count;
    p.boot_wait_time = 5;
    p
}

fn disk(image: &str, label: u32, read_write: bool) -> DiskProperties {
    DiskProperties { image: image.to_string(), label, read_write }
}

/// How the host answers to one attempt: no fork, or a process with what is known of it.
type Answer = Option<(i32, Option<ProcessStatus>)>;

/// Waits for a process of which the given is known.
fn wait(status: Option<ProcessStatus>) -> Result<(), WaitError> {
    assert_eq!(wait_for_exit(Some(false)), WaitStep::Reap);
    wait_after_reap(status)
}

/// Boots with the given answers; the result and how many attempts were made.
fn boot(p: &VmParameters, answers: &[Answer]) -> (Result<i32, LaunchError>, usize) {
    let mut attempts = 0;
    let mut step = boot_sequence(p);
    loop {
        step = match step {
            BootStep::Spawn { boot_try, .. } => {
                attempts += 1;
                assert_eq!(boot_try as usize, attempts);
                boot_after_fork(p, boot_try, answers[attempts - 1].map(|a| a.0))
            }
            BootStep::Settle { boot_try, pid, seconds } => {
                assert_eq!(seconds, p.boot_wait_time);
                boot_after_settle(p, boot_try, pid, wait(answers[attempts - 1].unwrap().1))
            }
            BootStep::Retry { boot_try, seconds } => {
                assert_eq!(seconds, p.boot_wait_time);
                assert!(boot_try < p.try_count);
                boot_after_retry(p, boot_try)
            }
            BootStep::Done(r) => return (r, attempts),
        };
    }
}

const ALIVE: Answer = Some((42, Some(ProcessStatus::StillAlive)));
const EXITED: Answer = Some((41, Some(ProcessStatus::Exited(1))));

#[test]
fn command_line() {
    let mut p = machine(1);
    p.disk.push(disk("/dev/block/a", 16, true));
    p.disk.push(disk("b", 0, false));
    assert_eq!(VM_BINARY_FILE, "/system_ext/bin/qcrosvm");
    assert_eq!(
        boot_arguments(&p),
        vec![
            "/system_ext/bin/qcrosvm",
            "--disk=/dev/block/a,label=16,rw=true",
            "--disk=b,label=0,rw=false",
            "--vm=trustedvm",
        ]
    );
}

#[test]
fn first_attempt_succeeds() {
    assert_eq!(boot(&machine(3), &[ALIVE]), (Ok(42), 1));
    assert_eq!(boot(&machine(0), &[Some((7, None))]), (Ok(7), 1));
    assert_eq!(boot(&machine(0), &[Some((7, Some(ProcessStatus::Signaled)))]), (Ok(7), 1));
    assert_eq!(boot(&machine(0), &[Some((7, Some(ProcessStatus::Exited(0))))]), (Ok(7), 1));
}

#[test]
fn later_attempt_succeeds() {
    assert_eq!(boot(&machine(3), &[EXITED, None, ALIVE]), (Ok(42), 3));
}

#[test]
fn attempts_run_out() {
    assert_eq!(boot(&machine(2), &[EXITED, None, ALIVE]), (Err(LaunchError::ForkFailed), 2));
    assert_eq!(boot(&machine(1), &[EXITED, ALIVE]), (Err(LaunchError::ExitedUnexpectedly), 1));
    assert_eq!(boot(&machine(0), &[EXITED, ALIVE]), (Err(LaunchError::ExitedUnexpectedly), 1));
    assert_eq!(boot(&machine(255), &[None; 256]), (Err(LaunchError::ForkFailed), 255));
}

#[test]
fn nothing_to_boot() {
    for operation in [
        ControlState::Create,
        ControlState::Stop,
        ControlState::Restart,
        ControlState::Panic,
        ControlState::NotSupported,
    ] {
        let mut p = machine(3);
        p.boot_operation = operation;
        assert_eq!(boot(&p, &[]), (Ok(0), 0));
    }
}

#[test]
fn nul_byte_in_an_argument() {
    let mut p = machine(2);
    p.name = "a\0b".to_string();
    assert_eq!(boot(&p, &[]), (Err(LaunchError::NulByte(6)), 0));
    assert!(matches!(boot_sequence(&p), BootStep::Retry { boot_try: 1, seconds: 5 }));
    p.disk.push(disk("\u{e9}\0", 1, true));
    assert_eq!(boot(&p, &[]), (Err(LaunchError::NulByte(9)), 0));
}

#[test]
fn attempts_count_from_the_given_one() {
    match boot_vm(&machine(3), 2) {
        BootStep::Spawn { boot_try, args } => {
            assert_eq!(boot_try, 2);
            assert_eq!(args, vec!["/system_ext/bin/qcrosvm", "--vm=trustedvm"]);
        }
        other => panic!("{:?}", other),
    }
}

#[test]
fn words_of_launch_errors() {
    assert_eq!(
        LaunchError::NulByte(12).text(),
        "nul byte found in provided data at position: 12"
    );
    assert_eq!(LaunchError::ForkFailed.text(), "Fork failed");
    assert_eq!(LaunchError::ExitedUnexpectedly.text(), "qcrosvm exited unexpectedly");
}

#[test]
fn wait_without_force_only_looks() {
    assert_eq!(wait_for_exit(None), WaitStep::Reap);
    assert_eq!(wait_for_exit(Some(false)), WaitStep::Reap);
}

#[test]
fn wait_with_force_kills_the_living() {
    assert_eq!(wait_for_exit(Some(true)), WaitStep::Probe);
    assert_eq!(wait_after_probe(Some(ProcessStatus::StillAlive)), WaitStep::Kill);
    assert_eq!(wait_after_probe(Some(ProcessStatus::Exited(1))), WaitStep::Reap);
    assert_eq!(wait_after_probe(None), WaitStep::Reap);
    assert_eq!(wait_after_kill(Ok(())), WaitStep::Reap);
    let words = "ESRCH: No such process".to_string();
    assert_eq!(
        wait_after_kill(Err(words.clone())),
        WaitStep::Done(Err(WaitError::KillFailed(words)))
    );
}

#[test]
fn words_of_wait_errors() {
    assert_eq!(wait_after_reap(Some(ProcessStatus::Exited(7))).unwrap_err().text(), "Result {s}");
    assert_eq!(
        WaitError::KillFailed("EPERM: Operation not permitted".to_string()).text(),
        "EPERM: Operation not permitted"
    );
}

#[test]
fn only_a_positive_exit_code_is_a_failure() {
    assert_eq!(wait_after_reap(Some(ProcessStatus::Exited(1))), Err(WaitError::ExitCode));
    assert_eq!(wait_after_reap(Some(ProcessStatus::Exited(0))), Ok(()));
    assert_eq!(wait_after_reap(Some(ProcessStatus::Exited(-1))), Ok(()));
    assert_eq!(wait_after_reap(Some(ProcessStatus::Signaled)), Ok(()));
    assert_eq!(wait_after_reap(Some(ProcessStatus::StillAlive)), Ok(()));
    assert_eq!(wait_after_reap(Some(ProcessStatus::Other)), Ok(()));
    assert_eq!(wait_after_reap(None), Ok(()));
}
