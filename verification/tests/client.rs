use qvirt::native_test::session::{
    next, GuestState, Reply, SessionStep, END_POLL_SECONDS, FIRST_NUMBER, GREETED, SECOND_NUMBER,
};
use qvirt::native_test::test_instance::{
    TestInstance, DATA_ROOT, INSTANCE_IMAGE_SIZE, TEST_PAYLOAD_APP, TEST_PAYLOAD_NAME,
};
use qvirt::native_test::timeouts::{
    is_nested_virtualization, nested_after_read, timeouts, NestedCheck, NestedStep, Timeouts,
};
use qvirt::native_test::vm_client_lib::{
    after_debuggable, after_non_protected, after_protected, apk_pattern, app_config, death_text,
    locate_config_apk, start, start_after_call, start_after_death, start_after_idsig_check,
    start_after_ready, start_parameters, want_protected_vm, DebugLevel, NotReady, ProtectionStep,
    StartCall, StartError, StartStep, VmCpuTopology, VmParameters, APK_DIR, DEBUGGABLE_PROP,
    NON_PROTECTED_PROP, PROTECTED_PROP,
};
use qvirt::payload::test_payload::TestPayload;

#[test]
fn empty_instance() {
    for i in [TestInstance::new(), TestInstance::default()] {
        assert_eq!(i.instance_name, "");
        assert_eq!(i.instance_root, "");
        assert_eq!(i.instance_image, "");
        assert_eq!(i.idsig, "");
    }
}

#[test]
fn instance_with_a_name() {
    let i = TestInstance::named("vm".to_string());
    assert_eq!(DATA_ROOT, "/data/local/tmp");
    assert_eq!(i.instance_name, "vm");
    assert_eq!(i.instance_root, "/data/local/tmp/vm");
    assert_eq!(i.instance_image, "/data/local/tmp/vm/instance.img");
    assert_eq!(i.idsig, "/data/local/tmp/vm/idsig");
}

#[test]
fn instance_with_an_absolute_path() {
    let i = TestInstance::named("/tmp/.tmpAbc".to_string());
    assert_eq!(i.instance_root, "/tmp/.tmpAbc");
    assert_eq!(i.instance_image, "/tmp/.tmpAbc/instance.img");
}

#[test]
fn constants_of_the_client() {
    assert_eq!(INSTANCE_IMAGE_SIZE, 10 * 1024 * 1024);
    assert_eq!(TEST_PAYLOAD_NAME, "libtest_payload_rs.so");
    assert_eq!(TEST_PAYLOAD_APP, "EmptyTestPayloadApp");
    assert_eq!((FIRST_NUMBER, SECOND_NUMBER, GREETED), (2, 3, "Host"));
    assert_eq!(END_POLL_SECONDS, 5);
}

#[test]
fn timeouts_with_and_without_nesting() {
    assert_eq!(
        timeouts(false),
        Timeouts {
            odrefresh_max_execution_time: 300,
            vm_max_time_to_ready: 15,
            vm_max_time_to_exit: 5,
        }
    );
    assert_eq!(
        timeouts(true),
        Timeouts {
            odrefresh_max_execution_time: 480,
            vm_max_time_to_ready: 120,
            vm_max_time_to_exit: 20,
        }
    );
}

fn nested(device: Result<Option<&str>, &str>, hardware: Result<Option<&str>, &str>) -> NestedStep {
    let mut step = is_nested_virtualization();
    while let NestedStep::Read(check) = step {
        let (property, value) = match check {
            NestedCheck::Device => ("ro.product.vendor.device", device),
            NestedCheck::Hardware => ("ro.hardware", hardware),
        };
        assert_eq!(check.property(), property);
        step = nested_after_read(check, value.map(|v| v.map(|s| s.to_string())).map_err(|e| e.to_string()));
    }
    step
}

#[test]
fn nested_virtualization() {
    assert_eq!(nested(Ok(Some("vsoc_x86_64")), Ok(None)), NestedStep::Known(true));
    assert_eq!(nested(Ok(None), Ok(Some("qemu_trusty"))), NestedStep::Known(true));
    assert_eq!(nested(Ok(Some("qemu_")), Ok(Some("vsoc_"))), NestedStep::Known(false));
    assert_eq!(nested(Ok(None), Ok(None)), NestedStep::Known(false));
    assert_eq!(nested(Ok(Some("xvsoc_")), Ok(Some("qemu"))), NestedStep::Known(false));
}

#[test]
fn properties_that_cannot_be_read() {
    assert_eq!(nested(Err("a"), Ok(Some("qemu_"))), NestedStep::Unknown("a".to_string()));
    assert_eq!(nested(Err("a"), Err("b")), NestedStep::Unknown("a".to_string()));
    assert_eq!(nested(Ok(None), Err("b")), NestedStep::Unknown("b".to_string()));
    assert_eq!(nested(Ok(Some("vsoc_")), Err("b")), NestedStep::Known(true));
}

#[test]
fn parameters_of_the_test_machine() {
    let p = start_parameters();
    assert_eq!(p.name, "Test_Payload_VM");
    assert!(p.debug_mode);
    assert_eq!(p.cpu_topology, VmCpuTopology::MatchHost);
    assert_eq!(p.task_profiles, vec!["SCHED_SP_COMPUTE"]);
    assert_eq!(p.memory_mib, Some(256));
    assert!(!p.prefer_staged);
}

#[test]
fn parameters_without_anything() {
    let p = VmParameters::default();
    assert_eq!(p.name, "");
    assert!(!p.debug_mode);
    assert_eq!(p.cpu_topology, VmCpuTopology::OneCpu);
    assert_eq!(VmCpuTopology::default(), VmCpuTopology::OneCpu);
    assert!(p.task_profiles.is_empty());
    assert_eq!(p.memory_mib, None);
    assert!(!p.prefer_staged);
}

#[test]
fn configuration_of_a_machine() {
    let c = app_config(&start_parameters(), true, "libtest_payload_rs.so");
    assert_eq!(c.name, "Test_Payload_VM");
    assert_eq!(c.payload_binary_name, "libtest_payload_rs.so");
    assert_eq!(c.debug_level, DebugLevel::Full);
    assert!(c.protected_vm);
    assert_eq!(c.memory_mib, 256);
    let c = app_config(&VmParameters::default(), false, "");
    assert_eq!(c.debug_level, DebugLevel::Off);
    assert!(!c.protected_vm);
    assert_eq!(c.memory_mib, 0);
}

#[test]
fn pattern_of_the_package() {
    assert_eq!(APK_DIR, "/data/local/tmp/");
    assert_eq!(
        apk_pattern("/data/local/tmp/", "EmptyTestPayloadApp"),
        "/data/local/tmp/app/**/EmptyTestPayloadApp*.apk"
    );
    assert_eq!(apk_pattern("x", "y"), "x/app/**/y*.apk");
}

#[test]
fn package_has_to_be_the_only_one() {
    let found = |e: Vec<Result<&'static str, ()>>| locate_config_apk(e, "p");
    assert_eq!(found(vec![Ok("a")]), Ok("a"));
    assert_eq!(found(vec![Err(()), Ok("a"), Err(())]), Ok("a"));
    assert_eq!(found(vec![]), Err("No apks match p".to_string()));
    assert_eq!(found(vec![Err(())]), Err("No apks match p".to_string()));
    assert_eq!(
        found(vec![Ok("a"), Ok("b")]),
        Err("Found more than one apk matching p".to_string())
    );
}

fn protection(
    protected: Result<bool, String>,
    debuggable: Result<Option<String>, String>,
    non_protected: Result<bool, String>,
) -> Result<bool, String> {
    let mut step = want_protected_vm();
    loop {
        step = match step {
            ProtectionStep::ReadProtected => after_protected(protected.clone()),
            ProtectionStep::ReadDebuggable => after_debuggable(debuggable.clone()),
            ProtectionStep::ReadNonProtected => after_non_protected(non_protected.clone()),
            ProtectionStep::Done(r) => return r,
        };
    }
}

#[test]
fn protected_machines_are_preferred() {
    assert_eq!(protection(Ok(true), Ok(None), Ok(true)), Ok(true));
    assert_eq!(protection(Ok(false), Ok(Some("1".to_string())), Ok(true)), Ok(false));
    assert_eq!(PROTECTED_PROP, "ro.boot.hypervisor.protected_vm.supported");
    assert_eq!(DEBUGGABLE_PROP, "ro.debuggable");
    assert_eq!(NON_PROTECTED_PROP, "ro.boot.hypervisor.vm.supported");
}

#[test]
fn machines_that_are_not_supported() {
    let no = Err("Protected VM not supported, unable to start VM".to_string());
    assert_eq!(protection(Ok(false), Ok(None), Ok(true)), no);
    assert_eq!(protection(Ok(false), Ok(Some("0".to_string())), Ok(true)), no);
    assert_eq!(
        protection(Ok(false), Ok(Some("1".to_string())), Ok(false)),
        Err("No VM support available".to_string())
    );
    let e = Err("unreadable".to_string());
    assert_eq!(protection(e.clone(), Ok(None), Ok(true)), e);
    assert_eq!(protection(Ok(false), Err("unreadable".to_string()), Ok(true)), e);
    assert_eq!(protection(Ok(false), Ok(Some("1".to_string())), e.clone()), e);
}

/// Starts with the given answers; the calls that were made and the result.
fn run_start(
    failing: Option<StartCall>,
    idsig_exists: bool,
    ready: Result<(), NotReady>,
    debug_level: DebugLevel,
    death: Option<&str>,
) -> (Vec<StartCall>, Result<(), StartError>) {
    let mut calls = Vec::new();
    let mut step = start();
    loop {
        step = match step {
            StartStep::Call(call) => {
                calls.push(call);
                let failed = failing == Some(call);
                start_after_call(call, if failed { Err("failed".to_string()) } else { Ok(()) })
            }
            StartStep::CheckIdsig => start_after_idsig_check(idsig_exists),
            StartStep::AwaitReady => start_after_ready(ready.clone(), debug_level),
            StartStep::AwaitDeath => start_after_death(death.map(|d| d.to_string())),
            StartStep::Done(r) => return (calls, r),
        };
    }
}

#[test]
fn start_makes_the_calls_in_order() {
    let (calls, r) = run_start(None, false, Ok(()), DebugLevel::Full, None);
    assert!(r.is_ok());
    assert_eq!(
        calls,
        vec![
            StartCall::LocateApk,
            StartCall::OpenApk,
            StartCall::CreateIdsig,
            StartCall::UpdateIdsig,
            StartCall::OpenIdsig,
            StartCall::CreateVm,
            StartCall::StartVm,
        ]
    );
}

#[test]
fn signature_file_that_exists_is_kept() {
    let (calls, r) = run_start(None, true, Ok(()), DebugLevel::Off, None);
    assert!(r.is_ok());
    assert!(!calls.contains(&StartCall::CreateIdsig));
    assert!(!calls.contains(&StartCall::UpdateIdsig));
}

#[test]
fn failed_call_ends_the_start() {
    for (call, context) in [
        (StartCall::LocateApk, None),
        (StartCall::OpenApk, Some("Failed to open config APK file")),
        (StartCall::CreateIdsig, Some("Failed to create idsig file")),
        (StartCall::UpdateIdsig, Some("Failed to update idsig file")),
        (StartCall::OpenIdsig, Some("Failed to open idsig file")),
        (StartCall::CreateVm, Some("Failed to create VM")),
        (StartCall::StartVm, Some("Failed to start VM")),
    ] {
        let (calls, r) = run_start(Some(call), false, Ok(()), DebugLevel::Full, None);
        assert_eq!(calls.last(), Some(&call));
        assert!(matches!(r, Err(StartError::Call(c, words)) if c == call && words == "failed"));
        assert_eq!(call.context(), context);
    }
}

#[test]
fn machine_that_does_not_become_ready() {
    let finished = || Err(NotReady::Finished);
    let (_, r) = run_start(None, true, finished(), DebugLevel::Full, Some("Shutdown"));
    assert!(matches!(r, Err(StartError::Died(reason)) if reason == "Shutdown"));
    let (_, r) = run_start(None, true, finished(), DebugLevel::Full, None);
    assert!(matches!(r, Err(StartError::NotReady(NotReady::Finished))));
    let (_, r) = run_start(None, true, finished(), DebugLevel::Off, Some("Shutdown"));
    assert!(matches!(r, Err(StartError::NotReady(NotReady::Finished))));
    let other = Err(NotReady::Other("timed out".to_string()));
    let (_, r) = run_start(None, true, other, DebugLevel::Full, Some("Shutdown"));
    assert!(
        matches!(r, Err(StartError::NotReady(NotReady::Other(words))) if words == "timed out")
    );
    assert_eq!(death_text("Shutdown"), "VM died during startup - reason Shutdown");
}

#[test]
fn steps_that_wait() {
    for nested in [false, true] {
        let t = timeouts(nested);
        assert_eq!(StartStep::AwaitReady.seconds(&t), Some(if nested { 120 } else { 15 }));
        assert_eq!(StartStep::AwaitDeath.seconds(&t), Some(if nested { 20 } else { 5 }));
        assert_eq!(start().seconds(&t), None);
        assert_eq!(StartStep::CheckIdsig.seconds(&t), None);
        assert_eq!(StartStep::Done(Ok(())).seconds(&t), None);
    }
}

fn course(replies: &[Reply]) -> SessionStep {
    replies.iter().fold(SessionStep::CheckReady, |step, reply| next(step, *reply))
}

#[test]
fn course_of_a_test() {
    let ready = Reply::State(GuestState::Ready);
    let dead = Reply::State(GuestState::Dead);
    let other = Reply::State(GuestState::Other);
    let failure = Reply::Failure;
    let done = Reply::Done;
    assert_eq!(course(&[other, failure, dead]), SessionStep::CheckReady);
    assert_eq!(course(&[other, ready]), SessionStep::AddInteger);
    assert_eq!(course(&[ready, done]), SessionStep::Hello);
    assert_eq!(course(&[ready, done, done]), SessionStep::Quit);
    assert_eq!(course(&[ready, done, done, done]), SessionStep::CheckDead);
    assert_eq!(course(&[ready, done, done, done, ready]), SessionStep::Pause);
    assert_eq!(course(&[ready, done, done, done, ready, done, dead]), SessionStep::Passed);
    assert_eq!(course(&[ready, done, done, done, dead, failure]), SessionStep::Passed);
    assert_eq!(course(&[ready, failure, done]), SessionStep::Failed);
    assert_eq!(course(&[ready, done, failure]), SessionStep::Failed);
    assert_eq!(course(&[ready, done, done, failure]), SessionStep::Failed);
    assert_eq!(course(&[ready, done, done, done, failure]), SessionStep::Failed);
}

#[test]
fn payload_answers() {
    let payload = TestPayload {};
    assert_eq!(payload.add_integer(FIRST_NUMBER, SECOND_NUMBER), 5);
    assert_eq!(payload.add_integer(i32::MAX, i32::MIN), -1);
    assert_eq!(payload.hello(GREETED), "Hello Host");
    assert_eq!(payload.hello(""), "Hello ");
}
