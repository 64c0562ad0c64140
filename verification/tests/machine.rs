use qvirt::qvirtservice::boot::{BootStep, LaunchError};
use qvirt::qvirtservice::parameters::{ControlState, VmParameters};
use qvirt::qvirtservice::virtual_machine::{
    internal_error, start_answer, VmInstance, VmState,
};
use qvirt::status::{to_binder_result, ExceptionCode, ServiceError, Status, StatusCode};

fn parameters() -> VmParameters {
    let mut p = VmParameters::default();
    p.name = "trustedvm".to_string();
    p.enable = true;
    p.boot_operation = ControlState::Start;
    p.on_demand_start_supported = true;
    p
}

fn machine(p: VmParameters) -> VmInstance {
    VmInstance::new(p).0
}

fn refusal(vm: &VmInstance) -> (StatusCode, Option<String>) {
    match vm.start() {
        Err(Status { code, message }) => (code, message),
        Ok(step) => panic!("{:?}", step),
    }
}

const VM_START: StatusCode = StatusCode::Service(ServiceError::VmStart);

#[test]
fn new_machine() {
    let (vm, property) = VmInstance::new(parameters());
    assert_eq!(vm.get_state(), VmState::NotStarted);
    assert!(!vm.autostart_done);
    assert!(vm.virtual_machine_callbacks.is_empty());
    assert!(vm.death_recipients.is_empty());
    assert_eq!(vm.death_id, 0);
    assert_eq!(vm.vm_parameters.name, "trustedvm");
    assert_eq!(property.name, "vendor.qvirtmgr.trustedvm.status");
    assert_eq!(property.value, "NOT_STARTED");
}

#[test]
fn events_change_the_state() {
    let mut vm = machine(parameters());
    let n = vm.notify_clients("create");
    assert_eq!(n.state, VmState::Running);
    let property = n.property.unwrap();
    assert_eq!(property.name, "vendor.qvirtmgr.trustedvm.status");
    assert_eq!(property.value, "RUNNING");
    let n = vm.notify_clients("destroy");
    assert_eq!(n.state, VmState::Stopped);
    assert_eq!(n.property.unwrap().value, "STOPPED");
    assert_eq!(vm.get_state(), VmState::Stopped);
}

#[test]
fn other_events_change_nothing_but_are_told() {
    let mut vm = machine(parameters());
    vm.register_callback(3).unwrap();
    for event in ["", "Create", "restart"] {
        let n = vm.notify_clients(event);
        assert!(n.property.is_none());
        assert_eq!(n.state, VmState::NotStarted);
        assert_eq!(n.clients, vec![3]);
    }
}

#[test]
fn last_event_counts() {
    let mut vm = machine(parameters());
    for event in ["create", "destroy", "other", "create", "x"] {
        vm.notify_clients(event);
    }
    assert_eq!(vm.get_state(), VmState::Running);
}

#[test]
fn every_client_is_told_in_order() {
    let mut vm = machine(parameters());
    for client in [9, 2, 5] {
        vm.register_callback(client).unwrap();
    }
    assert_eq!(vm.notify_clients("create").clients, vec![9, 2, 5]);
}

#[test]
fn second_registration_is_refused() {
    let mut vm = machine(parameters());
    assert_eq!(vm.register_callback(1).unwrap(), 0);
    vm.callback_linked(0, 1, true);
    let e = vm.register_callback(1).unwrap_err();
    assert_eq!(e.code, StatusCode::Exception(ExceptionCode::IllegalArgument));
    assert_eq!(e.message.as_deref(), Some("The callback is already registered"));
    assert_eq!(vm.virtual_machine_callbacks, vec![1]);
    assert_eq!(vm.death_id, 1);
    assert_eq!(vm.register_callback(2).unwrap(), 1);
}

#[test]
fn death_undoes_a_registration() {
    let mut vm = machine(parameters());
    for client in [7, 8, 9] {
        let id = vm.register_callback(client).unwrap();
        vm.callback_linked(id, client, true);
    }
    vm.client_died(1, 8);
    assert_eq!(vm.virtual_machine_callbacks, vec![7, 9]);
    assert_eq!(vm.death_recipients.len(), 2);
    assert_eq!(vm.death_recipients.get(&0), Some(&7));
    assert_eq!(vm.death_recipients.get(&1), None);
    assert_eq!(vm.death_recipients.get(&2), Some(&9));
    assert_eq!(vm.register_callback(8).unwrap(), 3);
}

#[test]
fn unknown_client_can_die() {
    let mut vm = machine(parameters());
    let id = vm.register_callback(7).unwrap();
    vm.callback_linked(id, 7, true);
    vm.client_died(id, 100);
    assert_eq!(vm.virtual_machine_callbacks, vec![7]);
    assert!(vm.death_recipients.is_empty());
}

#[test]
fn client_stays_registered_where_no_recipient_can_be_linked() {
    let mut vm = machine(parameters());
    let id = vm.register_callback(7).unwrap();
    vm.callback_linked(id, 7, false);
    assert_eq!(vm.virtual_machine_callbacks, vec![7]);
    assert!(vm.death_recipients.is_empty());
    assert!(vm.register_callback(7).is_err());
}

#[test]
fn recipients_never_outnumber_clients() {
    let mut vm = machine(parameters());
    for (client, linked) in [(1, true), (2, false), (1, true), (3, true)] {
        if let Ok(id) = vm.register_callback(client) {
            vm.callback_linked(id, client, linked);
        }
        assert!(vm.death_recipients.len() <= vm.virtual_machine_callbacks.len());
    }
    assert_eq!((vm.death_recipients.len(), vm.virtual_machine_callbacks.len()), (2, 3));
    vm.client_died(0, 1);
    assert_eq!((vm.death_recipients.len(), vm.virtual_machine_callbacks.len()), (1, 2));
}

#[test]
fn only_registrations_use_numbers_up() {
    let mut vm = machine(parameters());
    for event in ["create", "destroy", "x"] {
        vm.notify_clients(event);
    }
    vm.give_up_autostart();
    assert_eq!(vm.death_id, 0);
    vm.register_callback(1).unwrap();
    assert!(vm.register_callback(1).is_err());
    assert_eq!(vm.death_id, 1);
}

#[test]
fn numbers_start_over() {
    let mut vm = machine(parameters());
    vm.death_id = usize::MAX;
    assert_eq!(vm.register_callback(1).unwrap(), usize::MAX);
    assert_eq!(vm.register_callback(2).unwrap(), 0);
}

#[test]
fn start_boots() {
    let vm = machine(parameters());
    match vm.start() {
        Ok(BootStep::Spawn { boot_try, args }) => {
            assert_eq!(boot_try, 1);
            assert_eq!(args, vec!["/system_ext/bin/qcrosvm", "--vm=trustedvm"]);
        }
        other => panic!("{:?}", other),
    }
}

#[test]
fn start_of_a_running_machine_does_nothing() {
    let mut vm = machine(parameters());
    vm.notify_clients("create");
    assert!(matches!(vm.start(), Ok(BootStep::Done(Ok(0)))));
    assert!(matches!(vm.launch_vm(), BootStep::Done(Ok(0))));
}

#[test]
fn start_is_refused_without_support() {
    let unsupported = (StatusCode::Exception(ExceptionCode::UnsupportedOperation), None);
    let mut p = parameters();
    p.enable = false;
    assert_eq!(refusal(&machine(p)), unsupported);
    let mut p = parameters();
    p.on_demand_start_supported = false;
    p.autostart = true;
    assert_eq!(refusal(&machine(p)), unsupported);
}

#[test]
fn start_is_refused_while_the_autostart_goes_on() {
    let mut p = parameters();
    p.autostart = true;
    let mut vm = machine(p);
    let words = "autostart enabled for this VM, requested start while bootup ongoing";
    assert_eq!(refusal(&vm), (VM_START, Some(words.to_string())));
    vm.give_up_autostart();
    assert!(vm.start().is_ok());
    let mut p = parameters();
    p.autostart = true;
    p.no_fs_dependency = true;
    assert!(machine(p).start().is_ok());
}

#[test]
fn start_of_a_stopped_machine_is_refused() {
    let mut vm = machine(parameters());
    vm.notify_clients("destroy");
    let words = "Cannot start a Vm which is in STOPPED state.";
    assert_eq!(refusal(&vm), (VM_START, Some(words.to_string())));
    vm.notify_clients("create");
    assert!(vm.start().is_ok());
}

#[test]
fn autostart_is_over_after_the_launch() {
    let mut vm = machine(parameters());
    assert!(matches!(vm.launch_autostart_vm(), BootStep::Spawn { boot_try: 1, .. }));
    assert!(vm.autostart_done);
}

#[test]
fn answers_to_a_start() {
    assert!(start_answer(Ok(5)).is_ok());
    let e = start_answer(Err(LaunchError::ForkFailed)).unwrap_err();
    assert_eq!(e.code, VM_START);
    assert_eq!(e.message.as_deref(), Some("Fork failed"));
    let e = start_answer(Err(LaunchError::ExitedUnexpectedly)).unwrap_err();
    assert_eq!(e.message.as_deref(), Some("qcrosvm exited unexpectedly"));
}

#[test]
fn lock_that_cannot_be_had() {
    let e = internal_error();
    assert_eq!(e.code, StatusCode::Exception(ExceptionCode::ServiceSpecific));
    assert_eq!(e.message.as_deref(), Some("Internal Error"));
}

#[test]
fn failures_known_by_their_description() {
    assert_eq!(to_binder_result(Ok::<u8, String>(3)).unwrap(), 3);
    let e = to_binder_result(Err::<u8, String>("Os { code: 2 }".to_string())).unwrap_err();
    assert_eq!(e.code, StatusCode::Service(ServiceError::Number(-1)));
    assert_eq!(e.message.as_deref(), Some("Os { code: 2 }"));
}
