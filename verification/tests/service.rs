use qvirt::qvirtservice::boot::BootStep;
use qvirt::qvirtservice::parameters::{ControlState, VmParameters};
use qvirt::qvirtservice::virtual_machine::VmState;
use qvirt::qvirtservice::virtualization_service::{
    autostart_after_wait, hand_out, message_waits, Autostart, VirtualizationService,
    BOOT_COMPLETE_PROP, VENDOR_CONFIG_FILE,
};
use qvirt::status::{ExceptionCode, StatusCode};

fn machine(name: &str, enable: bool, autostart: bool, timeout: u16) -> VmParameters {
    let mut p = VmParameters::default();
    p.name = name.to_string();
    p.enable = enable;
    p.autostart = autostart;
    p.boot_complete_timeout = timeout;
    p.boot_operation = ControlState::Start;
    p
}

fn refusal(service: &VirtualizationService, name: &str) -> (StatusCode, String) {
    let e = service.get_vm(name).unwrap_err();
    (e.code, e.message.unwrap())
}

#[test]
fn machines_are_set_up_in_order() {
    let setup = VirtualizationService::virtualization_service(vec![
        machine("a", true, false, 1),
        machine("b", false, false, 2),
    ]);
    let known: Vec<(&str, usize, bool, u16)> = setup
        .service
        .vm_instance_map
        .iter()
        .map(|w| (w.name.as_str(), w.instance, w.enabled, w.boot_complete_timeout))
        .collect();
    assert_eq!(known, vec![("a", 0, true, 1), ("b", 1, false, 2)]);
    assert_eq!(setup.instances.len(), 2);
    assert_eq!(setup.instances[1].vm_parameters.name, "b");
    assert_eq!(setup.instances[1].vm_state, VmState::NotStarted);
    let published: Vec<(&str, &str)> =
        setup.properties.iter().map(|p| (p.name.as_str(), p.value.as_str())).collect();
    assert_eq!(
        published,
        vec![
            ("vendor.qvirtmgr.a.status", "NOT_STARTED"),
            ("vendor.qvirtmgr.b.status", "NOT_STARTED"),
        ]
    );
    assert!(setup.autostart.is_empty());
}

#[test]
fn later_machine_of_a_name_counts() {
    let setup = VirtualizationService::virtualization_service(vec![
        machine("a", true, false, 1),
        machine("b", true, false, 2),
        machine("a", false, false, 3),
    ]);
    assert_eq!(setup.instances.len(), 2);
    assert_eq!(setup.instances[0].vm_parameters.boot_complete_timeout, 3);
    assert_eq!(setup.properties.len(), 3);
    assert_eq!(setup.service.get_vm("b").unwrap(), 1);
    assert_eq!(
        refusal(&setup.service, "a"),
        (
            StatusCode::Exception(ExceptionCode::UnsupportedOperation),
            "enable bit false.".to_string()
        )
    );
}

#[test]
fn autostart_needs_both_flags() {
    let mut eager = machine("c", true, true, 30);
    eager.no_fs_dependency = true;
    let setup = VirtualizationService::virtualization_service(vec![
        machine("a", true, false, 10),
        machine("b", false, true, 20),
        eager,
        machine("d", true, true, 40),
    ]);
    assert_eq!(
        setup.autostart,
        vec![
            Autostart { instance: 2, no_fs_dependency: true, boot_complete_timeout: 30 },
            Autostart { instance: 3, no_fs_dependency: false, boot_complete_timeout: 40 },
        ]
    );
}

#[test]
fn autostart_of_a_name_that_is_configured_again() {
    let setup = VirtualizationService::virtualization_service(vec![
        machine("a", true, true, 10),
        machine("a", false, false, 20),
    ]);
    assert_eq!(
        setup.autostart,
        vec![Autostart { instance: 0, no_fs_dependency: false, boot_complete_timeout: 20 }]
    );
}

#[test]
fn autostart_waits_for_the_host() {
    let a = Autostart { instance: 0, no_fs_dependency: false, boot_complete_timeout: 7 };
    let w = a.wait().unwrap();
    assert_eq!(w.property, "sys.boot_completed");
    assert_eq!(BOOT_COMPLETE_PROP, "sys.boot_completed");
    assert_eq!(w.value, "1");
    assert_eq!(w.seconds, 7);
    let a = Autostart { instance: 0, no_fs_dependency: true, boot_complete_timeout: 7 };
    assert!(a.wait().is_none());
}

#[test]
fn autostart_in_time_and_too_late() {
    let mut setup =
        VirtualizationService::virtualization_service(vec![machine("a", true, true, 1)]);
    let step = autostart_after_wait(&mut setup.instances[0], true);
    assert!(matches!(step, Some(BootStep::Spawn { boot_try: 1, .. })));
    assert!(setup.instances[0].autostart_done);
    let mut setup =
        VirtualizationService::virtualization_service(vec![machine("a", true, true, 1)]);
    assert!(autostart_after_wait(&mut setup.instances[0], false).is_none());
    assert!(setup.instances[0].autostart_done);
}

#[test]
fn machines_are_handed_out_by_name() {
    let setup = VirtualizationService::virtualization_service(vec![
        machine("a", true, false, 1),
        machine("b", true, false, 1),
    ]);
    assert_eq!(setup.service.get_vm("a").unwrap(), 0);
    assert_eq!(setup.service.get_vm("b").unwrap(), 1);
    let invalid =
        (StatusCode::Exception(ExceptionCode::IllegalArgument), "Invalid name".to_string());
    assert_eq!(refusal(&setup.service, "c"), invalid);
    assert_eq!(refusal(&setup.service, ""), invalid);
    assert_eq!(hand_out(Some((4, true))).unwrap(), 4);
}

#[test]
fn events_reach_the_named_machine() {
    let setup = VirtualizationService::virtualization_service(vec![
        machine("a", true, false, 1),
        machine("b", false, false, 1),
    ]);
    assert_eq!(
        setup.service.handle_uevent_event(b"EVENT=create\0vm_name=b".to_vec()),
        Some((1, "create".to_string()))
    );
    assert_eq!(setup.service.handle_uevent_event(b"EVENT=create\0vm_name=c".to_vec()), None);
    assert_eq!(setup.service.handle_uevent_event(b"EVENT=create".to_vec()), None);
    assert_eq!(setup.service.handle_uevent_event(vec![0xc3]), None);
}

#[test]
fn service_without_machines() {
    let setup = VirtualizationService::virtualization_service(Vec::new());
    assert!(setup.instances.is_empty() && setup.properties.is_empty());
    assert!(setup.service.get_vm("a").is_err());
    assert_eq!(VENDOR_CONFIG_FILE, "/vendor/etc/qvirtmgr-vndr.json");
}

#[test]
fn messages_to_receive() {
    assert!(message_waits(Some(1), true));
    assert!(message_waits(Some(0), true));
    assert!(!message_waits(Some(1), false));
    assert!(!message_waits(Some(-1), true));
    assert!(!message_waits(None, true));
}
