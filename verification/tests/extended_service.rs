use qvirt::json::JsonValue;
use qvirt::qvirtservice::config::ConfigError;
use qvirt::qvirtservice_ext::virtualization_service::{
    after_launch, parse_vm_config_file, put, vm_parameters_list, AutostartStep, FollowUp, Launched,
    UeventInfo, VirtualizationService, VmParameters, VENDOR_CONFIG_FILE,
};
use qvirt::status::{ExceptionCode, StatusCode};

fn machine(name: &str, enable: bool, autostart: bool, timeout: u16) -> VmParameters {
    VmParameters {
        name: name.to_string(),
        enable,
        no_fs_dependency: false,
        fs_dependency_timeout: timeout,
        fs_dependency_prop: format!("prop.{}", name),
        autostart,
        vm_ssr_enable: false,
        vm_autoshutdown_enable: false,
    }
}

#[test]
fn machines_are_created_at_the_place_of_their_name() {
    let setup = VirtualizationService::virtualization_service(vec![
        machine("a", true, false, 1),
        machine("b", true, false, 2),
        machine("a", true, true, 3),
    ]);
    let mut machines: Vec<u16> = Vec::new();
    for (place, p) in &setup.created {
        put(&mut machines, *place, p.fs_dependency_timeout);
    }
    assert_eq!(machines, vec![3, 2]);
    let created: Vec<(usize, &str, u16)> = setup
        .created
        .iter()
        .map(|(i, p)| (*i, p.name.as_str(), p.fs_dependency_timeout))
        .collect();
    assert_eq!(created, vec![(0, "a", 1), (1, "b", 2), (0, "a", 3)]);
    let known: Vec<(&str, usize, bool, u16)> = setup
        .service
        .vm_instance_map
        .iter()
        .map(|w| (w.name.as_str(), w.instance, w.enabled, w.fs_dependency_timeout))
        .collect();
    assert_eq!(known, vec![("a", 0, true, 3), ("b", 1, true, 2)]);
    assert_eq!(VENDOR_CONFIG_FILE, "/vendor/etc/qvirtmgr-vndr.json");
}

#[test]
fn autostart_takes_the_dependency_of_its_entry_and_the_last_timeout() {
    let setup = VirtualizationService::virtualization_service(vec![
        machine("a", true, true, 1),
        machine("b", false, true, 2),
        machine("a", false, false, 3),
    ]);
    assert_eq!(setup.autostart.len(), 1);
    let a = &setup.autostart[0];
    assert_eq!(a.instance, 0);
    assert_eq!(a.fs_dependency.fs_dependency_prop, "prop.a");
    assert!(!a.fs_dependency.no_fs_dependency);
    assert_eq!(a.fs_dependency_timeout, 3);
}

#[test]
fn autostart_that_depends_on_a_property() {
    let setup = VirtualizationService::virtualization_service(vec![machine("a", true, true, 9)]);
    let a = &setup.autostart[0];
    assert!(matches!(a.begin(), AutostartStep::Watch { property } if property == "prop.a"));
    match a.after_watch(true) {
        AutostartStep::Wait(w) => {
            assert_eq!((w.property.as_str(), w.value.as_str(), w.seconds), ("prop.a", "1", 9));
        }
        other => panic!("{:?}", other),
    }
    assert!(matches!(a.after_watch(false), AutostartStep::GiveUp));
    assert!(matches!(a.after_wait(true), AutostartStep::Launch));
    assert!(matches!(a.after_wait(false), AutostartStep::GiveUp));
}

#[test]
fn autostart_that_depends_on_nothing() {
    let mut p = machine("a", true, true, 9);
    p.no_fs_dependency = true;
    let setup = VirtualizationService::virtualization_service(vec![p]);
    assert!(matches!(setup.autostart[0].begin(), AutostartStep::Launch));
}

#[test]
fn what_follows_a_launch() {
    let launched = |vm_ssr_enable, vm_autoshutdown_enable, autostart_done| {
        Some(Launched { vm_ssr_enable, vm_autoshutdown_enable, autostart_done })
    };
    let follow = |connect, auto_shutdown| FollowUp { connect, auto_shutdown };
    assert_eq!(after_launch(true, launched(true, true, true)), follow(true, true));
    assert_eq!(after_launch(true, launched(true, true, false)), follow(false, false));
    assert_eq!(after_launch(false, launched(true, true, false)), follow(true, true));
    assert_eq!(after_launch(false, launched(true, false, true)), follow(true, false));
    assert_eq!(after_launch(false, launched(false, true, true)), follow(false, false));
    assert_eq!(after_launch(false, None), follow(false, false));
}

#[test]
fn extended_service_hands_out_enabled_machines() {
    let setup = VirtualizationService::virtualization_service(vec![
        machine("a", true, false, 1),
        machine("b", false, false, 1),
    ]);
    assert_eq!(setup.service.get_vm("a").unwrap(), 0);
    let e = setup.service.get_vm("b").unwrap_err();
    assert_eq!(e.code, StatusCode::Exception(ExceptionCode::UnsupportedOperation));
    assert_eq!(e.message.as_deref(), Some("enable bit false."));
    let e = setup.service.get_vm("c").unwrap_err();
    assert_eq!(e.code, StatusCode::Exception(ExceptionCode::IllegalArgument));
    assert_eq!(e.message.as_deref(), Some("Invalid name"));
}

#[test]
fn extended_service_passes_events_on_with_their_reason() {
    let setup = VirtualizationService::virtualization_service(vec![machine("a", true, false, 1)]);
    let d = setup
        .service
        .handle_uevent_event(b"EVENT=destroy\0vm_name=a\0vm_exit=17".to_vec())
        .unwrap();
    assert_eq!((d.instance, d.event.as_str(), d.event_reason.as_str()), (0, "destroy", "17"));
    let d = setup.service.handle_uevent_event(b"vm_name=a".to_vec()).unwrap();
    assert_eq!((d.event.as_str(), d.event_reason.as_str()), ("", "0"));
    assert!(setup.service.handle_uevent_event(b"EVENT=destroy".to_vec()).is_none());
    assert!(setup.service.handle_uevent_event(b"vm_name=b".to_vec()).is_none());
}

#[test]
fn message_without_a_name_reaches_a_machine_without_a_name() {
    let setup = VirtualizationService::virtualization_service(vec![machine("", true, false, 1)]);
    assert_eq!(setup.service.handle_uevent_event(Vec::new()).unwrap().instance, 0);
}

#[test]
fn what_a_message_says() {
    let info = UeventInfo::new("a".to_string(), "create".to_string(), 5);
    assert_eq!(info.vm_name, "a");
    assert_eq!(info.event, "create");
    assert_eq!(info.event_reason, 5);
}

#[test]
fn entries_of_the_extended_configuration() {
    let content = b"{\"qvirtmgr\": {\"vm_config\": [{\"name\": \"a\"}, 3]}}";
    let entries = parse_vm_config_file(content).unwrap();
    assert_eq!(entries.len(), 2);
    assert!(matches!(entries[0].get("name"), Some(JsonValue::Str(s)) if s == "a"));
    assert!(matches!(parse_vm_config_file(b"{}"), Err(ConfigError::Invalid)));
    match parse_vm_config_file(b"{\"a\":1e999}") {
        Err(e) => {
            assert_eq!(e.text(), "Error parsing JSON: number out of range at line 1 column 11")
        }
        Ok(_) => panic!("no document"),
    }
    match parse_vm_config_file(b"") {
        Err(e) => assert_eq!(
            e.text(),
            "Error parsing JSON: EOF while parsing a value at line 1 column 0"
        ),
        Ok(_) => panic!("no document"),
    }
}

#[test]
fn entries_that_cannot_be_read_are_skipped() {
    let list = vm_parameters_list(vec![
        None,
        Some(machine("a", true, false, 1)),
        None,
        Some(machine("b", true, false, 1)),
    ]);
    assert_eq!(list.len(), 2);
    assert_eq!(list[0].name, "a");
    assert_eq!(list[1].name, "b");
}
