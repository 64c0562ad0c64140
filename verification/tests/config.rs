use qvirt::json::{parse, JsonValue};
use qvirt::qvirtservice::config::{
    disk_from_json, entry_name, parameters_from_json, parse_vm_config_file, vm_config_entries,
    vm_parameters_list, ConfigError,
};
use qvirt::qvirtservice::parameters::{
    boot_complete_timeout_default, ControlState, DiskProperties, VmParameters,
};

const FULL: &str = r#"{
    "name": "trustedvm", "enable": true, "boot_ops": "start",
    "disk": [
        {"image": "/dev/block/a", "label": 16, "read_write": true},
        {"image": "/dev/block/b", "label": 4294967295, "read_write": false, "more": 1}
    ],
    "try_count": 3, "boot_wait_time": 255, "boot_complete_timeout": 65535,
    "no_fs_dependency": true, "autostart": true, "on_demand_start_supported": true
}"#;

const SMALL: &str = r#"{"name": "small", "enable": false, "boot_ops": "create",
    "boot_wait_time": 1, "no_fs_dependency": false, "autostart": false}"#;

fn json(text: &str) -> JsonValue {
    parse(text.as_bytes()).unwrap()
}

fn read(text: &str) -> Option<VmParameters> {
    parameters_from_json(&json(text))
}

fn small_with(extra: &str) -> Option<VmParameters> {
    read(&SMALL.replacen('{', &format!("{{{}, ", extra), 1))
}

fn file(entries: &str) -> String {
    format!("{{\"qvirtmgr\": {{\"version\": 1, \"vm_config\": [{}]}}}}", entries)
}

#[test]
fn full_entry() {
    let p = read(FULL).unwrap();
    assert_eq!(p.name, "trustedvm");
    assert!(p.enable);
    assert!(!p.legacy);
    assert_eq!(p.boot_operation, ControlState::Start);
    assert_eq!(p.disk.len(), 2);
    assert_eq!(p.disk[0].image, "/dev/block/a");
    assert_eq!(p.disk[0].label, 16);
    assert!(p.disk[0].read_write);
    assert_eq!(p.disk[1].image, "/dev/block/b");
    assert_eq!(p.disk[1].label, u32::MAX);
    assert!(!p.disk[1].read_write);
    assert_eq!(p.try_count, 3);
    assert_eq!(p.boot_wait_time, 255);
    assert_eq!(p.boot_complete_timeout, 65535);
    assert!(p.no_fs_dependency);
    assert!(p.autostart);
    assert!(p.on_demand_start_supported);
}

#[test]
fn what_may_be_missing() {
    let p = read(SMALL).unwrap();
    assert_eq!(p.name, "small");
    assert!(p.disk.is_empty());
    assert_eq!(p.try_count, 0);
    assert_eq!(p.boot_complete_timeout, 60);
    assert_eq!(boot_complete_timeout_default(), 60);
    assert!(!p.on_demand_start_supported);
}

#[test]
fn what_may_not_be_missing() {
    for field in ["name", "enable", "boot_ops", "boot_wait_time", "no_fs_dependency", "autostart"] {
        let renamed = SMALL.replace(&format!("\"{}\"", field), "\"other\"");
        assert!(read(&renamed).is_none(), "{}", field);
    }
}

#[test]
fn legacy_is_not_read() {
    assert!(!small_with("\"legacy\": true").unwrap().legacy);
    assert!(!small_with("\"legacy\": \"x\"").unwrap().legacy);
}

#[test]
fn unknown_members_are_ignored() {
    assert_eq!(small_with("\"unknown\": [1, {}]").unwrap().name, "small");
}

#[test]
fn numbers_have_to_fit() {
    assert_eq!(small_with("\"try_count\": 255").unwrap().try_count, 255);
    assert!(small_with("\"try_count\": 256").is_none());
    assert!(small_with("\"try_count\": -1").is_none());
    assert!(small_with("\"try_count\": 1.0").is_none());
    assert!(small_with("\"try_count\": \"1\"").is_none());
    assert!(small_with("\"try_count\": null").is_none());
    assert!(small_with("\"boot_complete_timeout\": 65536").is_none());
    assert!(small_with("\"on_demand_start_supported\": 1").is_none());
}

#[test]
fn operations_by_name() {
    for (name, state) in [
        ("create", ControlState::Create),
        ("start", ControlState::Start),
        ("stop", ControlState::Stop),
        ("restart", ControlState::Restart),
        ("panic", ControlState::Panic),
    ] {
        assert_eq!(name.parse::<ControlState>(), Ok(state));
        let entry = SMALL.replace("\"create\"", &format!("\"{}\"", name));
        assert_eq!(read(&entry).unwrap().boot_operation, state);
    }
    assert_eq!("not_supported".parse::<ControlState>(), Err(()));
    assert_eq!("Start".parse::<ControlState>(), Err(()));
    let entry = SMALL.replace("\"create\"", "\"not_supported\"");
    assert_eq!(read(&entry).unwrap().boot_operation, ControlState::NotSupported);
    assert!(read(&SMALL.replace("\"create\"", "\"Create\"")).is_none());
    assert!(read(&SMALL.replace("\"create\"", "1")).is_none());
    assert_eq!(ControlState::default(), ControlState::Create);
}

#[test]
fn operation_as_an_object() {
    let entry = SMALL.replace("\"create\"", "{\"stop\": null}");
    assert_eq!(read(&entry).unwrap().boot_operation, ControlState::Stop);
    assert!(read(&SMALL.replace("\"create\"", "{\"stop\": 1}")).is_none());
    assert!(read(&SMALL.replace("\"create\"", "{}")).is_none());
    assert!(read(&SMALL.replace("\"create\"", "{\"stop\": null, \"start\": null}")).is_none());
}

#[test]
fn entry_as_a_list() {
    let p = read("[\"vm\", true, \"start\", [[\"img\", 1, true]], 2, 3, 4, true, false]").unwrap();
    assert_eq!(p.name, "vm");
    assert_eq!(p.boot_operation, ControlState::Start);
    assert_eq!(p.disk[0].image, "img");
    assert_eq!(p.try_count, 2);
    assert_eq!(p.boot_wait_time, 3);
    assert_eq!(p.boot_complete_timeout, 4);
    assert!(p.no_fs_dependency);
    assert!(!p.autostart);
    assert!(!p.on_demand_start_supported);
    let p = read("[\"vm\", true, \"start\", [], 2, 3, 4, true, false, true]").unwrap();
    assert!(p.on_demand_start_supported);
    assert!(read("[\"vm\", true, \"start\", [], 2, 3, 4, true, false, true, 0]").is_none());
    assert!(read("[\"vm\", true, \"start\", [], 2, 3, 4, true]").is_none());
}

#[test]
fn disks() {
    let d: DiskProperties =
        disk_from_json(&json("{\"image\": \"i\", \"label\": 0, \"read_write\": false}")).unwrap();
    assert_eq!(d.image, "i");
    assert!(disk_from_json(&json("{\"image\": \"i\", \"label\": 0}")).is_none());
    assert!(disk_from_json(&json("{\"label\": 0, \"read_write\": false}")).is_none());
    assert!(disk_from_json(&json("[\"i\", 4294967296, false]")).is_none());
    assert!(disk_from_json(&json("[\"i\", 1, false, 1]")).is_none());
    assert!(disk_from_json(&json("null")).is_none());
    assert!(small_with("\"disk\": [{}]").is_none());
    assert!(small_with("\"disk\": {}").is_none());
    let d = DiskProperties::default();
    assert_eq!((d.image.as_str(), d.label, d.read_write), ("", 0, false));
}

#[test]
fn empty_parameters() {
    let p = VmParameters::default();
    assert_eq!(p.name, "");
    assert_eq!(p.boot_operation, ControlState::Create);
    assert_eq!(p.boot_complete_timeout, 0);
    assert!(p.disk.is_empty());
    assert!(!p.enable && !p.legacy && !p.no_fs_dependency && !p.autostart);
    assert_eq!((p.try_count, p.boot_wait_time), (0, 0));
}

#[test]
fn malformed_entries_are_skipped() {
    let content = file(&format!("{}, 1, {{\"name\": \"bad\"}}, {}", FULL, SMALL));
    let list = parse_vm_config_file(content.as_bytes()).unwrap();
    assert_eq!(list.len(), 2);
    assert_eq!(list[0].name, "trustedvm");
    assert_eq!(list[1].name, "small");
}

#[test]
fn names_of_malformed_entries() {
    assert_eq!(entry_name(&json("{\"name\": \"bad\"}")), "bad");
    assert_eq!(entry_name(&json("{\"name\": 1}")), "No Name Specified");
    assert_eq!(entry_name(&json("[\"bad\"]")), "No Name Specified");
}

#[test]
fn configuration_without_machines() {
    assert_eq!(parse_vm_config_file(file("").as_bytes()).unwrap().len(), 0);
    for content in [
        "{}",
        "[]",
        "{\"qvirtmgr\": []}",
        "{\"qvirtmgr\": {}}",
        "{\"qvirtmgr\": {\"vm_config\": {}}}",
        "null",
    ] {
        let e = parse_vm_config_file(content.as_bytes()).unwrap_err();
        assert!(matches!(e, ConfigError::Invalid));
        assert_eq!(e.text(), "VM Configuration is invalid.");
        assert!(matches!(vm_config_entries(json(content)), Err(ConfigError::Invalid)));
        assert!(matches!(vm_parameters_list(json(content)), Err(ConfigError::Invalid)));
    }
}

#[test]
fn text_that_is_no_document() {
    let e = parse_vm_config_file(b"{").unwrap_err();
    assert!(matches!(e, ConfigError::Syntax(_)));
    assert_eq!(e.text(), "Error parsing JSON: EOF while parsing an object at line 1 column 1");
    let e = parse_vm_config_file(b"{\"a\":1e999}").unwrap_err();
    assert_eq!(e.text(), "Error parsing JSON: number out of range at line 1 column 11");
    assert!(matches!(parse_vm_config_file(b"{} {}"), Err(ConfigError::Syntax(_))));
    assert!(matches!(parse_vm_config_file(b"\"\xff\""), Err(ConfigError::Syntax(_))));
    assert!(matches!(parse_vm_config_file(b"{}"), Err(ConfigError::Invalid)));
    assert_eq!(parse_vm_config_file(file(SMALL).as_bytes()).unwrap()[0].name, "small");
}

#[test]
fn documents_as_plain_values() {
    let v = json("{\"a\": [null, true, \"x\\u00e9\", -3, 7, 1.5, {}], \"b\": 18446744073709551615}");
    assert!(v.get("c").is_none());
    match v.get("b") {
        Some(JsonValue::Number(n)) => {
            assert_eq!(n.unsigned, Some(u64::MAX));
            assert_eq!(n.signed, None);
            assert_eq!(n.notation, "18446744073709551615");
        }
        other => panic!("{:?}", other),
    }
    let list = v.take("a").unwrap().into_array().unwrap();
    assert_eq!(list.len(), 7);
    assert!(matches!(list[0], JsonValue::Null));
    assert!(matches!(list[1], JsonValue::Bool(true)));
    assert!(matches!(&list[2], JsonValue::Str(s) if s == "x\u{e9}"));
    match &list[3] {
        JsonValue::Number(n) => {
            assert_eq!((n.unsigned, n.signed, n.notation.as_str()), (None, Some(-3), "-3"));
        }
        other => panic!("{:?}", other),
    }
    match &list[4] {
        JsonValue::Number(n) => assert_eq!((n.unsigned, n.signed), (Some(7), Some(7))),
        other => panic!("{:?}", other),
    }
    match &list[5] {
        JsonValue::Number(n) => {
            assert_eq!((n.unsigned, n.signed, n.notation.as_str()), (None, None, "1.5"));
        }
        other => panic!("{:?}", other),
    }
    assert!(matches!(&list[6], JsonValue::Object(m) if m.is_empty()));
}

#[test]
fn repeated_members_count_once() {
    let v = json("{\"a\": 1, \"a\": true}");
    assert!(matches!(v.get("a"), Some(JsonValue::Bool(true))));
    assert!(json("[1]").get("a").is_none());
    assert!(json("1").take("a").is_none());
    assert!(json("{}").into_array().is_none());
}
