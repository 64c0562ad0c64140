use qvirt::qvirtservice::virtualization_service::VirtualizationService;
use qvirt::qvirtservice_ext::virtualization_service::VirtualizationService as ExtService;
use qvirt::text::chars_of;
use qvirt::uevent::message_field;

fn parse(msg: &[u8]) -> Option<(String, String)> {
    VirtualizationService::parse_event(msg.to_vec())
}

fn pair(event: &str, vm_name: &str) -> Option<(String, String)> {
    Some((event.to_string(), vm_name.to_string()))
}

#[test]
fn event_and_name_are_found() {
    assert_eq!(
        parse(b"change@/devices/virtual/gunyah\0ACTION=change\0EVENT=create\0vm_name=trustedvm\0SEQNUM=7"),
        pair("create", "trustedvm")
    );
}

#[test]
fn order_of_the_fields_does_not_matter() {
    assert_eq!(parse(b"vm_name=a\0EVENT=destroy"), pair("destroy", "a"));
}

#[test]
fn last_field_of_a_key_counts() {
    assert_eq!(parse(b"EVENT=create\0vm_name=a\0EVENT=destroy\0vm_name=b"), pair("destroy", "b"));
}

#[test]
fn padding_and_empty_parts_are_ignored() {
    assert_eq!(parse(b"\0\0EVENT=create\0\0vm_name=a\0\0\0"), pair("create", "a"));
}

#[test]
fn only_the_first_equals_sign_separates() {
    assert_eq!(parse(b"EVENT=a=b\0vm_name==c"), pair("a=b", "=c"));
}

#[test]
fn empty_values_are_values() {
    assert_eq!(parse(b"EVENT=\0vm_name="), pair("", ""));
}

#[test]
fn both_fields_are_needed() {
    assert_eq!(parse(b"EVENT=create"), None);
    assert_eq!(parse(b"vm_name=a"), None);
    assert_eq!(parse(b"EVENT\0vm_name=a"), None);
    assert_eq!(parse(b""), None);
}

#[test]
fn keys_are_compared_whole() {
    assert_eq!(parse(b"XEVENT=create\0vm_name=a"), None);
    assert_eq!(parse(b"event=create\0vm_name=a"), None);
    assert_eq!(parse(b"EVENT =create\0vm_name=a"), None);
}

#[test]
fn messages_that_are_no_text_tell_nothing() {
    assert_eq!(parse(b"EVENT=create\0vm_name=\xff"), None);
    assert_eq!(parse("EVENT=create\0vm_name=\u{e9}".as_bytes()), pair("create", "\u{e9}"));
}

#[test]
fn fields_are_read_one_by_one() {
    let msg = chars_of("A=1\0B\0=x\0A=2");
    assert_eq!(message_field(&msg, "A"), Some("2".to_string()));
    assert_eq!(message_field(&msg, "B"), None);
    assert_eq!(message_field(&msg, ""), Some("x".to_string()));
}

#[test]
fn extended_service_reads_the_reason() {
    let info = ExtService::parse_event(b"EVENT=destroy\0vm_name=a\0vm_exit=42".to_vec()).unwrap();
    assert_eq!(info.event, "destroy");
    assert_eq!(info.vm_name, "a");
    assert_eq!(info.event_reason, 42);
}

#[test]
fn extended_service_fills_in_what_is_missing() {
    let info = ExtService::parse_event(b"ACTION=change\0vm_exit=-1".to_vec()).unwrap();
    assert_eq!(info.event, "");
    assert_eq!(info.vm_name, "");
    assert_eq!(info.event_reason, 0);
    let info = ExtService::parse_event(b"vm_exit=4294967296".to_vec()).unwrap();
    assert_eq!(info.event_reason, 0);
    assert!(ExtService::parse_event(vec![0xff]).is_none());
}

#[test]
fn both_services_read_the_same_event() {
    for msg in [&b"EVENT=create\0vm_name=a"[..], b"vm_name=x\0EVENT=\0EVENT=y\0vm_exit=3"] {
        let (event, vm_name) = parse(msg).unwrap();
        let info = ExtService::parse_event(msg.to_vec()).unwrap();
        assert_eq!(info.event, event);
        assert_eq!(info.vm_name, vm_name);
    }
}
