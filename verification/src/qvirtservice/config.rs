//! The configuration of the virtual machines: a JSON document whose member `qvirtmgr`
//! holds the list `vm_config`, one entry for each machine.
use crate::json;
use crate::json::{JsonTree, JsonValue};
use crate::qvirtservice::parameters;
use crate::qvirtservice::parameters::{
    ControlState, DiskProperties, DiskView, ParametersView, VmParameters,
    DEFAULT_BOOT_COMPLETE_TIMEOUT,
};
use crate::status;
use crate::text;
use vstd::prelude::*;
use vstd::string::StringExecFns;

verus! {

/// The text of a JSON string.
pub open spec fn text_of(t: JsonTree) -> Option<Seq<char>> {
    match t {
        JsonTree::Str(s) => Some(s),
        _ => None,
    }
}

/// The truth value of a JSON boolean.
pub open spec fn bool_of(t: JsonTree) -> Option<bool> {
    match t {
        JsonTree::Bool(b) => Some(b),
        _ => None,
    }
}

/// The value of a JSON number that is a natural number up to `max`.
pub open spec fn nat_of(t: JsonTree, max: nat) -> Option<nat> {
    match t {
        JsonTree::Number(n) => match n.unsigned {
            Some(u) => if u <= max {
                Some(u as nat)
            } else {
                None
            },
            None => None,
        },
        _ => None,
    }
}

/// A record of `n` fields is an object, or an array that holds the fields in order and
/// may end before the last one.
pub open spec fn is_record(t: JsonTree, n: nat) -> bool {
    match t {
        JsonTree::Object(_) => true,
        JsonTree::Array(a) => a.len() <= n,
        _ => false,
    }
}

/// The field of a record, by its name in an object and by its place in an array.
pub open spec fn field(t: JsonTree, name: Seq<char>, place: nat) -> Option<JsonTree> {
    match t {
        JsonTree::Object(members) => json::member_in(members, name),
        JsonTree::Array(a) => if place < a.len() {
            Some(a[place as int])
        } else {
            None
        },
        _ => None,
    }
}

/// A string field that has to be there.
pub open spec fn text_field(t: JsonTree, name: Seq<char>, place: nat) -> Option<Seq<char>> {
    match field(t, name, place) {
        Some(f) => text_of(f),
        None => None,
    }
}

/// A boolean field; where it is missing, `default` stands for it, if there is one.
pub open spec fn bool_field(
    t: JsonTree,
    name: Seq<char>,
    place: nat,
    default: Option<bool>,
) -> Option<bool> {
    match field(t, name, place) {
        Some(f) => bool_of(f),
        None => default,
    }
}

/// A numeric field; where it is missing, `default` stands for it, if there is one.
pub open spec fn nat_field(
    t: JsonTree,
    name: Seq<char>,
    place: nat,
    max: nat,
    default: Option<nat>,
) -> Option<nat> {
    match field(t, name, place) {
        Some(f) => nat_of(f, max),
        None => default,
    }
}

/// The operation of the given name in the configuration.
pub open spec fn operation(name: Seq<char>) -> Option<ControlState> {
    if name == "not_supported"@ {
        Some(ControlState::NotSupported)
    } else {
        parameters::control_state(name)
    }
}

/// An operation: its name, or an object whose only member has that name and is null.
pub open spec fn operation_of(t: JsonTree) -> Option<ControlState> {
    match t {
        JsonTree::Str(name) => operation(name),
        JsonTree::Object(members) => if members.len() == 1 && members[0].1 is Null {
            operation(members[0].0)
        } else {
            None
        },
        _ => None,
    }
}

/// An operation field that has to be there.
pub open spec fn operation_field(t: JsonTree, name: Seq<char>, place: nat) -> Option<
    ControlState,
> {
    match field(t, name, place) {
        Some(f) => operation_of(f),
        None => None,
    }
}

/// The disk that an entry describes; every field has to be there.
pub open spec fn disk_of(t: JsonTree) -> Option<DiskView> {
    match (
        text_field(t, "image"@, 0),
        nat_field(t, "label"@, 1, u32::MAX as nat, None),
        bool_field(t, "read_write"@, 2, None),
    ) {
        (Some(image), Some(label), Some(read_write)) => if is_record(t, 3) {
            Some(DiskView { image, label: label as u32, read_write })
        } else {
            None
        },
        _ => None,
    }
}

/// The disks that a list describes; each entry has to be a disk.
pub open spec fn disks_of(t: JsonTree) -> Option<Seq<DiskView>> {
    match t {
        JsonTree::Array(a) => if forall|i: int| 0 <= i < a.len() ==> disk_of(#[trigger] a[i]) is Some {
            Some(a.map_values(|d: JsonTree| disk_of(d)->0))
        } else {
            None
        },
        _ => None,
    }
}

/// The field that lists the disks; where it is missing there are none.
pub open spec fn disks_field(t: JsonTree, name: Seq<char>, place: nat) -> Option<Seq<DiskView>> {
    match field(t, name, place) {
        Some(f) => disks_of(f),
        None => Some(Seq::empty()),
    }
}

/// The parameters that an entry of the configuration describes. Missing are allowed: the
/// disks, the number of tries, the time to wait for the host and whether the machine may
/// be started on demand.
pub open spec fn parameters_of(t: JsonTree) -> Option<ParametersView> {
    match (
        text_field(t, "name"@, 0),
        bool_field(t, "enable"@, 1, None),
        operation_field(t, "boot_ops"@, 2),
        disks_field(t, "disk"@, 3),
        nat_field(t, "try_count"@, 4, 255, Some(0)),
        nat_field(t, "boot_wait_time"@, 5, 255, None),
        nat_field(
            t,
            "boot_complete_timeout"@,
            6,
            65535,
            Some(DEFAULT_BOOT_COMPLETE_TIMEOUT as nat),
        ),
        bool_field(t, "no_fs_dependency"@, 7, None),
        bool_field(t, "autostart"@, 8, None),
        bool_field(t, "on_demand_start_supported"@, 9, Some(false)),
    ) {
        (
            Some(name),
            Some(enable),
            Some(boot_operation),
            Some(disk),
            Some(try_count),
            Some(boot_wait_time),
            Some(boot_complete_timeout),
            Some(no_fs_dependency),
            Some(autostart),
            Some(on_demand_start_supported),
        ) => if is_record(t, 10) {
            Some(
                ParametersView {
                    name,
                    enable,
                    legacy: false,
                    boot_operation,
                    disk,
                    try_count: try_count as u8,
                    boot_wait_time: boot_wait_time as u8,
                    boot_complete_timeout: boot_complete_timeout as u16,
                    no_fs_dependency,
                    autostart,
                    on_demand_start_supported,
                },
            )
        } else {
            None
        },
        _ => None,
    }
}

fn get_field<'a>(value: &'a JsonValue, name: &str, place: usize) -> (r: Option<&'a JsonValue>)
    ensures
        r is Some <==> field(value@, name@, place as nat) is Some,
        r matches Some(v) ==> v@ == field(value@, name@, place as nat)->0,
{
    match value {
        JsonValue::Array(a) => if place < a.len() {
            assert(value@->Array_0[place as int] == a@[place as int]@);
            Some(&a[place])
        } else {
            None
        },
        JsonValue::Object(_) => value.get(name),
        _ => None,
    }
}

fn record(value: &JsonValue, n: usize) -> (r: bool)
    ensures
        r == is_record(value@, n as nat),
{
    match value {
        JsonValue::Array(a) => a.len() <= n,
        JsonValue::Object(_) => true,
        _ => false,
    }
}

fn get_text(value: &JsonValue, name: &str, place: usize) -> (r: Option<String>)
    ensures
        status::opt_text(r) == text_field(value@, name@, place as nat),
{
    match get_field(value, name, place) {
        Some(JsonValue::Str(s)) => Some(s.clone()),
        _ => None,
    }
}

fn get_bool(value: &JsonValue, name: &str, place: usize, default: Option<bool>) -> (r: Option<bool>)
    ensures
        r == bool_field(value@, name@, place as nat, default),
{
    match get_field(value, name, place) {
        Some(JsonValue::Bool(b)) => Some(*b),
        Some(_) => None,
        None => default,
    }
}

fn get_u32(value: &JsonValue, name: &str, place: usize, max: u32, default: Option<u32>) -> (r:
    Option<u32>)
    ensures
        (match r {
            Some(n) => Some(n as nat),
            None => None,
        }) == nat_field(
            value@,
            name@,
            place as nat,
            max as nat,
            match default {
                Some(n) => Some(n as nat),
                None => None,
            },
        ),
{
    match get_field(value, name, place) {
        Some(JsonValue::Number(n)) => match n.unsigned {
            Some(u) => if u <= max as u64 {
                Some(u as u32)
            } else {
                None
            },
            None => None,
        },
        Some(_) => None,
        None => default,
    }
}

fn named_operation(name: &str) -> (r: Option<ControlState>)
    ensures
        r == operation(name@),
{
    if text::str_eq(name, "not_supported") {
        Some(ControlState::NotSupported)
    } else {
        match <ControlState as std::str::FromStr>::from_str(name) {
            Ok(s) => Some(s),
            Err(_) => None,
        }
    }
}

fn get_operation(value: &JsonValue, name: &str, place: usize) -> (r: Option<ControlState>)
    ensures
        r == operation_field(value@, name@, place as nat),
{
    match get_field(value, name, place) {
        Some(JsonValue::Str(s)) => named_operation(s.as_str()),
        Some(JsonValue::Object(members)) => {
            let ghost entries = field(value@, name@, place as nat)->0->Object_0;
            if members.len() != 1 {
                assert(entries.len() != 1);
                return None;
            }
            assert(entries[0] == (members@[0].0@, members@[0].1@));
            match &members[0].1 {
                JsonValue::Null => named_operation(members[0].0.as_str()),
                _ => None,
            }
        },
        _ => None,
    }
}

/// The disk that an entry describes.
pub fn disk_from_json(value: &JsonValue) -> (r: Option<DiskProperties>)
    ensures
        r is Some <==> disk_of(value@) is Some,
        r matches Some(d) ==> d@ == disk_of(value@)->0,
{
    let image = get_text(value, "image", 0);
    let label = get_u32(value, "label", 1, u32::MAX, None);
    let read_write = get_bool(value, "read_write", 2, None);
    if !record(value, 3) {
        return None;
    }
    match (image, label, read_write) {
        (Some(image), Some(label), Some(read_write)) => Some(
            DiskProperties { image, label, read_write },
        ),
        _ => None,
    }
}

fn get_disks(value: &JsonValue, name: &str, place: usize) -> (r: Option<Vec<DiskProperties>>)
    ensures
        r is Some <==> disks_field(value@, name@, place as nat) is Some,
        r matches Some(d) ==> d@.map_values(|d: DiskProperties| d@) == disks_field(
            value@,
            name@,
            place as nat,
        )->0,
{
    match get_field(value, name, place) {
        None => {
            let none: Vec<DiskProperties> = Vec::new();
            assert(none@.map_values(|d: DiskProperties| d@) =~= Seq::empty());
            Some(none)
        },
        Some(JsonValue::Array(a)) => {
            let ghost t = field(value@, name@, place as nat)->0;
            let ghost entries = t->Array_0;
            assert(entries.len() == a@.len());
            let mut out: Vec<DiskProperties> = Vec::new();
            let mut i: usize = 0;
            while i < a.len()
                invariant
                    i <= a@.len(),
                    out@.len() == i,
                    field(value@, name@, place as nat) == Some(t),
                    t == JsonTree::Array(entries),
                    entries.len() == a@.len(),
                    forall|j: int| 0 <= j < a@.len() ==> #[trigger] entries[j] == a@[j]@,
                    forall|j: int|
                        0 <= j < i ==> disk_of(#[trigger] entries[j]) == Some(out@[j]@),
                decreases a@.len() - i,
            {
                match disk_from_json(&a[i]) {
                    Some(d) => out.push(d),
                    None => {
                        assert(disk_of(entries[i as int]) is None);
                        return None;
                    },
                }
                i = i + 1;
            }
            assert(out@.map_values(|d: DiskProperties| d@) =~= entries.map_values(
                |d: JsonTree| disk_of(d)->0,
            ));
            Some(out)
        },
        Some(_) => None,
    }
}

/// The parameters that an entry of the configuration describes.
pub fn parameters_from_json(value: &JsonValue) -> (r: Option<VmParameters>)
    ensures
        r is Some <==> parameters_of(value@) is Some,
        r matches Some(p) ==> p@ == parameters_of(value@)->0,
{
    let name = get_text(value, "name", 0);
    let enable = get_bool(value, "enable", 1, None);
    let operation = get_operation(value, "boot_ops", 2);
    let disk = get_disks(value, "disk", 3);
    let try_count = get_u32(value, "try_count", 4, 255, Some(0));
    let wait = get_u32(value, "boot_wait_time", 5, 255, None);
    let timeout = get_u32(
        value,
        "boot_complete_timeout",
        6,
        65535,
        Some(parameters::boot_complete_timeout_default() as u32),
    );
    let no_fs_dependency = get_bool(value, "no_fs_dependency", 7, None);
    let autostart = get_bool(value, "autostart", 8, None);
    let on_demand = get_bool(value, "on_demand_start_supported", 9, Some(false));
    if !record(value, 10) {
        return None;
    }
    match (name, enable, operation, disk, try_count) {
        (Some(name), Some(enable), Some(boot_operation), Some(disk), Some(try_count)) => match (
            wait,
            timeout,
            no_fs_dependency,
            autostart,
            on_demand,
        ) {
            (
                Some(wait),
                Some(timeout),
                Some(no_fs_dependency),
                Some(autostart),
                Some(on_demand_start_supported),
            ) => Some(
                VmParameters {
                    name,
                    enable,
                    legacy: false,
                    boot_operation,
                    disk,
                    try_count: try_count as u8,
                    boot_wait_time: wait as u8,
                    boot_complete_timeout: timeout as u16,
                    no_fs_dependency,
                    autostart,
                    on_demand_start_supported,
                },
            ),
            _ => None,
        },
        _ => None,
    }
}

/// Why a configuration cannot be used.
#[derive(Debug)]
pub enum ConfigError {
    /// The text is no JSON document; the words of the error.
    Syntax(String),
    /// The document holds no list of virtual machines.
    Invalid,
}

/// The words of a configuration error.
pub open spec fn config_error_text(e: ConfigError) -> Seq<char> {
    match e {
        ConfigError::Syntax(words) => "Error parsing JSON: "@ + words@,
        ConfigError::Invalid => "VM Configuration is invalid."@,
    }
}

impl ConfigError {
    /// The words of the error.
    pub fn text(&self) -> (r: String)
        ensures
            r@ == config_error_text(*self),
    {
        match self {
            ConfigError::Syntax(words) => "Error parsing JSON: ".to_owned().concat(words.as_str()),
            ConfigError::Invalid => "VM Configuration is invalid.".to_owned(),
        }
    }
}

/// The entries of a configuration, one for each virtual machine.
pub open spec fn entries_of(root: JsonTree) -> Option<Seq<JsonTree>> {
    match json::member(root, "qvirtmgr"@) {
        Some(manager) => match json::member(manager, "vm_config"@) {
            Some(JsonTree::Array(entries)) => Some(entries),
            _ => None,
        },
        None => None,
    }
}

/// The parameters of the well-formed entries, in order; malformed entries are skipped.
pub open spec fn well_formed(entries: Seq<JsonTree>) -> Seq<ParametersView>
    decreases entries.len(),
{
    if entries.len() == 0 {
        Seq::empty()
    } else {
        let before = well_formed(entries.drop_last());
        match parameters_of(entries.last()) {
            Some(p) => before.push(p),
            None => before,
        }
    }
}

/// The parameters that the values hold.
pub open spec fn views(list: Seq<VmParameters>) -> Seq<ParametersView> {
    list.map_values(|p: VmParameters| p@)
}

/// The entries of a configuration.
pub fn vm_config_entries(root: JsonValue) -> (r: Result<Vec<JsonValue>, ConfigError>)
    ensures
        r is Ok <==> entries_of(root@) is Some,
        r matches Ok(entries) ==> json::trees(entries@) == entries_of(root@)->0,
        r matches Err(e) ==> e is Invalid,
{
    match root.take("qvirtmgr") {
        Some(manager) => match manager.take("vm_config") {
            Some(list) => match list.into_array() {
                Some(entries) => Ok(entries),
                None => Err(ConfigError::Invalid),
            },
            None => Err(ConfigError::Invalid),
        },
        None => Err(ConfigError::Invalid),
    }
}

/// The virtual machines of a parsed configuration.
pub fn vm_parameters_list(root: JsonValue) -> (r: Result<Vec<VmParameters>, ConfigError>)
    ensures
        r is Ok <==> entries_of(root@) is Some,
        r matches Ok(list) ==> views(list@) == well_formed(entries_of(root@)->0),
        r matches Err(e) ==> e is Invalid,
{
    let entries = match vm_config_entries(root) {
        Ok(entries) => entries,
        Err(e) => return Err(e),
    };
    let ghost all = json::trees(entries@);
    let mut list: Vec<VmParameters> = Vec::new();
    let mut i: usize = 0;
    assert(views(list@) =~= Seq::empty());
    while i < entries.len()
        invariant
            i <= entries@.len(),
            all == json::trees(entries@),
            views(list@) == well_formed(all.take(i as int)),
        decreases entries@.len() - i,
    {
        let ghost before = list@;
        assert(all.take(i + 1).drop_last() =~= all.take(i as int));
        assert(all.take(i + 1).last() == entries@[i as int]@);
        if let Some(p) = parameters_from_json(&entries[i]) {
            list.push(p);
            assert(views(list@) =~= views(before).push(p@));
        }
        i = i + 1;
    }
    assert(all.take(i as int) =~= all);
    Ok(list)
}

/// The virtual machines of the configuration file with the given content.
pub fn parse_vm_config_file(content: &[u8]) -> (r: Result<Vec<VmParameters>, ConfigError>)
    ensures
        json::document(content@) matches Err(words) ==> (r matches Err(ConfigError::Syntax(e))
            && e@ == words),
        json::document(content@) matches Ok(root) ==> match entries_of(root) {
            Some(entries) => r matches Ok(list) && views(list@) == well_formed(entries),
            None => r matches Err(ConfigError::Invalid),
        },
{
    match json::parse(content) {
        Ok(root) => vm_parameters_list(root),
        Err(e) => Err(ConfigError::Syntax(e)),
    }
}

/// The name of an entry, as far as it has one.
pub open spec fn entry_label(entry: JsonTree) -> Seq<char> {
    match json::member(entry, "name"@) {
        Some(JsonTree::Str(name)) => name,
        _ => "No Name Specified"@,
    }
}

/// The name under which a malformed entry is reported.
pub fn entry_name(entry: &JsonValue) -> (r: String)
    ensures
        r@ == entry_label(entry@),
{
    match entry.get("name") {
        Some(JsonValue::Str(name)) => name.clone(),
        _ => "No Name Specified".to_owned(),
    }
}

/// Each entry of a configuration stands for itself: what the entries before and after it
/// describe does not depend on it.
pub proof fn entries_are_independent(a: Seq<JsonTree>, b: Seq<JsonTree>)
    ensures
        well_formed(a + b) == well_formed(a) + well_formed(b),
    decreases b.len(),
{
    if b.len() == 0 {
        assert(a + b =~= a);
        assert(well_formed(a) + well_formed(b) =~= well_formed(a));
    } else {
        entries_are_independent(a, b.drop_last());
        assert((a + b).drop_last() =~= a + b.drop_last());
        assert(well_formed(a + b) =~= well_formed(a) + well_formed(b));
    }
}

/// A malformed entry is skipped, wherever it stands.
pub proof fn malformed_entry_is_skipped(a: Seq<JsonTree>, entry: JsonTree, b: Seq<JsonTree>)
    requires
        parameters_of(entry) is None,
    ensures
        well_formed(a.push(entry) + b) == well_formed(a + b),
{
    entries_are_independent(a.push(entry), b);
    entries_are_independent(a, b);
    assert(a.push(entry).drop_last() =~= a);
}

/// A member of an entry whose name is none of the known ones changes nothing, wherever it
/// stands.
pub proof fn unknown_member_is_ignored(
    before: Seq<(Seq<char>, JsonTree)>,
    name: Seq<char>,
    value: JsonTree,
    after: Seq<(Seq<char>, JsonTree)>,
)
    requires
        name != "name"@,
        name != "enable"@,
        name != "boot_ops"@,
        name != "disk"@,
        name != "try_count"@,
        name != "boot_wait_time"@,
        name != "boot_complete_timeout"@,
        name != "no_fs_dependency"@,
        name != "autostart"@,
        name != "on_demand_start_supported"@,
    ensures
        parameters_of(JsonTree::Object(before.push((name, value)) + after)) == parameters_of(
            JsonTree::Object(before + after),
        ),
{
    json::other_member_is_kept(before, name, value, after, "name"@);
    json::other_member_is_kept(before, name, value, after, "enable"@);
    json::other_member_is_kept(before, name, value, after, "boot_ops"@);
    json::other_member_is_kept(before, name, value, after, "disk"@);
    json::other_member_is_kept(before, name, value, after, "try_count"@);
    json::other_member_is_kept(before, name, value, after, "boot_wait_time"@);
    json::other_member_is_kept(before, name, value, after, "boot_complete_timeout"@);
    json::other_member_is_kept(before, name, value, after, "no_fs_dependency"@);
    json::other_member_is_kept(before, name, value, after, "autostart"@);
    json::other_member_is_kept(before, name, value, after, "on_demand_start_supported"@);
}

/// The word for an operation.
pub open spec fn operation_word(s: ControlState) -> Seq<char> {
    match s {
        ControlState::Create => "create"@,
        ControlState::Start => "start"@,
        ControlState::Stop => "stop"@,
        ControlState::Restart => "restart"@,
        ControlState::Panic => "panic"@,
        ControlState::NotSupported => "not_supported"@,
    }
}

proof fn operation_words_differ(a: ControlState, b: ControlState)
    ensures
        operation_word(a) == operation_word(b) ==> a == b,
{
    reveal_strlit("create");
    reveal_strlit("start");
    reveal_strlit("stop");
    reveal_strlit("restart");
    reveal_strlit("panic");
    reveal_strlit("not_supported");
    assert("create"@[0] == 'c' && "start"@[0] == 's' && "panic"@[0] == 'p');
    assert("start"@.len() == 5 && "panic"@.len() == 5 && "stop"@.len() == 4);
    assert("create"@.len() == 6 && "restart"@.len() == 7 && "not_supported"@.len() == 13);
}

/// Each operation has one word, and a word names the operation that it is the word of; that
/// an operation is not supported can be configured but not asked for by name.
pub proof fn words_name_operations(word: Seq<char>, s: ControlState)
    ensures
        operation(word) == Some(s) <==> word == operation_word(s),
        parameters::control_state(word) == Some(s) <==> word == operation_word(s) && s
            != ControlState::NotSupported,
{
    operation_words_differ(ControlState::Create, s);
    operation_words_differ(ControlState::Start, s);
    operation_words_differ(ControlState::Stop, s);
    operation_words_differ(ControlState::Restart, s);
    operation_words_differ(ControlState::Panic, s);
    operation_words_differ(ControlState::NotSupported, s);
    operation_words_differ(ControlState::Create, ControlState::NotSupported);
    operation_words_differ(ControlState::Start, ControlState::NotSupported);
    operation_words_differ(ControlState::Stop, ControlState::NotSupported);
    operation_words_differ(ControlState::Restart, ControlState::NotSupported);
    operation_words_differ(ControlState::Panic, ControlState::NotSupported);
}

/// Whether the value spells the operation: by its word, or by an object that holds nothing but
/// a null member of that name.
pub open spec fn spells(f: JsonTree, s: ControlState) -> bool {
    ||| f == JsonTree::Str(operation_word(s))
    ||| f matches JsonTree::Object(m) && m.len() == 1 && m[0].0 == operation_word(s)
        && m[0].1 is Null
}

/// Whether the value is the natural number.
pub open spec fn is_number(f: JsonTree, n: int) -> bool {
    f matches JsonTree::Number(number) && (number.unsigned matches Some(u) && u == n)
}

/// Whether the value lists the disks in their order, and nothing else.
pub open spec fn lists_disks(f: JsonTree, disks: Seq<DiskView>) -> bool {
    f matches JsonTree::Array(a) && a.len() == disks.len() && forall|i: int|
        0 <= i < a.len() ==> disk_of(#[trigger] a[i]) == Some(disks[i])
}

proof fn listed_disks(f: JsonTree, disks: Seq<DiskView>)
    ensures
        disks_of(f) == Some(disks) <==> lists_disks(f, disks),
{
    if let JsonTree::Array(a) = f {
        if disks_of(f) == Some(disks) {
            assert forall|i: int| 0 <= i < a.len() implies disk_of(#[trigger] a[i]) == Some(
                disks[i],
            ) by {}
        }
        if lists_disks(f, disks) {
            assert(disks =~= a.map_values(|d: JsonTree| disk_of(d)->0));
        }
    }
}

proof fn spelled_operation(f: JsonTree, s: ControlState)
    ensures
        operation_of(f) == Some(s) <==> spells(f, s),
{
    match f {
        JsonTree::Str(word) => words_name_operations(word, s),
        JsonTree::Object(m) => if m.len() == 1 {
            words_name_operations(m[0].0, s);
        },
        _ => {},
    }
}

/// An entry that is an object describes parameters exactly if each of them is the value of
/// the member of its own name; where the disks, the number of tries, the time to wait for the
/// host or the start on demand are missing, there are none, it is zero, it is the usual time
/// and there is none.
pub proof fn object_entry_is_read_by_names(
    members: Seq<(Seq<char>, JsonTree)>,
    p: ParametersView,
)
    ensures
        parameters_of(JsonTree::Object(members)) == Some(p) <==> {
            let t = JsonTree::Object(members);
            &&& json::member(t, "name"@) == Some(JsonTree::Str(p.name))
            &&& json::member(t, "enable"@) == Some(JsonTree::Bool(p.enable))
            &&& json::member(t, "boot_ops"@) matches Some(f) && spells(f, p.boot_operation)
            &&& match json::member(t, "disk"@) {
                Some(f) => lists_disks(f, p.disk),
                None => p.disk.len() == 0,
            }
            &&& match json::member(t, "try_count"@) {
                Some(f) => is_number(f, p.try_count as int),
                None => p.try_count == 0,
            }
            &&& json::member(t, "boot_wait_time"@) matches Some(f) && is_number(
                f,
                p.boot_wait_time as int,
            )
            &&& match json::member(t, "boot_complete_timeout"@) {
                Some(f) => is_number(f, p.boot_complete_timeout as int),
                None => p.boot_complete_timeout == 60,
            }
            &&& json::member(t, "no_fs_dependency"@) == Some(JsonTree::Bool(p.no_fs_dependency))
            &&& json::member(t, "autostart"@) == Some(JsonTree::Bool(p.autostart))
            &&& match json::member(t, "on_demand_start_supported"@) {
                Some(f) => f == JsonTree::Bool(p.on_demand_start_supported),
                None => !p.on_demand_start_supported,
            }
            &&& !p.legacy
        },
{
    let t = JsonTree::Object(members);
    if let Some(f) = json::member(t, "boot_ops"@) {
        spelled_operation(f, p.boot_operation);
    }
    if let Some(f) = json::member(t, "disk"@) {
        listed_disks(f, p.disk);
    } else if p.disk.len() == 0 {
        assert(p.disk =~= Seq::empty());
    }
}

/// An entry that is a list describes parameters exactly if it holds each of them at its
/// place: at least all but the last one, and no more than all.
pub proof fn list_entry_is_read_by_places(a: Seq<JsonTree>, p: ParametersView)
    ensures
        parameters_of(JsonTree::Array(a)) == Some(p) <==> {
            &&& 9 <= a.len() <= 10
            &&& a[0] == JsonTree::Str(p.name)
            &&& a[1] == JsonTree::Bool(p.enable)
            &&& spells(a[2], p.boot_operation)
            &&& lists_disks(a[3], p.disk)
            &&& is_number(a[4], p.try_count as int)
            &&& is_number(a[5], p.boot_wait_time as int)
            &&& is_number(a[6], p.boot_complete_timeout as int)
            &&& a[7] == JsonTree::Bool(p.no_fs_dependency)
            &&& a[8] == JsonTree::Bool(p.autostart)
            &&& a.len() == 10 ==> a[9] == JsonTree::Bool(p.on_demand_start_supported)
            &&& a.len() == 9 ==> !p.on_demand_start_supported
            &&& !p.legacy
        },
{
    if a.len() >= 9 {
        spelled_operation(a[2], p.boot_operation);
        listed_disks(a[3], p.disk);
    }
}

/// Nothing but an object or a list is an entry or a disk.
pub proof fn scalars_describe_nothing(t: JsonTree)
    requires
        !(t is Object),
        !(t is Array),
    ensures
        parameters_of(t) is None,
        disk_of(t) is None,
{
}

/// A disk that is an object is read from the members of the names of its parts, all of which
/// have to be there.
pub proof fn object_disk_is_read_by_names(members: Seq<(Seq<char>, JsonTree)>, d: DiskView)
    ensures
        disk_of(JsonTree::Object(members)) == Some(d) <==> {
            let t = JsonTree::Object(members);
            &&& json::member(t, "image"@) == Some(JsonTree::Str(d.image))
            &&& json::member(t, "label"@) matches Some(f) && is_number(f, d.label as int)
            &&& json::member(t, "read_write"@) == Some(JsonTree::Bool(d.read_write))
        },
{
}

/// A disk that is a list holds exactly its parts, each at its place.
pub proof fn list_disk_is_read_by_places(a: Seq<JsonTree>, d: DiskView)
    ensures
        disk_of(JsonTree::Array(a)) == Some(d) <==> {
            &&& a.len() == 3
            &&& a[0] == JsonTree::Str(d.image)
            &&& is_number(a[1], d.label as int)
            &&& a[2] == JsonTree::Bool(d.read_write)
        },
{
}

/// An entry that describes parameters adds them, at its place among the others.
pub proof fn well_formed_entry_is_read(
    a: Seq<JsonTree>,
    entry: JsonTree,
    b: Seq<JsonTree>,
    p: ParametersView,
)
    requires
        parameters_of(entry) == Some(p),
    ensures
        well_formed(a.push(entry) + b) == well_formed(a).push(p) + well_formed(b),
        well_formed(Seq::empty()).len() == 0,
{
    entries_are_independent(a.push(entry), b);
    assert(a.push(entry).drop_last() =~= a);
}

/// The entries of a configuration are the elements of the list `vm_config` in `qvirtmgr`, and
/// there are none to be found exactly if there is no such list.
pub proof fn entries_are_listed_in_the_manager(root: JsonTree, entries: Seq<JsonTree>)
    ensures
        entries_of(root) == Some(entries) <==> (json::member(root, "qvirtmgr"@) matches Some(
            manager,
        ) && json::member(manager, "vm_config"@) == Some(JsonTree::Array(entries))),
{
}

/// A malformed entry is reported under the text of its member `name`, if it has such a text.
pub proof fn reported_under_its_name(entry: JsonTree)
    ensures
        json::member(entry, "name"@) matches Some(JsonTree::Str(name)) ==> entry_label(entry)
            == name,
        !(json::member(entry, "name"@) matches Some(JsonTree::Str(_))) ==> entry_label(entry)
            == "No Name Specified"@,
{
}

} // verus!
