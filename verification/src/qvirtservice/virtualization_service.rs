//! The service that knows all virtual machines: how it is set up from the configuration,
//! which machines it launches by itself, how it hands out machines and passes on events.
use crate::keyed;
use crate::qvirtservice::boot::{BootStep, BootView};
use crate::qvirtservice::config;
use crate::qvirtservice::parameters::{ParametersView, VmParameters};
use crate::qvirtservice::virtual_machine;
use crate::qvirtservice::virtual_machine::{InstanceView, PropertyWrite, VmInstance, VmState};
use crate::status;
use crate::status::{ExceptionCode, Status, StatusView};
use crate::text;
use crate::uevent;
use vstd::prelude::*;

verus! {

/// Where the configuration is kept.
pub const VENDOR_CONFIG_FILE: &'static str = "/vendor/etc/qvirtmgr-vndr.json";

/// The system property that tells that the host has booted.
pub const BOOT_COMPLETE_PROP: &'static str = "sys.boot_completed";

/// The value that a property takes once what it tells of has happened.
pub const PROPERTY_SET: &'static str = "1";

/// A virtual machine as the service knows it.
#[derive(Debug)]
pub struct VmInstanceWrapper {
    pub name: String,
    /// The place of the virtual machine among the instances.
    pub instance: usize,
    pub enabled: bool,
    /// In seconds.
    pub boot_complete_timeout: u16,
}

/// What the service knows of a virtual machine.
pub struct WrapperView {
    pub name: Seq<char>,
    pub instance: usize,
    pub enabled: bool,
    pub boot_complete_timeout: u16,
}

impl View for VmInstanceWrapper {
    type V = WrapperView;

    open spec fn view(&self) -> WrapperView {
        WrapperView {
            name: self.name@,
            instance: self.instance,
            enabled: self.enabled,
            boot_complete_timeout: self.boot_complete_timeout,
        }
    }
}

impl keyed::Named for VmInstanceWrapper {
    open spec fn label(&self) -> Seq<char> {
        self.name@
    }

    fn name(&self) -> (r: &str) {
        self.name.as_str()
    }
}

/// The service.
#[derive(Debug)]
pub struct VirtualizationService {
    pub vm_instance_map: Vec<VmInstanceWrapper>,
}

impl View for VirtualizationService {
    type V = Seq<WrapperView>;

    open spec fn view(&self) -> Seq<WrapperView> {
        self.vm_instance_map@.map_values(|w: VmInstanceWrapper| w@)
    }
}

/// A launch that happens without a request.
#[derive(Debug, PartialEq, Eq, Structural, Clone, Copy)]
pub struct Autostart {
    /// The place of the virtual machine among the instances.
    pub instance: usize,
    /// Whether the launch need not wait for the host to boot.
    pub no_fs_dependency: bool,
    /// How long it waits for that, in seconds.
    pub boot_complete_timeout: u16,
}

/// The service as it is set up, and what is to be done about it.
pub struct Setup {
    pub service: VirtualizationService,
    /// The virtual machines by their places.
    pub instances: Vec<VmInstance>,
    /// What to publish.
    pub properties: Vec<PropertyWrite>,
    /// The launches without a request.
    pub autostart: Vec<Autostart>,
}

/// The configured virtual machines with their names.
pub open spec fn named(list: Seq<ParametersView>) -> Seq<(Seq<char>, ParametersView)> {
    list.map_values(|p: ParametersView| (p.name, p))
}

/// The virtual machines that a configuration comes to, by their places: a name that is
/// configured again keeps its place and takes the later parameters.
pub open spec fn registry(list: Seq<ParametersView>) -> Seq<(Seq<char>, ParametersView)> {
    keyed::merged(named(list))
}

/// The place of the virtual machine of the given name.
pub open spec fn place(reg: Seq<(Seq<char>, ParametersView)>, name: Seq<char>) -> Option<int> {
    keyed::place_of(keyed::names(reg), name)
}

/// What the service knows of its virtual machines.
pub open spec fn wrappers(reg: Seq<(Seq<char>, ParametersView)>) -> Seq<WrapperView> {
    Seq::new(
        reg.len(),
        |i: int|
            WrapperView {
                name: reg[i].0,
                instance: i as usize,
                enabled: reg[i].1.enable,
                boot_complete_timeout: reg[i].1.boot_complete_timeout,
            },
    )
}

/// The virtual machines at the start.
pub open spec fn new_instances(reg: Seq<(Seq<char>, ParametersView)>) -> Seq<InstanceView> {
    reg.map_values(|e: (Seq<char>, ParametersView)| virtual_machine::new_instance(e.1))
}

/// What the values hold.
pub open spec fn instance_views(instances: Seq<VmInstance>) -> Seq<InstanceView> {
    instances.map_values(|i: VmInstance| i@)
}

/// Whether a configured virtual machine is launched without a request.
pub open spec fn starts_by_itself(p: ParametersView) -> bool {
    p.autostart && p.enable
}

/// The names of the configured virtual machines that are launched without a request, in
/// order, each with whether it need not wait for the host.
pub open spec fn self_starting(list: Seq<ParametersView>) -> Seq<(Seq<char>, bool)>
    decreases list.len(),
{
    if list.len() == 0 {
        Seq::empty()
    } else {
        let before = self_starting(list.drop_last());
        if starts_by_itself(list.last()) {
            before.push((list.last().name, list.last().no_fs_dependency))
        } else {
            before
        }
    }
}

/// The launch without a request of the virtual machine that has the given name.
pub open spec fn autostart_of(
    name: Seq<char>,
    no_fs_dependency: bool,
    reg: Seq<(Seq<char>, ParametersView)>,
) -> Autostart {
    let i = place(reg, name)->0;
    Autostart {
        instance: i as usize,
        no_fs_dependency,
        boot_complete_timeout: reg[i].1.boot_complete_timeout,
    }
}

/// The launches without a request.
pub open spec fn autostarts(list: Seq<ParametersView>) -> Seq<Autostart> {
    self_starting(list).map_values(
        |w: (Seq<char>, bool)| autostart_of(w.0, w.1, registry(list)),
    )
}

/// What is published of the configured virtual machines.
pub open spec fn first_properties(list: Seq<ParametersView>) -> Seq<(Seq<char>, Seq<char>)> {
    list.map_values(
        |p: ParametersView|
            (
                virtual_machine::status_property(p.name),
                virtual_machine::state_name(VmState::NotStarted),
            ),
    )
}

/// The names and values to publish.
pub open spec fn property_views(properties: Seq<PropertyWrite>) -> Seq<(Seq<char>, Seq<char>)> {
    properties.map_values(|p: PropertyWrite| (p.name@, p.value@))
}

/// The names that the service knows.
pub open spec fn known_names(service: Seq<WrapperView>) -> Seq<Seq<char>> {
    service.map_values(|w: WrapperView| w.name)
}

impl VirtualizationService {
    fn find(&self, name: &str) -> (r: Option<usize>)
        ensures
            r is Some <==> keyed::place_of(known_names(self@), name@) is Some,
            r matches Some(i) ==> i < self@.len() && keyed::place_of(known_names(self@), name@)
                == Some(i as int),
    {
        assert(known_names(self@) =~= keyed::labels(self.vm_instance_map@));
        keyed::find(&self.vm_instance_map, name)
    }

    /// Sets the service up for the configured virtual machines.
    pub fn virtualization_service(vm_parameters_list: Vec<VmParameters>) -> (r: Setup)
        ensures
            ({
                let list = config::views(vm_parameters_list@);
                let reg = registry(list);
                &&& r.service@ == wrappers(reg)
                &&& instance_views(r.instances@) == new_instances(reg)
                &&& property_views(r.properties@) == first_properties(list)
                &&& r.autostart@ == autostarts(list)
            }),
    {
        let ghost list = config::views(vm_parameters_list@);
        let mut wanted: Vec<(String, bool)> = Vec::new();
        let mut service = VirtualizationService { vm_instance_map: Vec::new() };
        let mut instances: Vec<VmInstance> = Vec::new();
        let mut properties: Vec<PropertyWrite> = Vec::new();
        proof {
            assert(named(list.take(0)) =~= Seq::empty());
            assert(service@ =~= wrappers(registry(list.take(0))));
            assert(instance_views(instances@) =~= new_instances(registry(list.take(0))));
            assert(property_views(properties@) =~= first_properties(list.take(0)));
            assert(wanted_views(wanted@) =~= self_starting(list.take(0)));
        }
        for p in it: vm_parameters_list
            invariant
                list == config::views(it.seq()),
                service@ == wrappers(registry(list.take(it.index()))),
                instance_views(instances@) == new_instances(registry(list.take(it.index()))),
                property_views(properties@) == first_properties(list.take(it.index())),
                wanted_views(wanted@) == self_starting(list.take(it.index())),
        {
            let ghost k = it.index();
            let ghost before = registry(list.take(k));
            let ghost after = registry(list.take(k + 1));
            let ghost params = p@;
            let ghost wanted_before = wanted@;
            let ghost properties_before = properties@;
            let ghost instances_before = instances@;
            let ghost service_before = service@;
            proof {
                assert(params == list[k]);
                assert(list.take(k + 1).drop_last() =~= list.take(k));
                assert(named(list.take(k + 1)).drop_last() =~= named(list.take(k)));
                assert(named(list.take(k + 1)).last() == (params.name, params));
                assert(known_names(service@) =~= keyed::names(before));
                keyed::place_holds_name(keyed::names(before), params.name);
            }
            let name = p.name.clone();
            let enabled = p.enable;
            let boot_complete_timeout = p.boot_complete_timeout;
            if p.autostart && p.enable {
                wanted.push((p.name.clone(), p.no_fs_dependency));
                assert(wanted_views(wanted@) =~= wanted_views(wanted_before).push(
                    (params.name, params.no_fs_dependency),
                ));
            }
            let (instance, property) = VmInstance::new(p);
            properties.push(property);
            proof {
                let first = (
                    virtual_machine::status_property(params.name),
                    virtual_machine::state_name(VmState::NotStarted),
                );
                assert(property_views(properties@) =~= property_views(properties_before).push(
                    first,
                ));
                assert(first_properties(list.take(k + 1)) =~= first_properties(list.take(k)).push(
                    first,
                ));
            }
            let place = service.find(name.as_str());
            let index: usize = match place {
                Some(i) => i,
                None => service.vm_instance_map.len(),
            };
            let known = VmInstanceWrapper {
                name,
                instance: index,
                enabled,
                boot_complete_timeout,
            };
            match place {
                Some(i) => {
                    assert(instances@.len() == instance_views(instances@).len());
                    service.vm_instance_map.set(i, known);
                    instances.set(i, instance);
                    proof {
                        assert(after == before.update(i as int, (params.name, params)));
                        assert(service@ =~= service_before.update(i as int, known@));
                        assert(instance_views(instances@) =~= instance_views(
                            instances_before,
                        ).update(i as int, instance@));
                    }
                },
                None => {
                    service.vm_instance_map.push(known);
                    instances.push(instance);
                    proof {
                        assert(after == before.push((params.name, params)));
                        assert(service@ =~= service_before.push(known@));
                        assert(instance_views(instances@) =~= instance_views(
                            instances_before,
                        ).push(instance@));
                    }
                },
            }
            assert(service@ =~= wrappers(after));
            assert(instance_views(instances@) =~= new_instances(after));
        }
        assert(list.take(list.len() as int) =~= list);
        let ghost reg = registry(list);
        let mut autostart: Vec<Autostart> = Vec::new();
        let mut i: usize = 0;
        assert(known_names(service@) =~= keyed::names(reg));
        while i < wanted.len()
            invariant
                i <= wanted@.len(),
                reg == registry(list),
                service@ == wrappers(reg),
                known_names(service@) == keyed::names(reg),
                wanted_views(wanted@) == self_starting(list),
                autostart@ == autostarts(list).take(i as int),
            decreases wanted@.len() - i,
        {
            let ghost before = autostart@;
            proof {
                self_starting_is_known(list, i as int);
            }
            assert(wanted_views(wanted@)[i as int] == (wanted@[i as int].0@, wanted@[i as int].1));
            if let Some(place) = service.find(wanted[i].0.as_str()) {
                assert(service@[place as int] == wrappers(reg)[place as int]);
                autostart.push(
                    Autostart {
                        instance: place,
                        no_fs_dependency: wanted[i].1,
                        boot_complete_timeout: service.vm_instance_map[place].boot_complete_timeout,
                    },
                );
            }
            i = i + 1;
            assert(autostart@ =~= autostarts(list).take(i as int));
        }
        assert(autostart@ =~= autostarts(list));
        Setup { service, instances, properties, autostart }
    }
}

/// The names and flags that the pairs hold.
spec fn wanted_views(wanted: Seq<(String, bool)>) -> Seq<(Seq<char>, bool)> {
    wanted.map_values(|w: (String, bool)| (w.0@, w.1))
}

/// Every virtual machine that is launched without a request is known to the service.
pub proof fn self_starting_is_known(list: Seq<ParametersView>, i: int)
    requires
        0 <= i < self_starting(list).len(),
    ensures
        place(registry(list), self_starting(list)[i].0) is Some,
{
    let (name, no_fs_dependency) = self_starting(list)[i];
    self_starting_is_configured(list, name, no_fs_dependency);
    let k = choose|k: int|
        0 <= k < list.len() && starts_as(#[trigger] list[k], name, no_fs_dependency);
    keyed::listed_has_a_place(named(list), k);
}

/// Whether the configured virtual machine is launched without a request under the given name
/// and dependency.
pub open spec fn starts_as(p: ParametersView, name: Seq<char>, no_fs_dependency: bool) -> bool {
    p.autostart && p.enable && p.name == name && p.no_fs_dependency == no_fs_dependency
}

/// Exactly the configured virtual machines that are enabled and are to start by themselves
/// are launched without a request.
pub proof fn self_starting_is_configured(
    list: Seq<ParametersView>,
    name: Seq<char>,
    no_fs_dependency: bool,
)
    ensures
        self_starting(list).contains((name, no_fs_dependency)) <==> exists|k: int|
            0 <= k < list.len() && starts_as(#[trigger] list[k], name, no_fs_dependency),
    decreases list.len(),
{
    if list.len() > 0 {
        let init = list.drop_last();
        let all = self_starting(list);
        let before = self_starting(init);
        let w = (name, no_fs_dependency);
        self_starting_is_configured(init, name, no_fs_dependency);
        if before.contains(w) {
            let i = choose|i: int| 0 <= i < before.len() && before[i] == w;
            assert(all[i] == w);
            let k = choose|k: int|
                0 <= k < init.len() && starts_as(#[trigger] init[k], name, no_fs_dependency);
            assert(starts_as(list[k], name, no_fs_dependency));
        }
        if starts_as(list.last(), name, no_fs_dependency) {
            assert(starts_as(list[list.len() - 1], name, no_fs_dependency));
            assert(all[before.len() as int] == w);
        } else {
            if all.contains(w) {
                let i = choose|i: int| 0 <= i < all.len() && all[i] == w;
                assert(before[i] == w);
            }
            if exists|k: int|
                0 <= k < list.len() && starts_as(#[trigger] list[k], name, no_fs_dependency) {
                let k = choose|k: int|
                    0 <= k < list.len() && starts_as(#[trigger] list[k], name, no_fs_dependency);
                assert(starts_as(init[k], name, no_fs_dependency));
            }
        }
    }
}

/// A property to wait for before a launch.
#[derive(Debug)]
pub struct PropertyWait {
    pub property: String,
    pub value: String,
    pub seconds: u16,
}

/// What a launch waits for: the property, its value and for how long at most.
pub open spec fn waits_for(a: Autostart) -> Option<(Seq<char>, Seq<char>, u16)> {
    if a.no_fs_dependency {
        None
    } else {
        Some((BOOT_COMPLETE_PROP@, PROPERTY_SET@, a.boot_complete_timeout))
    }
}

impl Autostart {
    /// What the launch waits for. One that waits for nothing happens before the service is
    /// offered to clients.
    pub fn wait(&self) -> (r: Option<PropertyWait>)
        ensures
            r is None <==> self.no_fs_dependency,
            r matches Some(w) ==> w.property@ == BOOT_COMPLETE_PROP@ && w.value@ == PROPERTY_SET@
                && w.seconds == self.boot_complete_timeout,
            (match r {
                Some(w) => Some((w.property@, w.value@, w.seconds)),
                None => None,
            }) == waits_for(*self),
    {
        if self.no_fs_dependency {
            None
        } else {
            Some(
                PropertyWait {
                    property: BOOT_COMPLETE_PROP.to_owned(),
                    value: PROPERTY_SET.to_owned(),
                    seconds: self.boot_complete_timeout,
                },
            )
        }
    }
}

/// What the launch after a wait begins with, if there is one.
pub open spec fn launched_after_wait(vm: InstanceView, in_time: bool) -> Option<BootView> {
    if in_time {
        Some(virtual_machine::launch_of(vm))
    } else {
        None
    }
}

/// Goes on once a launch need not wait any longer: the virtual machine is launched if what
/// was waited for has happened in time, and is left to requests if not.
pub fn autostart_after_wait(vm: &mut VmInstance, in_time: bool) -> (r: Option<BootStep>)
    ensures
        final(vm)@ == virtual_machine::autostarted(old(vm)@),
        r is Some <==> in_time,
        r matches Some(step) ==> step@ == virtual_machine::launch_of(old(vm)@),
        (match r {
            Some(step) => Some(step@),
            None => None,
        }) == launched_after_wait(old(vm)@, in_time),
{
    if in_time {
        Some(vm.launch_autostart_vm())
    } else {
        vm.give_up_autostart();
        None
    }
}

/// The answer to a request for a virtual machine, given the place of the machine and whether
/// it is enabled, if there is one.
pub open spec fn handed_out(found: Option<(usize, bool)>) -> Result<usize, StatusView> {
    match found {
        Some((instance, enabled)) => if enabled {
            Ok(instance)
        } else {
            Err(status::exception(ExceptionCode::UnsupportedOperation, "enable bit false."@))
        },
        None => Err(status::exception(ExceptionCode::IllegalArgument, "Invalid name"@)),
    }
}

/// The answer to a request for a virtual machine.
pub fn hand_out(found: Option<(usize, bool)>) -> (r: Result<usize, Status>)
    ensures
        match r {
            Ok(i) => handed_out(found) == Ok::<usize, StatusView>(i),
            Err(e) => handed_out(found) == Err::<usize, StatusView>(e@),
        },
{
    match found {
        Some((instance, enabled)) => {
            if !enabled {
                return Err(
                    Status::new_exception_str(
                        ExceptionCode::UnsupportedOperation,
                        "enable bit false.",
                    ),
                );
            }
            Ok(instance)
        },
        None => Err(Status::new_exception_str(ExceptionCode::IllegalArgument, "Invalid name")),
    }
}

/// The virtual machine that a request for the given name is answered with, by its place.
pub open spec fn vm_answer(service: Seq<WrapperView>, name: Seq<char>) -> Result<
    usize,
    StatusView,
> {
    handed_out(
        match keyed::place_of(known_names(service), name) {
            Some(i) => Some((service[i].instance, service[i].enabled)),
            None => None,
        },
    )
}

/// The event and the virtual machine that a message of the kernel tells of.
pub open spec fn event_of(msg: Seq<u8>) -> Option<(Seq<char>, Seq<char>)> {
    if vstd::utf8::valid_utf8(msg) {
        let chars = vstd::utf8::decode_utf8(msg);
        match (
            uevent::message_value(chars, "EVENT"@),
            uevent::message_value(chars, "vm_name"@),
        ) {
            (Some(event), Some(vm_name)) => Some((event, vm_name)),
            _ => None,
        }
    } else {
        None
    }
}

/// The virtual machine that a message of the kernel concerns, by its place, and the event.
pub open spec fn event_target(service: Seq<WrapperView>, msg: Seq<u8>) -> Option<
    (usize, Seq<char>),
> {
    match event_of(msg) {
        Some((event, vm_name)) => match keyed::place_of(known_names(service), vm_name) {
            Some(i) => Some((service[i].instance, event)),
            None => None,
        },
        None => None,
    }
}

impl VirtualizationService {
    /// The virtual machine of the given name, by its place, if it may be handed out.
    pub fn get_vm(&self, vm_name: &str) -> (r: Result<usize, Status>)
        ensures
            match r {
                Ok(i) => vm_answer(self@, vm_name@) == Ok::<usize, StatusView>(i),
                Err(e) => vm_answer(self@, vm_name@) == Err::<usize, StatusView>(e@),
            },
    {
        match self.find(vm_name) {
            Some(i) => {
                let w = &self.vm_instance_map[i];
                assert(self@[i as int] == w@);
                hand_out(Some((w.instance, w.enabled)))
            },
            None => hand_out(None),
        }
    }

    /// The event and the virtual machine that a message of the kernel tells of.
    pub fn parse_event(msg: Vec<u8>) -> (r: Option<(String, String)>)
        ensures
            r is Some <==> event_of(msg@) is Some,
            r matches Some((event, vm_name)) ==> event_of(msg@) == Some((event@, vm_name@)),
    {
        match text::string_from_utf8(msg) {
            Some(s) => {
                let chars = text::chars_of(s.as_str());
                let event = uevent::message_field(&chars, "EVENT");
                let vm_name = uevent::message_field(&chars, "vm_name");
                match (event, vm_name) {
                    (Some(event), Some(vm_name)) => Some((event, vm_name)),
                    _ => None,
                }
            },
            None => None,
        }
    }

    /// The virtual machine that a message of the kernel concerns, by its place, and the
    /// event of which its clients are to be told.
    pub fn handle_uevent_event(&self, msg: Vec<u8>) -> (r: Option<(usize, String)>)
        ensures
            r is Some <==> event_target(self@, msg@) is Some,
            r matches Some((i, event)) ==> event_target(self@, msg@) == Some((i, event@)),
    {
        match VirtualizationService::parse_event(msg) {
            Some((event, vm_name)) => match self.find(vm_name.as_str()) {
                Some(i) => {
                    assert(self@[i as int] == self.vm_instance_map@[i as int]@);
                    Some((self.vm_instance_map[i].instance, event))
                },
                None => None,
            },
            None => None,
        }
    }
}

/// Whether there is a message to receive after a poll.
pub open spec fn message_is_there(ready: Option<i32>, readable: bool) -> bool {
    ready is Some && ready->0 >= 0 && readable
}

/// Whether there is a message to receive after a poll: the number of ready descriptors, or
/// `None` if polling failed, and whether the socket is readable.
pub fn message_waits(ready: Option<i32>, readable: bool) -> (r: bool)
    ensures
        r == (readable && (ready matches Some(n) && n >= 0)),
        r == message_is_there(ready, readable),
{
    match ready {
        Some(n) => n >= 0 && readable,
        None => false,
    }
}

/// A virtual machine is handed out exactly if it is configured and the last configuration of
/// its name enables it.
pub proof fn enabled_is_handed_out(list: Seq<ParametersView>, name: Seq<char>)
    requires
        registry(list).len() <= usize::MAX,
    ensures
        ({
            let service = wrappers(registry(list));
            let names = list.map_values(|p: ParametersView| p.name);
            match keyed::place_of(names, name) {
                Some(i) => if list[i].enable {
                    vm_answer(service, name) is Ok
                } else {
                    vm_answer(service, name) == Err::<usize, StatusView>(
                        status::exception(
                            ExceptionCode::UnsupportedOperation,
                            "enable bit false."@,
                        ),
                    )
                },
                None => vm_answer(service, name) == Err::<usize, StatusView>(
                    status::exception(ExceptionCode::IllegalArgument, "Invalid name"@),
                ),
            }
        }),
{
    let service = wrappers(registry(list));
    let names = list.map_values(|p: ParametersView| p.name);
    assert(known_names(service) =~= keyed::names(registry(list)));
    assert(names =~= keyed::names(named(list)));
    keyed::last_of_a_name_counts(named(list), name);
    keyed::place_holds_name(names, name);
    keyed::place_holds_name(keyed::names(registry(list)), name);
    if let Some(i) = keyed::place_of(names, name) {
        assert(names.contains(name));
    }
}

/// What is handed out for a name is the virtual machine of that name.
pub proof fn handed_out_has_the_name(list: Seq<ParametersView>, name: Seq<char>)
    requires
        registry(list).len() <= usize::MAX,
        vm_answer(wrappers(registry(list)), name) is Ok,
    ensures
        ({
            let i = vm_answer(wrappers(registry(list)), name)->Ok_0 as int;
            &&& i < new_instances(registry(list)).len()
            &&& new_instances(registry(list))[i].vm_parameters.name == name
        }),
{
    let service = wrappers(registry(list));
    assert(known_names(service) =~= keyed::names(registry(list)));
    keyed::place_holds_name(keyed::names(registry(list)), name);
    keyed::merged_keeps_names(named(list), |p: ParametersView| p.name);
}

/// An event concerns the virtual machine whose name the message gives.
pub proof fn event_reaches_the_named(list: Seq<ParametersView>, msg: Seq<u8>)
    requires
        registry(list).len() <= usize::MAX,
        event_target(wrappers(registry(list)), msg) is Some,
    ensures
        ({
            let (i, event) = event_target(wrappers(registry(list)), msg)->0;
            &&& i < new_instances(registry(list)).len()
            &&& event_of(msg) == Some(
                (event, new_instances(registry(list))[i as int].vm_parameters.name),
            )
        }),
{
    let service = wrappers(registry(list));
    assert(known_names(service) =~= keyed::names(registry(list)));
    let (_, vm_name) = event_of(msg)->0;
    keyed::place_holds_name(keyed::names(registry(list)), vm_name);
    keyed::merged_keeps_names(named(list), |p: ParametersView| p.name);
}

/// A message of the kernel that names an event and a virtual machine tells of both, whatever
/// else it holds before.
pub proof fn event_reads_back(before: Seq<char>, event: Seq<char>, vm_name: Seq<char>)
    requires
        !event.contains('\0'),
        !vm_name.contains('\0'),
    ensures
        event_of(vstd::utf8::encode_utf8(event_text(before, event, vm_name))) == Some(
            (event, vm_name),
        ),
{
    let e = uevent::field_text("EVENT"@, event);
    let n = uevent::field_text("vm_name"@, vm_name);
    let first = before.push('\0') + e;
    reveal_strlit("EVENT");
    reveal_strlit("vm_name");
    assert("EVENT"@.len() != "vm_name"@.len());
    uevent::field_reads_back("EVENT"@, event, "vm_name"@);
    uevent::field_reads_back("vm_name"@, vm_name, "EVENT"@);
    uevent::later_field_wins(before, e, "EVENT"@);
    uevent::later_field_wins(first, n, "EVENT"@);
    uevent::later_field_wins(first, n, "vm_name"@);
    vstd::utf8::encode_utf8_decode_utf8(event_text(before, event, vm_name));
    vstd::utf8::encode_utf8_valid_utf8(event_text(before, event, vm_name));
}

/// A message that names an event and a virtual machine after something else.
pub open spec fn event_text(before: Seq<char>, event: Seq<char>, vm_name: Seq<char>) -> Seq<char> {
    (before.push('\0') + uevent::field_text("EVENT"@, event)).push('\0') + uevent::field_text(
        "vm_name"@,
        vm_name,
    )
}

/// The service knows each configured name once, in the order in which the names first occur.
pub proof fn names_are_known_once(list: Seq<ParametersView>, name: Seq<char>)
    ensures
        known_names(wrappers(registry(list))).no_duplicates(),
        known_names(wrappers(registry(list))).contains(name) <==> list.map_values(
            |p: ParametersView| p.name,
        ).contains(name),
        list.map_values(|p: ParametersView| p.name).no_duplicates() ==> known_names(
            wrappers(registry(list)),
        ) == list.map_values(|p: ParametersView| p.name),
{
    let names = list.map_values(|p: ParametersView| p.name);
    assert(known_names(wrappers(registry(list))) =~= keyed::names(registry(list)));
    assert(names =~= keyed::names(named(list)));
    keyed::merged_names_are_distinct(named(list));
    keyed::merged_has_the_names_of_the_list(named(list), name);
    if names.no_duplicates() {
        keyed::distinct_names_keep_the_list(named(list));
    }
}

/// What the service knows of a name, and the virtual machine that it keeps for it, come from
/// the last configuration of that name.
pub proof fn last_configuration_counts(list: Seq<ParametersView>, k: int)
    requires
        registry(list).len() <= usize::MAX,
        0 <= k < list.len(),
        forall|j: int| k < j < list.len() ==> (#[trigger] list[j]).name != list[k].name,
    ensures
        place(registry(list), list[k].name) matches Some(i) && {
            let known = wrappers(registry(list))[i];
            let vm = new_instances(registry(list))[i];
            &&& 0 <= i < registry(list).len()
            &&& known.name == list[k].name
            &&& known.instance == i
            &&& known.enabled == list[k].enable
            &&& known.boot_complete_timeout == list[k].boot_complete_timeout
            &&& vm.vm_parameters == list[k]
            &&& vm.vm_state == VmState::NotStarted
            &&& !vm.autostart_done
            &&& vm.callbacks.len() == 0
        },
{
    let all = keyed::names(named(list));
    let name = list[k].name;
    keyed::place_holds_name(all, name);
    assert(all[k] == name);
    let last = keyed::place_of(all, name)->0;
    assert(last == k) by {
        if last > k {
            assert(list[last].name == name);
        }
    }
    keyed::last_of_a_name_counts(named(list), name);
    keyed::place_holds_name(keyed::names(registry(list)), name);
}

/// A launch without a request goes to the virtual machine of the name that asks for it, waits
/// as that configuration says, and for as long as the last configuration of the name says.
pub proof fn autostarts_go_to_the_named(list: Seq<ParametersView>, i: int, k: int)
    requires
        registry(list).len() <= usize::MAX,
        0 <= i < self_starting(list).len(),
        0 <= k < list.len(),
        list[k].name == self_starting(list)[i].0,
        forall|j: int| k < j < list.len() ==> (#[trigger] list[j]).name != list[k].name,
    ensures
        autostarts(list).len() == self_starting(list).len(),
        autostarts(list)[i].no_fs_dependency == self_starting(list)[i].1,
        autostarts(list)[i].boot_complete_timeout == list[k].boot_complete_timeout,
        autostarts(list)[i].instance < new_instances(registry(list)).len(),
        new_instances(registry(list))[autostarts(list)[i].instance as int].vm_parameters == list[k],
{
    last_configuration_counts(list, k);
}

/// The launches without a request come in the order of the configuration, one for each
/// virtual machine that is enabled and is to start by itself.
pub proof fn autostarts_come_in_order(a: Seq<ParametersView>, p: ParametersView, b: Seq<ParametersView>)
    ensures
        self_starting(a + b) == self_starting(a) + self_starting(b),
        self_starting(seq![p]) == if p.autostart && p.enable {
            seq![(p.name, p.no_fs_dependency)]
        } else {
            Seq::empty()
        },
    decreases b.len(),
{
    if b.len() == 0 {
        assert(a + b =~= a);
        assert(self_starting(a) + self_starting(b) =~= self_starting(a));
    } else {
        autostarts_come_in_order(a, p, b.drop_last());
        assert((a + b).drop_last() =~= a + b.drop_last());
        assert(self_starting(a + b) =~= self_starting(a) + self_starting(b));
    }
    let one = seq![p];
    assert(one.drop_last() =~= Seq::<ParametersView>::empty());
    assert(self_starting(one.drop_last()) =~= Seq::<(Seq<char>, bool)>::empty());
    if p.autostart && p.enable {
        assert(self_starting(one) =~= seq![(p.name, p.no_fs_dependency)]);
    } else {
        assert(self_starting(one) =~= Seq::empty());
    }
}

/// Every configured virtual machine is published under its name as not started, in order.
pub proof fn all_are_published_as_not_started(list: Seq<ParametersView>)
    ensures
        first_properties(list).len() == list.len(),
        forall|i: int|
            0 <= i < list.len() ==> #[trigger] first_properties(list)[i] == (
                "vendor.qvirtmgr."@ + list[i].name + ".status"@,
                "NOT_STARTED"@,
            ),
{
}

/// A launch waits exactly if it depends on the host, then for the property that tells of the
/// end of its boot, and no longer than configured.
pub proof fn waits_exactly_if_it_depends_on_the_host(a: Autostart)
    ensures
        waits_for(a) is Some <==> !a.no_fs_dependency,
        waits_for(a) matches Some((property, value, seconds)) ==> property
            == "sys.boot_completed"@ && value == "1"@ && seconds == a.boot_complete_timeout,
{
}

/// A virtual machine is launched after a wait exactly if what it waited for happened in time,
/// and then as any launch of it begins.
pub proof fn launched_exactly_in_time(vm: InstanceView, in_time: bool)
    ensures
        launched_after_wait(vm, in_time) is Some <==> in_time,
        launched_after_wait(vm, in_time) matches Some(step) ==> step
            == virtual_machine::launch_of(vm),
{
}

/// There is a message exactly if polling succeeded and the socket is readable; the number of
/// ready descriptors matters only in that it is not negative.
pub proof fn message_is_there_if_readable(n: i32, readable: bool)
    ensures
        !message_is_there(None, readable),
        n >= 0 ==> message_is_there(Some(n), readable) == readable,
        n < 0 ==> !message_is_there(Some(n), readable),
{
}

/// A message tells of an event and a virtual machine exactly if it is text and has a field for
/// each of them, and tells of their values.
pub proof fn event_and_name_are_the_fields(msg: Seq<u8>, event: Seq<char>, vm_name: Seq<char>)
    ensures
        event_of(msg) == Some((event, vm_name)) <==> {
            &&& vstd::utf8::valid_utf8(msg)
            &&& uevent::message_value(vstd::utf8::decode_utf8(msg), "EVENT"@) == Some(event)
            &&& uevent::message_value(vstd::utf8::decode_utf8(msg), "vm_name"@) == Some(vm_name)
        },
{
}

/// A message that tells of a configured virtual machine reaches that one, with its event, and
/// any other message reaches none.
pub proof fn event_reaches_whoever_is_configured(
    list: Seq<ParametersView>,
    msg: Seq<u8>,
    event: Seq<char>,
    vm_name: Seq<char>,
)
    requires
        registry(list).len() <= usize::MAX,
        event_of(msg) == Some((event, vm_name)),
    ensures
        ({
            let target = event_target(wrappers(registry(list)), msg);
            &&& target is Some <==> list.map_values(|p: ParametersView| p.name).contains(vm_name)
            &&& target matches Some((i, told)) ==> told == event && i < registry(list).len()
                && new_instances(registry(list))[i as int].vm_parameters.name == vm_name
        }),
{
    let service = wrappers(registry(list));
    let names = list.map_values(|p: ParametersView| p.name);
    assert(known_names(service) =~= keyed::names(registry(list)));
    assert(names =~= keyed::names(named(list)));
    keyed::last_of_a_name_counts(named(list), vm_name);
    keyed::place_holds_name(keyed::names(registry(list)), vm_name);
    keyed::merged_keeps_names(named(list), |p: ParametersView| p.name);
}

/// A message that tells of no event or no virtual machine reaches none.
pub proof fn no_event_reaches_nobody(service: Seq<WrapperView>, msg: Seq<u8>)
    requires
        event_of(msg) is None,
    ensures
        event_target(service, msg) is None,
{
}

/// A virtual machine is handed out exactly if it is enabled, and it is that one; one that is
/// not enabled and one that is not there are refused in different words.
pub proof fn handed_out_exactly_if_enabled(instance: usize)
    ensures
        handed_out(Some((instance, true))) == Ok::<usize, StatusView>(instance),
        handed_out(Some((instance, false))) matches Err(e) && e.code
            == status::StatusCode::Exception(ExceptionCode::UnsupportedOperation) && e.message
            == Some("enable bit false."@),
        handed_out(None) matches Err(e) && e.code == status::StatusCode::Exception(
            ExceptionCode::IllegalArgument,
        ) && e.message == Some("Invalid name"@),
{
}

/// What the service knows shows in its parts, each in its own and the virtual machines in their
/// order.
pub proof fn service_shows_its_parts(service: VirtualizationService, w: VmInstanceWrapper)
    ensures
        w@.name == w.name@,
        w@.instance == w.instance,
        w@.enabled == w.enabled,
        w@.boot_complete_timeout == w.boot_complete_timeout,
        service@.len() == service.vm_instance_map@.len(),
        forall|i: int|
            0 <= i < service@.len() ==> #[trigger] service@[i] == service.vm_instance_map@[i]@,
{
}

} // verus!
