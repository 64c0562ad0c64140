//! The service that knows all virtual machines, where a machine may depend on any property
//! of the host, may be watched after its launch and may be shut down automatically.
use crate::json;
use crate::json::JsonValue;
use crate::keyed;
use crate::qvirtservice::config;
use crate::qvirtservice::config::ConfigError;
use crate::qvirtservice::virtualization_service;
use crate::qvirtservice::virtualization_service::{PropertyWait, PROPERTY_SET};
use crate::status;
use crate::status::{ExceptionCode, Status, StatusView};
use crate::text;
use crate::uevent;
use vstd::prelude::*;

verus! {

/// Where the configuration is kept.
pub const VENDOR_CONFIG_FILE: &'static str = "/vendor/etc/qvirtmgr-vndr.json";

/// The parameters of a virtual machine, as far as the service goes by them.
#[derive(Debug, Clone)]
pub struct VmParameters {
    pub name: String,
    pub enable: bool,
    pub no_fs_dependency: bool,
    /// In seconds.
    pub fs_dependency_timeout: u16,
    pub fs_dependency_prop: String,
    pub autostart: bool,
    pub vm_ssr_enable: bool,
    pub vm_autoshutdown_enable: bool,
}

/// What the parameters of a virtual machine are.
pub struct ParametersView {
    pub name: Seq<char>,
    pub enable: bool,
    pub no_fs_dependency: bool,
    pub fs_dependency_timeout: u16,
    pub fs_dependency_prop: Seq<char>,
    pub autostart: bool,
    pub vm_ssr_enable: bool,
    pub vm_autoshutdown_enable: bool,
}

impl View for VmParameters {
    type V = ParametersView;

    open spec fn view(&self) -> ParametersView {
        ParametersView {
            name: self.name@,
            enable: self.enable,
            no_fs_dependency: self.no_fs_dependency,
            fs_dependency_timeout: self.fs_dependency_timeout,
            fs_dependency_prop: self.fs_dependency_prop@,
            autostart: self.autostart,
            vm_ssr_enable: self.vm_ssr_enable,
            vm_autoshutdown_enable: self.vm_autoshutdown_enable,
        }
    }
}

/// What a virtual machine depends on before it is launched.
#[derive(Debug)]
pub struct FsDependency {
    pub no_fs_dependency: bool,
    pub fs_dependency_prop: String,
}

/// A virtual machine as the service knows it.
#[derive(Debug)]
pub struct VmInstanceWrapper {
    pub name: String,
    /// The place of the virtual machine among the instances.
    pub instance: usize,
    pub enabled: bool,
    /// In seconds.
    pub fs_dependency_timeout: u16,
}

/// What the service knows of a virtual machine.
pub struct WrapperView {
    pub name: Seq<char>,
    pub instance: usize,
    pub enabled: bool,
    pub fs_dependency_timeout: u16,
}

impl View for VmInstanceWrapper {
    type V = WrapperView;

    open spec fn view(&self) -> WrapperView {
        WrapperView {
            name: self.name@,
            instance: self.instance,
            enabled: self.enabled,
            fs_dependency_timeout: self.fs_dependency_timeout,
        }
    }
}

impl keyed::Named for VmInstanceWrapper {
    open spec fn label(&self) -> Seq<char> {
        self.name@
    }

    fn name(&self) -> (r: &str) {
        self.name.as_str()
    }
}

/// The service.
#[derive(Debug)]
pub struct VirtualizationService {
    pub vm_instance_map: Vec<VmInstanceWrapper>,
}

impl View for VirtualizationService {
    type V = Seq<WrapperView>;

    open spec fn view(&self) -> Seq<WrapperView> {
        self.vm_instance_map@.map_values(|w: VmInstanceWrapper| w@)
    }
}

/// A launch that happens without a request.
#[derive(Debug)]
pub struct Autostart {
    /// The place of the virtual machine among the instances.
    pub instance: usize,
    pub fs_dependency: FsDependency,
    /// In seconds.
    pub fs_dependency_timeout: u16,
}

/// What a launch without a request is.
pub struct AutostartView {
    pub instance: usize,
    pub no_fs_dependency: bool,
    pub fs_dependency_prop: Seq<char>,
    pub fs_dependency_timeout: u16,
}

impl View for Autostart {
    type V = AutostartView;

    open spec fn view(&self) -> AutostartView {
        AutostartView {
            instance: self.instance,
            no_fs_dependency: self.fs_dependency.no_fs_dependency,
            fs_dependency_prop: self.fs_dependency.fs_dependency_prop@,
            fs_dependency_timeout: self.fs_dependency_timeout,
        }
    }
}

/// The service as it is set up, and what is to be done about it.
#[derive(Debug)]
pub struct Setup {
    pub service: VirtualizationService,
    /// The virtual machines to create, in order, each with the place at which it replaces
    /// whatever was created there before.
    pub created: Vec<(usize, VmParameters)>,
    /// The launches without a request.
    pub autostart: Vec<Autostart>,
}

/// The parameters that the values hold.
pub open spec fn views(list: Seq<VmParameters>) -> Seq<ParametersView> {
    list.map_values(|p: VmParameters| p@)
}

/// The configured virtual machines with their names.
pub open spec fn named(list: Seq<ParametersView>) -> Seq<(Seq<char>, ParametersView)> {
    list.map_values(|p: ParametersView| (p.name, p))
}

/// The virtual machines that a configuration comes to, by their places.
pub open spec fn registry(list: Seq<ParametersView>) -> Seq<(Seq<char>, ParametersView)> {
    keyed::merged(named(list))
}

/// The place of the virtual machine of the given name.
pub open spec fn place(reg: Seq<(Seq<char>, ParametersView)>, name: Seq<char>) -> Option<int> {
    keyed::place_of(keyed::names(reg), name)
}

/// What the service knows of its virtual machines.
pub open spec fn wrappers(reg: Seq<(Seq<char>, ParametersView)>) -> Seq<WrapperView> {
    Seq::new(
        reg.len(),
        |i: int|
            WrapperView {
                name: reg[i].0,
                instance: i as usize,
                enabled: reg[i].1.enable,
                fs_dependency_timeout: reg[i].1.fs_dependency_timeout,
            },
    )
}

/// The names that the service knows.
pub open spec fn known_names(service: Seq<WrapperView>) -> Seq<Seq<char>> {
    service.map_values(|w: WrapperView| w.name)
}

/// The virtual machines to create: every configured one, at the place of its name.
pub open spec fn creations(list: Seq<ParametersView>) -> Seq<(usize, ParametersView)> {
    list.map_values(
        |p: ParametersView| (place(registry(list), p.name)->0 as usize, p),
    )
}

/// What is to be created.
pub open spec fn creation_views(created: Seq<(usize, VmParameters)>) -> Seq<
    (usize, ParametersView),
> {
    created.map_values(|c: (usize, VmParameters)| (c.0, c.1@))
}

/// The configured virtual machines that are enabled and start by themselves, in order.
pub open spec fn self_starting(list: Seq<ParametersView>) -> Seq<ParametersView>
    decreases list.len(),
{
    if list.len() == 0 {
        Seq::empty()
    } else {
        let before = self_starting(list.drop_last());
        if list.last().autostart && list.last().enable {
            before.push(list.last())
        } else {
            before
        }
    }
}

/// The launches without a request: of the machines that have the names of those that start
/// by themselves.
pub open spec fn autostarts(list: Seq<ParametersView>) -> Seq<AutostartView> {
    self_starting(list).map_values(|p: ParametersView| autostart_of(p, registry(list)))
}

/// The launch without a request of the virtual machine that has the name of the given one.
pub open spec fn autostart_of(
    p: ParametersView,
    reg: Seq<(Seq<char>, ParametersView)>,
) -> AutostartView {
    let i = place(reg, p.name)->0;
    AutostartView {
        instance: i as usize,
        no_fs_dependency: p.no_fs_dependency,
        fs_dependency_prop: p.fs_dependency_prop,
        fs_dependency_timeout: reg[i].1.fs_dependency_timeout,
    }
}

/// What the values are.
pub open spec fn autostart_views(list: Seq<Autostart>) -> Seq<AutostartView> {
    list.map_values(|a: Autostart| a@)
}

/// The names and dependencies that the pairs hold.
spec fn wanted_views(wanted: Seq<(String, FsDependency)>) -> Seq<(Seq<char>, bool, Seq<char>)> {
    wanted.map_values(
        |w: (String, FsDependency)| (w.0@, w.1.no_fs_dependency, w.1.fs_dependency_prop@),
    )
}

spec fn wanted_of(list: Seq<ParametersView>) -> Seq<(Seq<char>, bool, Seq<char>)> {
    self_starting(list).map_values(
        |p: ParametersView| (p.name, p.no_fs_dependency, p.fs_dependency_prop),
    )
}

impl VirtualizationService {
    fn find(&self, name: &str) -> (r: Option<usize>)
        ensures
            r is Some <==> keyed::place_of(known_names(self@), name@) is Some,
            r matches Some(i) ==> i < self@.len() && keyed::place_of(known_names(self@), name@)
                == Some(i as int),
    {
        assert(known_names(self@) =~= keyed::labels(self.vm_instance_map@));
        keyed::find(&self.vm_instance_map, name)
    }

    /// Sets the service up for the configured virtual machines.
    pub fn virtualization_service(vm_parameters_list: Vec<VmParameters>) -> (r: Setup)
        ensures
            ({
                let list = views(vm_parameters_list@);
                &&& r.service@ == wrappers(registry(list))
                &&& creation_views(r.created@) == creations(list)
                &&& autostart_views(r.autostart@) == autostarts(list)
            }),
    {
        let ghost list = views(vm_parameters_list@);
        let mut wanted: Vec<(String, FsDependency)> = Vec::new();
        let mut service = VirtualizationService { vm_instance_map: Vec::new() };
        let mut created: Vec<(usize, VmParameters)> = Vec::new();
        proof {
            assert(named(list.take(0)) =~= Seq::empty());
            assert(service@ =~= wrappers(registry(list.take(0))));
            assert(creation_views(created@) =~= creations(list).take(0));
            assert(wanted_views(wanted@) =~= wanted_of(list.take(0)));
        }
        for p in it: vm_parameters_list
            invariant
                list == views(it.seq()),
                service@ == wrappers(registry(list.take(it.index()))),
                creation_views(created@) == creations(list).take(it.index()),
                wanted_views(wanted@) == wanted_of(list.take(it.index())),
        {
            let ghost k = it.index();
            let ghost before = registry(list.take(k));
            let ghost after = registry(list.take(k + 1));
            let ghost params = p@;
            let ghost wanted_before = wanted@;
            let ghost created_before = created@;
            let ghost service_before = service@;
            proof {
                assert(params == list[k]);
                assert(list.take(k + 1).drop_last() =~= list.take(k));
                assert(named(list.take(k + 1)).drop_last() =~= named(list.take(k)));
                assert(named(list.take(k + 1)).last() == (params.name, params));
                assert(known_names(service@) =~= keyed::names(before));
                keyed::place_holds_name(keyed::names(before), params.name);
            }
            let name = p.name.clone();
            if p.autostart && p.enable {
                let dependency = FsDependency {
                    no_fs_dependency: p.no_fs_dependency,
                    fs_dependency_prop: p.fs_dependency_prop.clone(),
                };
                wanted.push((p.name.clone(), dependency));
                proof {
                    let w = (params.name, params.no_fs_dependency, params.fs_dependency_prop);
                    assert(wanted_views(wanted@) =~= wanted_views(wanted_before).push(w));
                    assert(wanted_of(list.take(k + 1)) =~= wanted_of(list.take(k)).push(w));
                }
            } else {
                assert(wanted_of(list.take(k + 1)) =~= wanted_of(list.take(k)));
            }
            let place = service.find(name.as_str());
            let index: usize = match place {
                Some(i) => i,
                None => service.vm_instance_map.len(),
            };
            let known = VmInstanceWrapper {
                name,
                instance: index,
                enabled: p.enable,
                fs_dependency_timeout: p.fs_dependency_timeout,
            };
            match place {
                Some(i) => {
                    service.vm_instance_map.set(i, known);
                    proof {
                        assert(after == before.update(i as int, (params.name, params)));
                        assert(service@ =~= service_before.update(i as int, known@));
                    }
                },
                None => {
                    service.vm_instance_map.push(known);
                    proof {
                        assert(after == before.push((params.name, params)));
                        assert(service@ =~= service_before.push(known@));
                    }
                },
            }
            created.push((index, p));
            proof {
                assert(service@ =~= wrappers(after));
                last_place(before, params);
                assert(keyed::place_of(keyed::names(after), params.name) == Some(index as int));
                assert(named(list).take(k + 1) =~= named(list.take(k + 1)));
                keyed::places_are_kept(named(list), k + 1, params.name);
                assert(creation_views(created@) =~= creation_views(created_before).push(
                    (index, params),
                ));
                assert(creations(list).take(k + 1) =~= creations(list).take(k).push(
                    (index, params),
                ));
            }
        }
        assert(list.take(list.len() as int) =~= list);
        assert(creations(list).take(list.len() as int) =~= creations(list));
        let ghost reg = registry(list);
        let mut autostart: Vec<Autostart> = Vec::new();
        assert(known_names(service@) =~= keyed::names(reg));
        assert(autostart_views(autostart@) =~= autostarts(list).take(0));
        for w in it: wanted
            invariant
                reg == registry(list),
                service@ == wrappers(reg),
                known_names(service@) == keyed::names(reg),
                wanted_views(it.seq()) == wanted_of(list),
                autostart_views(autostart@) == autostarts(list).take(it.index()),
        {
            let ghost k = it.index();
            let ghost before = autostart@;
            let (name, fs_dependency) = w;
            proof {
                let view = wanted_views(it.seq())[k];
                assert(view == (
                    name@,
                    fs_dependency.no_fs_dependency,
                    fs_dependency.fs_dependency_prop@,
                ));
                assert(self_starting(list).len() == wanted_of(list).len());
                assert(view == wanted_of(list)[k]);
                self_starting_is_known(list, k);
            }
            if let Some(place) = service.find(name.as_str()) {
                assert(service@[place as int] == wrappers(reg)[place as int]);
                let a = Autostart {
                    instance: place,
                    fs_dependency,
                    fs_dependency_timeout: service.vm_instance_map[place].fs_dependency_timeout,
                };
                assert(a@ == autostarts(list)[k]);
                autostart.push(a);
                assert(autostart_views(autostart@) =~= autostart_views(before).push(a@));
            }
            assert(autostart_views(autostart@) =~= autostarts(list).take(k + 1));
        }
        assert(autostart_views(autostart@) =~= autostarts(list));
        Setup { service, created, autostart }
    }
}

/// The place at which a virtual machine ends up that is configured last.
proof fn last_place(before: Seq<(Seq<char>, ParametersView)>, p: ParametersView)
    ensures
        match keyed::place_of(keyed::names(before), p.name) {
            Some(i) => keyed::place_of(keyed::names(before.update(i, (p.name, p))), p.name)
                == Some(i),
            None => keyed::place_of(keyed::names(before.push((p.name, p))), p.name) == Some(
                before.len() as int,
            ),
        },
{
    keyed::place_holds_name(keyed::names(before), p.name);
    match keyed::place_of(keyed::names(before), p.name) {
        Some(i) => {
            assert(keyed::names(before.update(i, (p.name, p))) =~= keyed::names(before));
        },
        None => {
            assert(keyed::names(before.push((p.name, p))) =~= keyed::names(before).push(p.name));
        },
    }
}

/// Every virtual machine that is launched without a request is known to the service.
pub proof fn self_starting_is_known(list: Seq<ParametersView>, i: int)
    requires
        0 <= i < self_starting(list).len(),
    ensures
        place(registry(list), self_starting(list)[i].name) is Some,
{
    let p = self_starting(list)[i];
    self_starting_is_configured(list, p);
    let k = choose|k: int| 0 <= k < list.len() && list[k] == p;
    keyed::listed_has_a_place(named(list), k);
}

/// Exactly the configured virtual machines that are enabled and are to start by themselves
/// are launched without a request.
pub proof fn self_starting_is_configured(list: Seq<ParametersView>, p: ParametersView)
    ensures
        self_starting(list).contains(p) <==> list.contains(p) && p.autostart && p.enable,
    decreases list.len(),
{
    if list.len() > 0 {
        let init = list.drop_last();
        let before = self_starting(init);
        self_starting_is_configured(init, p);
        if list.contains(p) && p != list.last() {
            let k = choose|k: int| 0 <= k < list.len() && list[k] == p;
            assert(init[k] == p);
        }
        if init.contains(p) {
            let k = choose|k: int| 0 <= k < init.len() && init[k] == p;
            assert(list[k] == p);
        }
        assert(list[list.len() - 1] == list.last());
        if before.contains(p) {
            let k = choose|k: int| 0 <= k < before.len() && before[k] == p;
            assert(self_starting(list)[k] == p);
        }
        if self_starting(list).contains(p) && p != list.last() {
            let k = choose|k: int|
                0 <= k < self_starting(list).len() && self_starting(list)[k] == p;
            assert(before[k] == p);
        }
        if p == list.last() && p.autostart && p.enable {
            assert(self_starting(list)[before.len() as int] == p);
        }
    }
}

/// The things at their places after one was put at a place: it replaces what is there, or is
/// added behind the last one.
pub open spec fn put_at<M>(things: Seq<M>, place: usize, thing: M) -> Seq<M> {
    if place < things.len() {
        things.update(place as int, thing)
    } else {
        things.push(thing)
    }
}

/// Puts a virtual machine that was created at its place.
pub fn put<M>(machines: &mut Vec<M>, place: usize, machine: M)
    ensures
        final(machines)@ == put_at(old(machines)@, place, machine),
{
    if place < machines.len() {
        machines.set(place, machine);
    } else {
        machines.push(machine);
    }
}

/// What is at the places after all was put there in order.
pub open spec fn placed<M>(created: Seq<(usize, M)>) -> Seq<M>
    decreases created.len(),
{
    if created.len() == 0 {
        Seq::empty()
    } else {
        put_at(placed(created.drop_last()), created.last().0, created.last().1)
    }
}

/// The virtual machines that are created end up at the places at which the service knows
/// them, each with the parameters that are configured last for its name.
pub proof fn created_are_at_their_places(list: Seq<ParametersView>)
    requires
        registry(list).len() <= usize::MAX,
    ensures
        placed(creations(list)) == registry(list).map_values(
            |e: (Seq<char>, ParametersView)| e.1,
        ),
{
    placed_up_to(list, list.len() as int);
    assert(creations(list).take(list.len() as int) =~= creations(list));
    assert(list.take(list.len() as int) =~= list);
}

proof fn placed_up_to(list: Seq<ParametersView>, k: int)
    requires
        0 <= k <= list.len(),
        registry(list).len() <= usize::MAX,
    ensures
        placed(creations(list).take(k)) == registry(list.take(k)).map_values(
            |e: (Seq<char>, ParametersView)| e.1,
        ),
    decreases k,
{
    let here = registry(list.take(k));
    if k == 0 {
        assert(named(list.take(0)) =~= Seq::empty());
        assert(here.map_values(|e: (Seq<char>, ParametersView)| e.1) =~= Seq::empty());
    } else {
        let p = list[k - 1];
        let before = registry(list.take(k - 1));
        placed_up_to(list, k - 1);
        assert(creations(list).take(k).drop_last() =~= creations(list).take(k - 1));
        assert(named(list.take(k)).drop_last() =~= named(list.take(k - 1)));
        assert(named(list.take(k)).last() == (p.name, p));
        assert(named(list).take(k) =~= named(list.take(k)));
        last_place(before, p);
        keyed::place_holds_name(keyed::names(before), p.name);
        keyed::places_are_kept(named(list), k, p.name);
        keyed::place_holds_name(keyed::names(registry(list)), p.name);
        let all = |e: (Seq<char>, ParametersView)| e.1;
        assert(placed(creations(list).take(k)) =~= here.map_values(all));
    }
}

/// What is to be done next about a launch without a request.
#[derive(Debug)]
pub enum AutostartStep {
    /// Begin to watch the property.
    Watch { property: String },
    /// Wait until the watched property has the value.
    Wait(PropertyWait),
    /// Launch the virtual machine.
    Launch,
    /// Take note that the virtual machine will not be launched without a request.
    GiveUp,
}

/// What a step is.
pub enum StepView {
    Watch { property: Seq<char> },
    Wait { property: Seq<char>, value: Seq<char>, seconds: u16 },
    Launch,
    GiveUp,
}

impl View for AutostartStep {
    type V = StepView;

    open spec fn view(&self) -> StepView {
        match *self {
            AutostartStep::Watch { property } => StepView::Watch { property: property@ },
            AutostartStep::Wait(w) => StepView::Wait {
                property: w.property@,
                value: w.value@,
                seconds: w.seconds,
            },
            AutostartStep::Launch => StepView::Launch,
            AutostartStep::GiveUp => StepView::GiveUp,
        }
    }
}

/// The first step: a launch that depends on nothing happens at once.
pub open spec fn autostart_begins(a: AutostartView) -> StepView {
    if a.no_fs_dependency {
        StepView::Launch
    } else {
        StepView::Watch { property: a.fs_dependency_prop }
    }
}

/// The step once the property is watched, or cannot be.
pub open spec fn autostart_watched(a: AutostartView, watched: bool) -> StepView {
    if watched {
        StepView::Wait {
            property: a.fs_dependency_prop,
            value: PROPERTY_SET@,
            seconds: a.fs_dependency_timeout,
        }
    } else {
        StepView::GiveUp
    }
}

/// The step once the property has the value, or the time is up.
pub open spec fn autostart_waited(in_time: bool) -> StepView {
    if in_time {
        StepView::Launch
    } else {
        StepView::GiveUp
    }
}

impl Autostart {
    /// The first step: a launch that depends on nothing happens at once, and before the
    /// service is offered to clients.
    pub fn begin(&self) -> (r: AutostartStep)
        ensures
            r@ == autostart_begins(self@),
    {
        if self.fs_dependency.no_fs_dependency {
            AutostartStep::Launch
        } else {
            AutostartStep::Watch { property: self.fs_dependency.fs_dependency_prop.clone() }
        }
    }

    /// Goes on once the property is watched, or cannot be.
    pub fn after_watch(&self, watched: bool) -> (r: AutostartStep)
        ensures
            r@ == autostart_watched(self@, watched),
    {
        if watched {
            AutostartStep::Wait(
                PropertyWait {
                    property: self.fs_dependency.fs_dependency_prop.clone(),
                    value: PROPERTY_SET.to_owned(),
                    seconds: self.fs_dependency_timeout,
                },
            )
        } else {
            AutostartStep::GiveUp
        }
    }

    /// Goes on once the property has the value, or the time is up.
    pub fn after_wait(&self, in_time: bool) -> (r: AutostartStep)
        ensures
            r@ == autostart_waited(in_time),
    {
        if in_time {
            AutostartStep::Launch
        } else {
            AutostartStep::GiveUp
        }
    }
}

/// The last step of a launch without a request, given whether the property can be watched
/// and takes the value in time.
pub open spec fn autostart_outcome(a: AutostartView, watched: bool, in_time: bool) -> StepView {
    match autostart_begins(a) {
        StepView::Watch { .. } => match autostart_watched(a, watched) {
            StepView::Wait { .. } => autostart_waited(in_time),
            step => step,
        },
        step => step,
    }
}

/// A virtual machine is launched without a request exactly if it depends on nothing or what
/// it depends on happens in time; if not, it is left to requests.
pub proof fn launched_once_nothing_is_missing(a: AutostartView, watched: bool, in_time: bool)
    ensures
        autostart_outcome(a, watched, in_time) == if a.no_fs_dependency || (watched && in_time) {
            StepView::Launch
        } else {
            StepView::GiveUp
        },
{
}

/// What is known of a virtual machine after its launch.
#[derive(Debug, PartialEq, Eq, Structural, Clone, Copy)]
pub struct Launched {
    pub vm_ssr_enable: bool,
    pub vm_autoshutdown_enable: bool,
    pub autostart_done: bool,
}

/// What is to be done about a virtual machine after its launch.
#[derive(Debug, PartialEq, Eq, Structural, Clone, Copy)]
pub struct FollowUp {
    /// Connect to it.
    pub connect: bool,
    /// After that, see to its automatic shutdown.
    pub auto_shutdown: bool,
}

/// What follows a launch: a connection if subsystem restart is enabled, and automatic
/// shutdown if that is enabled too; after a launch that depended on nothing, only if the
/// launch is over. Nothing follows if the virtual machine could not be reached.
pub open spec fn follow_up(no_fs_dependency: bool, launched: Option<Launched>) -> FollowUp {
    match launched {
        Some(l) => {
            let over = l.autostart_done || !no_fs_dependency;
            FollowUp {
                connect: l.vm_ssr_enable && over,
                auto_shutdown: l.vm_ssr_enable && l.vm_autoshutdown_enable && over,
            }
        },
        None => FollowUp { connect: false, auto_shutdown: false },
    }
}

/// What follows a launch; `None` if the virtual machine could not be reached.
pub fn after_launch(no_fs_dependency: bool, launched: Option<Launched>) -> (r: FollowUp)
    ensures
        r == follow_up(no_fs_dependency, launched),
{
    match launched {
        Some(l) => {
            let over = l.autostart_done || !no_fs_dependency;
            FollowUp {
                connect: l.vm_ssr_enable && over,
                auto_shutdown: l.vm_ssr_enable && l.vm_autoshutdown_enable && over,
            }
        },
        None => FollowUp { connect: false, auto_shutdown: false },
    }
}

/// There is no automatic shutdown without a connection before it.
pub proof fn shutdown_follows_connection(no_fs_dependency: bool, launched: Option<Launched>)
    ensures
        follow_up(no_fs_dependency, launched).auto_shutdown ==> follow_up(
            no_fs_dependency,
            launched,
        ).connect,
{
}

/// What a message of the kernel says.
#[derive(Debug)]
pub struct UeventInfo {
    pub vm_name: String,
    pub event: String,
    pub event_reason: u32,
}

/// What the message says.
pub struct InfoView {
    pub vm_name: Seq<char>,
    pub event: Seq<char>,
    pub event_reason: u32,
}

impl View for UeventInfo {
    type V = InfoView;

    open spec fn view(&self) -> InfoView {
        InfoView {
            vm_name: self.vm_name@,
            event: self.event@,
            event_reason: self.event_reason,
        }
    }
}

impl UeventInfo {
    /// What a message says.
    pub fn new(vm_name: String, event: String, event_reason: u32) -> (r: UeventInfo)
        ensures
            r@ == (InfoView { vm_name: vm_name@, event: event@, event_reason }),
    {
        UeventInfo { vm_name, event, event_reason }
    }
}

/// The value, or the empty text.
pub open spec fn or_empty(s: Option<Seq<char>>) -> Seq<char> {
    match s {
        Some(s) => s,
        None => Seq::empty(),
    }
}

/// The number in a text, or zero.
pub open spec fn reason_of(s: Option<Seq<char>>) -> u32 {
    match s {
        Some(s) => match text::number_u32(s) {
            Some(n) => n,
            None => 0,
        },
        None => 0,
    }
}

/// What a message of the kernel says, if it is text; what it does not say is empty or zero.
pub open spec fn info_of(msg: Seq<u8>) -> Option<InfoView> {
    if vstd::utf8::valid_utf8(msg) {
        let chars = vstd::utf8::decode_utf8(msg);
        Some(
            InfoView {
                vm_name: or_empty(uevent::message_value(chars, "vm_name"@)),
                event: or_empty(uevent::message_value(chars, "EVENT"@)),
                event_reason: reason_of(uevent::message_value(chars, "vm_exit"@)),
            },
        )
    } else {
        None
    }
}

/// The virtual machine that a request for the given name is answered with, by its place.
pub open spec fn vm_answer(service: Seq<WrapperView>, name: Seq<char>) -> Result<
    usize,
    StatusView,
> {
    virtualization_service::handed_out(
        match keyed::place_of(known_names(service), name) {
            Some(i) => Some((service[i].instance, service[i].enabled)),
            None => None,
        },
    )
}

/// An event for a virtual machine.
#[derive(Debug)]
pub struct Dispatch {
    /// The place of the virtual machine among the instances.
    pub instance: usize,
    pub event: String,
    /// The reason in decimal notation.
    pub event_reason: String,
}

/// What an event for a virtual machine is.
pub struct DispatchView {
    pub instance: usize,
    pub event: Seq<char>,
    pub event_reason: Seq<char>,
}

impl View for Dispatch {
    type V = DispatchView;

    open spec fn view(&self) -> DispatchView {
        DispatchView {
            instance: self.instance,
            event: self.event@,
            event_reason: self.event_reason@,
        }
    }
}

/// The virtual machine that a message of the kernel concerns, and what it is told.
pub open spec fn dispatched(service: Seq<WrapperView>, msg: Seq<u8>) -> Option<DispatchView> {
    match info_of(msg) {
        Some(info) => match keyed::place_of(known_names(service), info.vm_name) {
            Some(i) => Some(
                DispatchView {
                    instance: service[i].instance,
                    event: info.event,
                    event_reason: text::decimal(info.event_reason as nat),
                },
            ),
            None => None,
        },
        None => None,
    }
}

impl VirtualizationService {
    /// The virtual machine of the given name, by its place, if it may be handed out.
    pub fn get_vm(&self, vm_name: &str) -> (r: Result<usize, Status>)
        ensures
            match r {
                Ok(i) => vm_answer(self@, vm_name@) == Ok::<usize, StatusView>(i),
                Err(e) => vm_answer(self@, vm_name@) == Err::<usize, StatusView>(e@),
            },
    {
        match self.find(vm_name) {
            Some(i) => {
                let w = &self.vm_instance_map[i];
                assert(self@[i as int] == w@);
                virtualization_service::hand_out(Some((w.instance, w.enabled)))
            },
            None => virtualization_service::hand_out(None),
        }
    }

    /// What a message of the kernel says, if it is text.
    pub fn parse_event(msg: Vec<u8>) -> (r: Option<UeventInfo>)
        ensures
            r is Some <==> info_of(msg@) is Some,
            r matches Some(info) ==> info_of(msg@) == Some(info@),
    {
        match text::string_from_utf8(msg) {
            Some(s) => {
                let chars = text::chars_of(s.as_str());
                let event = match uevent::message_field(&chars, "EVENT") {
                    Some(v) => v,
                    None => String::new(),
                };
                let vm_name = match uevent::message_field(&chars, "vm_name") {
                    Some(v) => v,
                    None => String::new(),
                };
                let event_reason: u32 = match uevent::message_field(&chars, "vm_exit") {
                    Some(v) => match text::parse_u32(v.as_str()) {
                        Some(n) => n,
                        None => 0,
                    },
                    None => 0,
                };
                Some(UeventInfo::new(vm_name, event, event_reason))
            },
            None => None,
        }
    }

    /// The virtual machine that a message of the kernel concerns, and what it is told.
    pub fn handle_uevent_event(&self, msg: Vec<u8>) -> (r: Option<Dispatch>)
        ensures
            match info_of(msg@) {
                Some(info) => match keyed::place_of(known_names(self@), info.vm_name) {
                    Some(i) => r matches Some(d) && d.instance == self@[i].instance && d.event@
                        == info.event && d.event_reason@ == text::decimal(
                        info.event_reason as nat,
                    ),
                    None => r is None,
                },
                None => r is None,
            },
            (match r {
                Some(d) => Some(d@),
                None => None,
            }) == dispatched(self@, msg@),
    {
        match VirtualizationService::parse_event(msg) {
            Some(info) => match self.find(info.vm_name.as_str()) {
                Some(i) => {
                    assert(self@[i as int] == self.vm_instance_map@[i as int]@);
                    Some(
                        Dispatch {
                            instance: self.vm_instance_map[i].instance,
                            event: info.event,
                            event_reason: text::decimal_string(info.event_reason as u64),
                        },
                    )
                },
                None => None,
            },
            None => None,
        }
    }
}

/// The entries of the configuration file with the given content.
pub fn parse_vm_config_file(content: &[u8]) -> (r: Result<Vec<JsonValue>, ConfigError>)
    ensures
        json::document(content@) matches Err(words) ==> (r matches Err(ConfigError::Syntax(e))
            && e@ == words),
        json::document(content@) matches Ok(root) ==> match config::entries_of(root) {
            Some(entries) => r matches Ok(list) && json::trees(list@) == entries,
            None => r matches Err(ConfigError::Invalid),
        },
{
    match json::parse(content) {
        Ok(root) => config::vm_config_entries(root),
        Err(e) => Err(ConfigError::Syntax(e)),
    }
}

/// The parameters that were read, in order, without the entries that could not be read.
pub open spec fn read_ones(entries: Seq<Option<VmParameters>>) -> Seq<ParametersView>
    decreases entries.len(),
{
    if entries.len() == 0 {
        Seq::empty()
    } else {
        let before = read_ones(entries.drop_last());
        match entries.last() {
            Some(p) => before.push(p@),
            None => before,
        }
    }
}

/// The virtual machines of a configuration, given what was read of its entries: malformed
/// entries are skipped.
pub fn vm_parameters_list(entries: Vec<Option<VmParameters>>) -> (r: Vec<VmParameters>)
    ensures
        views(r@) == read_ones(entries@),
{
    let ghost all = entries@;
    let mut list: Vec<VmParameters> = Vec::new();
    assert(views(list@) =~= read_ones(all.take(0)));
    for entry in it: entries
        invariant
            it.seq() == all,
            views(list@) == read_ones(all.take(it.index())),
    {
        let ghost before = list@;
        assert(all.take(it.index() + 1).drop_last() =~= all.take(it.index()));
        if let Some(p) = entry {
            list.push(p);
            assert(views(list@) =~= views(before).push(p@));
        }
    }
    assert(all.take(all.len() as int) =~= all);
    list
}

/// Where the plain service reads an event and a virtual machine from a message, this service
/// reads the same two.
pub proof fn same_event_as_plain(msg: Seq<u8>)
    ensures
        virtualization_service::event_of(msg) matches Some((event, vm_name)) ==> (info_of(
            msg,
        ) matches Some(info) && info.event == event && info.vm_name == vm_name),
{
}

/// A virtual machine is handed out exactly if it is configured and the last configuration of
/// its name enables it.
pub proof fn enabled_is_handed_out(list: Seq<ParametersView>, name: Seq<char>)
    requires
        registry(list).len() <= usize::MAX,
    ensures
        ({
            let service = wrappers(registry(list));
            let names = list.map_values(|p: ParametersView| p.name);
            match keyed::place_of(names, name) {
                Some(i) => if list[i].enable {
                    vm_answer(service, name) is Ok
                } else {
                    vm_answer(service, name) == Err::<usize, StatusView>(
                        status::exception(
                            ExceptionCode::UnsupportedOperation,
                            "enable bit false."@,
                        ),
                    )
                },
                None => vm_answer(service, name) == Err::<usize, StatusView>(
                    status::exception(ExceptionCode::IllegalArgument, "Invalid name"@),
                ),
            }
        }),
{
    let service = wrappers(registry(list));
    let names = list.map_values(|p: ParametersView| p.name);
    assert(known_names(service) =~= keyed::names(registry(list)));
    assert(names =~= keyed::names(named(list)));
    keyed::last_of_a_name_counts(named(list), name);
    keyed::place_holds_name(names, name);
    keyed::place_holds_name(keyed::names(registry(list)), name);
    if let Some(i) = keyed::place_of(names, name) {
        assert(names.contains(name));
    }
}

/// What is handed out for a name is the virtual machine of that name.
pub proof fn handed_out_has_the_name(list: Seq<ParametersView>, name: Seq<char>)
    requires
        registry(list).len() <= usize::MAX,
        vm_answer(wrappers(registry(list)), name) is Ok,
    ensures
        ({
            let i = vm_answer(wrappers(registry(list)), name)->Ok_0 as int;
            &&& i < placed(creations(list)).len()
            &&& placed(creations(list))[i].name == name
        }),
{
    let service = wrappers(registry(list));
    assert(known_names(service) =~= keyed::names(registry(list)));
    keyed::place_holds_name(keyed::names(registry(list)), name);
    keyed::merged_keeps_names(named(list), |p: ParametersView| p.name);
    created_are_at_their_places(list);
}

/// A message with an event, a virtual machine and the reason of the event after something
/// else.
pub open spec fn info_text(before: Seq<char>, info: InfoView) -> Seq<char> {
    virtualization_service::event_text(before, info.event, info.vm_name).push('\0')
        + uevent::field_text("vm_exit"@, text::decimal(info.event_reason as nat))
}

/// A message of the kernel that names an event, a virtual machine and the reason of the event
/// tells of all three, whatever else it holds before.
pub proof fn info_reads_back(before: Seq<char>, info: InfoView)
    requires
        !info.event.contains('\0'),
        !info.vm_name.contains('\0'),
    ensures
        info_of(vstd::utf8::encode_utf8(info_text(before, info))) == Some(info),
{
    let e = uevent::field_text("EVENT"@, info.event);
    let n = uevent::field_text("vm_name"@, info.vm_name);
    let reason = text::decimal(info.event_reason as nat);
    let r = uevent::field_text("vm_exit"@, reason);
    let first = before.push('\0') + e;
    let second = first.push('\0') + n;
    reveal_strlit("EVENT");
    reveal_strlit("vm_name");
    reveal_strlit("vm_exit");
    assert("EVENT"@.len() != "vm_name"@.len());
    assert("EVENT"@.len() != "vm_exit"@.len());
    assert("vm_name"@[3] != "vm_exit"@[3]);
    text::decimal_is_digits(info.event_reason as nat);
    assert(!reason.contains('\0')) by {
        if reason.contains('\0') {
            let i = choose|i: int| 0 <= i < reason.len() && reason[i] == '\0';
            assert(text::is_digit(reason[i]));
        }
    }
    uevent::field_reads_back("EVENT"@, info.event, "vm_name"@);
    uevent::field_reads_back("vm_name"@, info.vm_name, "EVENT"@);
    uevent::field_reads_back("vm_exit"@, reason, "EVENT"@);
    uevent::field_reads_back("vm_exit"@, reason, "vm_name"@);
    uevent::later_field_wins(before, e, "EVENT"@);
    uevent::later_field_wins(first, n, "EVENT"@);
    uevent::later_field_wins(first, n, "vm_name"@);
    uevent::later_field_wins(second, r, "EVENT"@);
    uevent::later_field_wins(second, r, "vm_name"@);
    uevent::later_field_wins(second, r, "vm_exit"@);
    text::decimal_reads_back(info.event_reason);
    vstd::utf8::encode_utf8_decode_utf8(info_text(before, info));
    vstd::utf8::encode_utf8_valid_utf8(info_text(before, info));
}

/// After a launch that depended on a property, automatic shutdown follows exactly if it and
/// subsystem restart are enabled, whether or not the launch is over; after one that depended
/// on nothing, exactly if both are enabled and the launch is over.
pub proof fn shutdown_follows_exactly_if_enabled(l: Launched)
    ensures
        follow_up(false, Some(l)).auto_shutdown <==> l.vm_ssr_enable && l.vm_autoshutdown_enable,
        follow_up(true, Some(l)).auto_shutdown <==> l.vm_ssr_enable && l.vm_autoshutdown_enable
            && l.autostart_done,
{
}

/// After a launch that depended on a property, a connection follows exactly if subsystem
/// restart is enabled, whether or not the launch is over; after one that depended on nothing,
/// exactly if it is enabled and the launch is over. Automatic shutdown has no part in it.
pub proof fn connection_follows_exactly_if_enabled(l: Launched, vm_autoshutdown_enable: bool)
    ensures
        follow_up(false, Some(l)).connect <==> l.vm_ssr_enable,
        follow_up(true, Some(l)).connect <==> l.vm_ssr_enable && l.autostart_done,
        follow_up(false, Some(l)).connect == follow_up(
            false,
            Some(Launched { vm_autoshutdown_enable, ..l }),
        ).connect,
        follow_up(true, Some(l)).connect == follow_up(
            true,
            Some(Launched { vm_autoshutdown_enable, ..l }),
        ).connect,
{
}

/// Where a connection follows, automatic shutdown follows exactly if it is enabled.
pub proof fn shutdown_goes_with_the_connection(no_fs_dependency: bool, l: Launched)
    requires
        follow_up(no_fs_dependency, Some(l)).connect,
    ensures
        follow_up(no_fs_dependency, Some(l)).auto_shutdown <==> l.vm_autoshutdown_enable,
{
}

/// Once a launch is over, it makes no difference for what follows what it depended on.
pub proof fn dependency_does_not_matter_afterwards(l: Launched)
    requires
        l.autostart_done,
    ensures
        follow_up(true, Some(l)) == follow_up(false, Some(l)),
{
}

/// Nothing follows the launch of a virtual machine that cannot be reached.
pub proof fn nothing_follows_without_the_machine(no_fs_dependency: bool)
    ensures
        !follow_up(no_fs_dependency, None).connect,
        !follow_up(no_fs_dependency, None).auto_shutdown,
{
}

/// A launch that depends on a property watches that one and waits for it to be set, no longer
/// than configured.
pub proof fn watched_property_is_the_configured_one(a: AutostartView)
    ensures
        autostart_begins(a) is Watch <==> !a.no_fs_dependency,
        autostart_begins(a) matches StepView::Watch { property } ==> property
            == a.fs_dependency_prop,
        autostart_watched(a, true) matches StepView::Wait { property, value, seconds } && property
            == a.fs_dependency_prop && value == "1"@ && seconds == a.fs_dependency_timeout,
{
}

/// The service knows each configured name once, in the order in which the names first occur.
pub proof fn names_are_known_once(list: Seq<ParametersView>, name: Seq<char>)
    ensures
        known_names(wrappers(registry(list))).no_duplicates(),
        known_names(wrappers(registry(list))).contains(name) <==> list.map_values(
            |p: ParametersView| p.name,
        ).contains(name),
        list.map_values(|p: ParametersView| p.name).no_duplicates() ==> known_names(
            wrappers(registry(list)),
        ) == list.map_values(|p: ParametersView| p.name),
{
    let names = list.map_values(|p: ParametersView| p.name);
    assert(known_names(wrappers(registry(list))) =~= keyed::names(registry(list)));
    assert(names =~= keyed::names(named(list)));
    keyed::merged_names_are_distinct(named(list));
    keyed::merged_has_the_names_of_the_list(named(list), name);
    if names.no_duplicates() {
        keyed::distinct_names_keep_the_list(named(list));
    }
}

/// What the service knows of a name, and the virtual machine that is created for it last,
/// come from the last configuration of that name.
pub proof fn last_configuration_counts(list: Seq<ParametersView>, k: int)
    requires
        registry(list).len() <= usize::MAX,
        0 <= k < list.len(),
        forall|j: int| k < j < list.len() ==> (#[trigger] list[j]).name != list[k].name,
    ensures
        place(registry(list), list[k].name) matches Some(i) && {
            let known = wrappers(registry(list))[i];
            &&& 0 <= i < registry(list).len()
            &&& known.name == list[k].name
            &&& known.instance == i
            &&& known.enabled == list[k].enable
            &&& known.fs_dependency_timeout == list[k].fs_dependency_timeout
            &&& placed(creations(list))[i] == list[k]
        },
{
    let all = keyed::names(named(list));
    let name = list[k].name;
    keyed::place_holds_name(all, name);
    assert(all[k] == name);
    let last = keyed::place_of(all, name)->0;
    assert(last == k) by {
        if last > k {
            assert(list[last].name == name);
        }
    }
    keyed::last_of_a_name_counts(named(list), name);
    keyed::place_holds_name(keyed::names(registry(list)), name);
    created_are_at_their_places(list);
}

/// Every configured virtual machine is created, in the order of the configuration.
pub proof fn all_are_created_in_order(list: Seq<ParametersView>)
    ensures
        creations(list).len() == list.len(),
        forall|k: int| 0 <= k < list.len() ==> (#[trigger] creations(list)[k]).1 == list[k],
{
}

/// A launch without a request goes to the virtual machine of the name that asks for it,
/// depends on what that configuration says, and waits as long as the last configuration of
/// the name says.
pub proof fn autostarts_go_to_the_named(list: Seq<ParametersView>, i: int, k: int)
    requires
        registry(list).len() <= usize::MAX,
        0 <= i < self_starting(list).len(),
        0 <= k < list.len(),
        list[k].name == self_starting(list)[i].name,
        forall|j: int| k < j < list.len() ==> (#[trigger] list[j]).name != list[k].name,
    ensures
        autostarts(list).len() == self_starting(list).len(),
        autostarts(list)[i].no_fs_dependency == self_starting(list)[i].no_fs_dependency,
        autostarts(list)[i].fs_dependency_prop == self_starting(list)[i].fs_dependency_prop,
        autostarts(list)[i].fs_dependency_timeout == list[k].fs_dependency_timeout,
        autostarts(list)[i].instance < placed(creations(list)).len(),
        placed(creations(list))[autostarts(list)[i].instance as int] == list[k],
{
    last_configuration_counts(list, k);
    created_are_at_their_places(list);
}

/// The launches without a request come in the order of the configuration, one for each
/// virtual machine that is enabled and is to start by itself.
pub proof fn autostarts_come_in_order(a: Seq<ParametersView>, p: ParametersView, b: Seq<ParametersView>)
    ensures
        self_starting(a + b) == self_starting(a) + self_starting(b),
        self_starting(seq![p]) == if p.autostart && p.enable {
            seq![p]
        } else {
            Seq::empty()
        },
    decreases b.len(),
{
    if b.len() == 0 {
        assert(a + b =~= a);
        assert(self_starting(a) + self_starting(b) =~= self_starting(a));
    } else {
        autostarts_come_in_order(a, p, b.drop_last());
        assert((a + b).drop_last() =~= a + b.drop_last());
        assert(self_starting(a + b) =~= self_starting(a) + self_starting(b));
    }
    let one = seq![p];
    assert(one.drop_last() =~= Seq::<ParametersView>::empty());
    assert(self_starting(one.drop_last()) =~= Seq::<ParametersView>::empty());
    if p.autostart && p.enable {
        assert(self_starting(one) =~= seq![p]);
    } else {
        assert(self_starting(one) =~= Seq::empty());
    }
}

/// The entries that were read are kept in their order, and those that could not be read are
/// skipped wherever they stand.
pub proof fn read_entries_are_kept(
    a: Seq<Option<VmParameters>>,
    p: VmParameters,
    b: Seq<Option<VmParameters>>,
)
    ensures
        read_ones(a + b) == read_ones(a) + read_ones(b),
        read_ones(a.push(Some(p))) == read_ones(a).push(p@),
        read_ones(a.push(None)) == read_ones(a),
        read_ones(Seq::empty()).len() == 0,
    decreases b.len(),
{
    assert(a.push(Some(p)).drop_last() =~= a);
    assert(a.push(None).drop_last() =~= a);
    if b.len() == 0 {
        assert(a + b =~= a);
        assert(read_ones(a) + read_ones(b) =~= read_ones(a));
    } else {
        read_entries_are_kept(a, p, b.drop_last());
        assert((a + b).drop_last() =~= a + b.drop_last());
        assert(read_ones(a + b) =~= read_ones(a) + read_ones(b));
    }
}

/// A message says something exactly if it is text; each part of what it says is the value of
/// its own field, or empty or zero where there is none.
pub proof fn each_part_is_its_own_field(msg: Seq<u8>)
    ensures
        info_of(msg) is Some <==> vstd::utf8::valid_utf8(msg),
        info_of(msg) matches Some(info) ==> {
            let chars = vstd::utf8::decode_utf8(msg);
            &&& match uevent::message_value(chars, "EVENT"@) {
                Some(v) => info.event == v,
                None => info.event.len() == 0,
            }
            &&& match uevent::message_value(chars, "vm_name"@) {
                Some(v) => info.vm_name == v,
                None => info.vm_name.len() == 0,
            }
            &&& match uevent::message_value(chars, "vm_exit"@) {
                Some(v) => text::number_u32(v) == Some(info.event_reason) || (text::number_u32(
                    v,
                ) is None && info.event_reason == 0),
                None => info.event_reason == 0,
            }
        },
{
}

/// A message that names a configured virtual machine reaches that one with its event and its
/// reason in decimal notation; one that names none of them reaches none.
pub proof fn event_reaches_whoever_is_configured(
    list: Seq<ParametersView>,
    msg: Seq<u8>,
    info: InfoView,
)
    requires
        registry(list).len() <= usize::MAX,
        info_of(msg) == Some(info),
    ensures
        ({
            let told = dispatched(wrappers(registry(list)), msg);
            &&& told is Some <==> list.map_values(|p: ParametersView| p.name).contains(
                info.vm_name,
            )
            &&& told matches Some(d) ==> {
                &&& d.event == info.event
                &&& text::number_u32(d.event_reason) == Some(info.event_reason)
                &&& d.event_reason == text::decimal(info.event_reason as nat)
                &&& d.instance < placed(creations(list)).len()
                &&& placed(creations(list))[d.instance as int].name == info.vm_name
            }
        }),
{
    let service = wrappers(registry(list));
    let names = list.map_values(|p: ParametersView| p.name);
    assert(known_names(service) =~= keyed::names(registry(list)));
    assert(names =~= keyed::names(named(list)));
    keyed::last_of_a_name_counts(named(list), info.vm_name);
    keyed::place_holds_name(keyed::names(registry(list)), info.vm_name);
    keyed::merged_keeps_names(named(list), |p: ParametersView| p.name);
    created_are_at_their_places(list);
    text::decimal_reads_back(info.event_reason);
}

/// A message that is no text reaches none.
pub proof fn no_text_reaches_nobody(service: Seq<WrapperView>, msg: Seq<u8>)
    requires
        !vstd::utf8::valid_utf8(msg),
    ensures
        dispatched(service, msg) is None,
{
}

/// What the parameters of a virtual machine are shows in their parts, each in its own.
pub proof fn parameters_show_their_parts(p: VmParameters)
    ensures
        p@.name == p.name@,
        p@.enable == p.enable,
        p@.no_fs_dependency == p.no_fs_dependency,
        p@.fs_dependency_timeout == p.fs_dependency_timeout,
        p@.fs_dependency_prop == p.fs_dependency_prop@,
        p@.autostart == p.autostart,
        p@.vm_ssr_enable == p.vm_ssr_enable,
        p@.vm_autoshutdown_enable == p.vm_autoshutdown_enable,
{
}

/// What the service knows shows in its parts, each in its own and the virtual machines in their
/// order.
pub proof fn service_shows_its_parts(service: VirtualizationService, w: VmInstanceWrapper)
    ensures
        w@.name == w.name@,
        w@.instance == w.instance,
        w@.enabled == w.enabled,
        w@.fs_dependency_timeout == w.fs_dependency_timeout,
        service@.len() == service.vm_instance_map@.len(),
        forall|i: int|
            0 <= i < service@.len() ==> #[trigger] service@[i] == service.vm_instance_map@[i]@,
{
}

/// What a launch without a request, a message and an event for a virtual machine are shows in
/// their parts, each in its own.
pub proof fn messages_show_their_parts(a: Autostart, info: UeventInfo, d: Dispatch)
    ensures
        a@.instance == a.instance,
        a@.no_fs_dependency == a.fs_dependency.no_fs_dependency,
        a@.fs_dependency_prop == a.fs_dependency.fs_dependency_prop@,
        a@.fs_dependency_timeout == a.fs_dependency_timeout,
        info@.vm_name == info.vm_name@,
        info@.event == info.event@,
        info@.event_reason == info.event_reason,
        d@.instance == d.instance,
        d@.event == d.event@,
        d@.event_reason == d.event_reason@,
{
}

} // verus!
