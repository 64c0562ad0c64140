//! A virtual machine: its state, its clients and how it is started.
use crate::qvirtservice::boot;
use crate::qvirtservice::boot::{BootStep, LaunchError};
use crate::qvirtservice::parameters::{ParametersView, VmParameters};
use crate::status;
use crate::status::{ExceptionCode, ServiceError, Status, StatusView};
use crate::text;
use std::collections::HashMap;
use vstd::prelude::*;

verus! {

/// The state of a virtual machine.
#[derive(Debug, PartialEq, Eq, Structural, Clone, Copy)]
pub enum VmState {
    NotStarted,
    Running,
    Stopped,
}

/// The name under which a state is published.
pub open spec fn state_name(state: VmState) -> Seq<char> {
    match state {
        VmState::NotStarted => "NOT_STARTED"@,
        VmState::Running => "RUNNING"@,
        VmState::Stopped => "STOPPED"@,
    }
}

/// A value to write to a system property.
#[derive(Debug)]
pub struct PropertyWrite {
    pub name: String,
    pub value: String,
}

/// The system property that publishes the state of the virtual machine of the given name.
pub open spec fn status_property(vm_name: Seq<char>) -> Seq<char> {
    "vendor.qvirtmgr."@ + vm_name + ".status"@
}

/// Who is to be told of an event, and what is to be published.
#[derive(Debug)]
pub struct Notification {
    /// What to publish, if the event changes the state.
    pub property: Option<PropertyWrite>,
    /// The state to tell the clients.
    pub state: VmState,
    /// The clients to tell, in the order in which they registered.
    pub clients: Vec<u64>,
}

/// What a notification is.
pub struct NotificationView {
    /// The name and the value of the property to write.
    pub property: Option<(Seq<char>, Seq<char>)>,
    pub state: VmState,
    pub clients: Seq<u64>,
}

impl View for Notification {
    type V = NotificationView;

    open spec fn view(&self) -> NotificationView {
        NotificationView {
            property: match self.property {
                Some(p) => Some((p.name@, p.value@)),
                None => None,
            },
            state: self.state,
            clients: self.clients@,
        }
    }
}

/// What is to be told and published of an event.
pub open spec fn notified(vm: InstanceView, event: Seq<char>) -> NotificationView {
    let state = after_event(vm, event).vm_state;
    NotificationView {
        property: if state_after(event) is Some {
            Some((status_property(vm.vm_parameters.name), state_name(state)))
        } else {
            None
        },
        state,
        clients: vm.callbacks,
    }
}

/// A virtual machine of the service. A client is known by the number of its callback object.
pub struct VmInstance {
    pub vm_state: VmState,
    pub vm_parameters: VmParameters,
    pub autostart_done: bool,
    /// The callbacks of the clients.
    pub virtual_machine_callbacks: Vec<u64>,
    /// The number of the next death recipient.
    pub death_id: usize,
    /// The death recipients by number, each with the client whose death it awaits.
    pub death_recipients: HashMap<usize, u64>,
}

/// What a virtual machine of the service is.
pub struct InstanceView {
    pub vm_state: VmState,
    pub vm_parameters: ParametersView,
    pub autostart_done: bool,
    pub callbacks: Seq<u64>,
    pub death_id: usize,
    pub death_recipients: Map<usize, u64>,
}

impl View for VmInstance {
    type V = InstanceView;

    open spec fn view(&self) -> InstanceView {
        InstanceView {
            vm_state: self.vm_state,
            vm_parameters: self.vm_parameters@,
            autostart_done: self.autostart_done,
            callbacks: self.virtual_machine_callbacks@,
            death_id: self.death_id,
            death_recipients: self.death_recipients@,
        }
    }
}

impl InstanceView {
    /// No client is registered twice, and no two death recipients await the death of one
    /// client, which is a registered one.
    pub open spec fn well_formed(self) -> bool {
        &&& self.callbacks.no_duplicates()
        &&& forall|id: usize| #[trigger]
            self.death_recipients.contains_key(id) ==> self.callbacks.contains(
                self.death_recipients[id],
            )
        &&& forall|a: usize, b: usize|
            self.death_recipients.contains_key(a) && self.death_recipients.contains_key(b)
                && #[trigger] self.death_recipients[a] == #[trigger] self.death_recipients[b]
                ==> a == b
    }
}

/// A virtual machine with the given parameters before anything has happened to it.
pub open spec fn new_instance(vm_parameters: ParametersView) -> InstanceView {
    InstanceView {
        vm_state: VmState::NotStarted,
        vm_parameters,
        autostart_done: false,
        callbacks: Seq::empty(),
        death_id: 0,
        death_recipients: Map::empty(),
    }
}

/// The state that an event brings about, if it changes the state.
pub open spec fn state_after(event: Seq<char>) -> Option<VmState> {
    if event == "create"@ {
        Some(VmState::Running)
    } else if event == "destroy"@ {
        Some(VmState::Stopped)
    } else {
        None
    }
}

/// A virtual machine after an event.
pub open spec fn after_event(vm: InstanceView, event: Seq<char>) -> InstanceView {
    match state_after(event) {
        Some(vm_state) => InstanceView { vm_state, ..vm },
        None => vm,
    }
}

/// A virtual machine after a client has asked for callbacks: nothing changes for a client
/// that is registered already; any other is added and a death recipient's number is used up.
pub open spec fn after_registration(vm: InstanceView, callback: u64) -> InstanceView {
    if vm.callbacks.contains(callback) {
        vm
    } else {
        InstanceView {
            callbacks: vm.callbacks.push(callback),
            death_id: next_id(vm.death_id),
            ..vm
        }
    }
}

/// The answer to a client that asks for callbacks: the number of its death recipient, or
/// that it is registered already.
pub open spec fn answer_to_registration(vm: InstanceView, callback: u64) -> Result<
    usize,
    StatusView,
> {
    if vm.callbacks.contains(callback) {
        Err(
            status::exception(
                ExceptionCode::IllegalArgument,
                "The callback is already registered"@,
            ),
        )
    } else {
        Ok(vm.death_id)
    }
}

/// The number after `id`; the numbers start over at zero.
pub open spec fn next_id(id: usize) -> usize {
    if id == usize::MAX {
        0
    } else {
        (id + 1) as usize
    }
}

/// A virtual machine after a death recipient has been linked to a client.
pub open spec fn after_link(vm: InstanceView, id: usize, callback: u64) -> InstanceView {
    InstanceView { death_recipients: vm.death_recipients.insert(id, callback), ..vm }
}

/// The clients without the given one.
pub open spec fn without(callbacks: Seq<u64>, callback: u64) -> Seq<u64> {
    match callbacks.index_of_first(callback) {
        Some(i) => callbacks.remove(i),
        None => callbacks,
    }
}

/// A virtual machine after a client has died: the client is forgotten and so is its
/// death recipient.
pub open spec fn after_death(vm: InstanceView, id: usize, callback: u64) -> InstanceView {
    InstanceView {
        callbacks: without(vm.callbacks, callback),
        death_recipients: vm.death_recipients.remove(id),
        ..vm
    }
}

impl VmInstance {
    /// A virtual machine that has not been started, and what to publish of it.
    pub fn new(vm_parameters: VmParameters) -> (r: (VmInstance, PropertyWrite))
        ensures
            r.0@ == new_instance(vm_parameters@),
            r.0@.well_formed(),
            r.1.name@ == status_property(vm_parameters@.name),
            r.1.value@ == state_name(VmState::NotStarted),
    {
        let inst = VmInstance {
            vm_state: VmState::NotStarted,
            vm_parameters,
            autostart_done: false,
            virtual_machine_callbacks: Vec::new(),
            death_id: 0,
            death_recipients: HashMap::new(),
        };
        let property = inst.set_vm_status_property("NOT_STARTED");
        (inst, property)
    }

    /// What to publish as the status of the virtual machine.
    pub fn set_vm_status_property(&self, vm_status: &str) -> (r: PropertyWrite)
        ensures
            r.name@ == status_property(self@.vm_parameters.name),
            r.value@ == vm_status@,
    {
        PropertyWrite {
            name: text::concat3("vendor.qvirtmgr.", self.vm_parameters.name.as_str(), ".status"),
            value: vm_status.to_owned(),
        }
    }

    /// Takes note of an event. The event `create` means that the virtual machine runs, the
    /// event `destroy` that it has stopped; either is published. Every client is told the
    /// state, whatever the event.
    pub fn notify_clients(&mut self, event: &str) -> (r: Notification)
        ensures
            final(self)@ == after_event(old(self)@, event@),
            r.state == final(self)@.vm_state,
            r.clients@ == old(self)@.callbacks,
            r.property is Some <==> state_after(event@) is Some,
            r.property matches Some(p) ==> p.name@ == status_property(
                old(self)@.vm_parameters.name,
            ) && p.value@ == state_name(final(self)@.vm_state),
            r@ == notified(old(self)@, event@),
    {
        let mut property: Option<PropertyWrite> = None;
        if text::str_eq(event, "create") {
            self.vm_state = VmState::Running;
            property = Some(self.set_vm_status_property("RUNNING"));
        } else if text::str_eq(event, "destroy") {
            self.vm_state = VmState::Stopped;
            property = Some(self.set_vm_status_property("STOPPED"));
        }
        let mut clients: Vec<u64> = Vec::new();
        let mut i: usize = 0;
        while i < self.virtual_machine_callbacks.len()
            invariant
                i <= self.virtual_machine_callbacks@.len(),
                clients@ == self.virtual_machine_callbacks@.take(i as int),
            decreases self.virtual_machine_callbacks@.len() - i,
        {
            clients.push(self.virtual_machine_callbacks[i]);
            i = i + 1;
            assert(clients@ =~= self.virtual_machine_callbacks@.take(i as int));
        }
        assert(clients@ =~= self.virtual_machine_callbacks@);
        Notification { property, state: self.vm_state, clients }
    }

    /// The state of the virtual machine.
    pub fn get_state(&self) -> (r: VmState)
        ensures
            r == self@.vm_state,
    {
        self.vm_state
    }

    fn position(&self, callback: u64) -> (r: Option<usize>)
        ensures
            r is Some <==> self@.callbacks.contains(callback),
            r matches Some(i) ==> i < self@.callbacks.len() && self@.callbacks.index_of_first(
                callback,
            ) == Some(i as int),
    {
        let mut i: usize = 0;
        while i < self.virtual_machine_callbacks.len()
            invariant
                i <= self.virtual_machine_callbacks@.len(),
                forall|j: int| 0 <= j < i ==> self.virtual_machine_callbacks@[j] != callback,
            decreases self.virtual_machine_callbacks@.len() - i,
        {
            if self.virtual_machine_callbacks[i] == callback {
                proof {
                    self.virtual_machine_callbacks@.index_of_first_ensures(callback);
                    assert(self.virtual_machine_callbacks@[i as int] == callback);
                    let first = self.virtual_machine_callbacks@.index_of_first(callback)->0;
                    assert(first == i) by {
                        if first < i {
                            assert(self.virtual_machine_callbacks@[first] != callback);
                        }
                    }
                }
                return Some(i);
            }
            i = i + 1;
        }
        None
    }

    /// Registers a client for callbacks. The result is the number for the death recipient
    /// that is now to be linked to the client; a client cannot register twice.
    pub fn register_callback(&mut self, callback: u64) -> (r: Result<usize, Status>)
        ensures
            final(self)@ == after_registration(old(self)@, callback),
            r is Ok <==> !old(self)@.callbacks.contains(callback),
            r matches Ok(id) ==> id == old(self)@.death_id,
            r matches Err(e) ==> e@ == status::exception(
                ExceptionCode::IllegalArgument,
                "The callback is already registered"@,
            ),
            (match r {
                Ok(id) => Ok(id),
                Err(e) => Err(e@),
            }) == answer_to_registration(old(self)@, callback),
            old(self)@.well_formed() ==> final(self)@.well_formed(),
    {
        if self.position(callback).is_some() {
            return Err(
                Status::new_exception_str(
                    ExceptionCode::IllegalArgument,
                    "The callback is already registered",
                ),
            );
        }
        self.virtual_machine_callbacks.push(callback);
        let id = self.death_id;
        self.death_id = if id == usize::MAX {
            0
        } else {
            id + 1
        };
        proof {
            registration_keeps_well_formed(old(self)@, callback);
        }
        Ok(id)
    }

    /// Takes note that the death recipient of the given number awaits the death of the
    /// client. Where it could not be linked, nothing is noted: the client stays registered
    /// without one.
    pub fn callback_linked(&mut self, id: usize, callback: u64, linked: bool)
        ensures
            final(self)@ == if linked {
                after_link(old(self)@, id, callback)
            } else {
                old(self)@
            },
            old(self)@.well_formed() && old(self)@.callbacks.contains(callback) && !old(
                self,
            )@.death_recipients.contains_value(callback) ==> final(self)@.well_formed(),
    {
        broadcast use vstd::std_specs::hash::group_hash_axioms;

        if linked {
            self.death_recipients.insert(id, callback);
            proof {
                link_keeps_well_formed(old(self)@, id, callback);
            }
        }
    }

    /// Forgets a client that has died, and the death recipient that told of it.
    pub fn client_died(&mut self, id: usize, callback: u64)
        ensures
            final(self)@ == after_death(old(self)@, id, callback),
            old(self)@.well_formed() && old(self)@.death_recipients.contains_pair(id, callback)
                ==> final(self)@.well_formed(),
    {
        broadcast use vstd::std_specs::hash::group_hash_axioms;

        match self.position(callback) {
            Some(i) => {
                self.virtual_machine_callbacks.remove(i);
            },
            None => {
                proof {
                    self.virtual_machine_callbacks@.index_of_first_ensures(callback);
                }
            },
        }
        self.death_recipients.remove(&id);
        proof {
            if old(self)@.well_formed() && old(self)@.death_recipients.contains_pair(
                id,
                callback,
            ) {
                death_keeps_well_formed(old(self)@, id, callback);
            }
        }
    }

    /// Begins to launch the virtual machine; one that runs need not be booted.
    pub fn launch_vm(&self) -> (r: BootStep)
        ensures
            r@ == launch_of(self@),
    {
        if self.vm_state == VmState::Running {
            return BootStep::Done(Ok(0));
        }
        boot::boot_sequence(&self.vm_parameters)
    }

    /// Begins the launch that happens without a request, and takes note that it is over:
    /// the caller holds the virtual machine until the last step, whatever that comes to.
    pub fn launch_autostart_vm(&mut self) -> (r: BootStep)
        ensures
            final(self)@ == autostarted(old(self)@),
            r@ == launch_of(old(self)@),
    {
        let step = self.launch_vm();
        self.autostart_done = true;
        step
    }

    /// Takes note that there will be no launch without a request.
    pub fn give_up_autostart(&mut self)
        ensures
            final(self)@ == autostarted(old(self)@),
    {
        self.autostart_done = true;
    }

    /// Begins to start the virtual machine at the request of a client, or refuses to.
    pub fn start(&self) -> (r: Result<BootStep, Status>)
        ensures
            start_refusal(self@) matches Some(e) ==> (r matches Err(s) && s@ == e),
            start_refusal(self@) is None ==> (r matches Ok(step) && step@ == launch_of(self@)),
    {
        let p = &self.vm_parameters;
        if !(p.enable && p.on_demand_start_supported) {
            return Err(Status::new_exception(ExceptionCode::UnsupportedOperation));
        }
        if p.autostart && !p.no_fs_dependency && !self.autostart_done {
            return Err(
                Status::new_service_specific_error_str(
                    ServiceError::VmStart,
                    "autostart enabled for this VM, requested start while bootup ongoing",
                ),
            );
        }
        if self.vm_state == VmState::Stopped {
            return Err(
                Status::new_service_specific_error_str(
                    ServiceError::VmStart,
                    "Cannot start a Vm which is in STOPPED state.",
                ),
            );
        }
        Ok(self.launch_vm())
    }
}

/// What the launch of a virtual machine begins with.
pub open spec fn launch_of(vm: InstanceView) -> boot::BootView {
    boot::launch(vm.vm_state == VmState::Running, vm.vm_parameters)
}

/// A virtual machine whose launch without a request is over.
pub open spec fn autostarted(vm: InstanceView) -> InstanceView {
    InstanceView { autostart_done: true, ..vm }
}

/// Why a request to start is refused, if it is: the virtual machine may not be started on
/// demand, its start without a request is not over, or it has stopped.
pub open spec fn start_refusal(vm: InstanceView) -> Option<StatusView> {
    let p = vm.vm_parameters;
    if !(p.enable && p.on_demand_start_supported) {
        Some(status::bare_exception(ExceptionCode::UnsupportedOperation))
    } else if p.autostart && !p.no_fs_dependency && !vm.autostart_done {
        Some(
            status::service_error(
                ServiceError::VmStart,
                "autostart enabled for this VM, requested start while bootup ongoing"@,
            ),
        )
    } else if vm.vm_state == VmState::Stopped {
        Some(
            status::service_error(
                ServiceError::VmStart,
                "Cannot start a Vm which is in STOPPED state."@,
            ),
        )
    } else {
        None
    }
}

/// The answer to a request to start, given what the launch came to.
pub open spec fn answer_to_start(launched: Result<i32, LaunchError>) -> Result<(), StatusView> {
    match launched {
        Ok(_) => Ok(()),
        Err(e) => Err(status::service_error(ServiceError::VmStart, boot::launch_error_text(e))),
    }
}

/// The answer to a request to start, given what the launch came to.
pub fn start_answer(launched: Result<i32, LaunchError>) -> (r: Result<(), Status>)
    ensures
        r is Ok <==> launched is Ok,
        launched matches Err(e) ==> (r matches Err(s) && s@ == status::service_error(
            ServiceError::VmStart,
            boot::launch_error_text(e),
        )),
        (match r {
            Ok(_) => Ok(()),
            Err(s) => Err(s@),
        }) == answer_to_start(launched),
{
    match launched {
        Ok(_) => Ok(()),
        Err(e) => Err(
            Status::new_service_specific_error_str(ServiceError::VmStart, e.text().as_str()),
        ),
    }
}

/// The answer to any request for a virtual machine whose lock cannot be had.
pub fn internal_error() -> (r: Status)
    ensures
        r@ == status::exception(ExceptionCode::ServiceSpecific, "Internal Error"@),
{
    Status::new_exception_str(ExceptionCode::ServiceSpecific, "Internal Error")
}

proof fn registration_keeps_well_formed(vm: InstanceView, callback: u64)
    ensures
        vm.well_formed() ==> after_registration(vm, callback).well_formed(),
{
    let after = after_registration(vm, callback);
    if vm.well_formed() && !vm.callbacks.contains(callback) {
        assert forall|id: usize| #[trigger]
            after.death_recipients.contains_key(id) implies after.callbacks.contains(
            after.death_recipients[id],
        ) by {
            let c = vm.death_recipients[id];
            assert(vm.callbacks.contains(c));
            let i = choose|i: int| 0 <= i < vm.callbacks.len() && vm.callbacks[i] == c;
            assert(after.callbacks[i] == c);
        }
    }
}

proof fn link_keeps_well_formed(vm: InstanceView, id: usize, callback: u64)
    ensures
        vm.well_formed() && vm.callbacks.contains(callback)
            && !vm.death_recipients.contains_value(callback) ==> after_link(
            vm,
            id,
            callback,
        ).well_formed(),
{
    if vm.well_formed() && vm.callbacks.contains(callback)
        && !vm.death_recipients.contains_value(callback) {
        assert forall|a: usize| vm.death_recipients.contains_key(a) implies
            #[trigger] vm.death_recipients[a] != callback by {}
    }
}

proof fn death_keeps_well_formed(vm: InstanceView, id: usize, callback: u64)
    requires
        vm.well_formed(),
        vm.death_recipients.contains_pair(id, callback),
    ensures
        after_death(vm, id, callback).well_formed(),
{
    let after = after_death(vm, id, callback);
    vm.callbacks.index_of_first_ensures(callback);
    let i = vm.callbacks.index_of_first(callback)->0;
    assert(vm.callbacks.contains(callback));
    assert forall|other: usize| #[trigger]
        after.death_recipients.contains_key(other) implies after.callbacks.contains(
        after.death_recipients[other],
    ) by {
        let c = vm.death_recipients[other];
        assert(vm.death_recipients[id] == callback);
        assert(c != callback);
        assert(vm.callbacks.contains(c));
        let k = choose|k: int| 0 <= k < vm.callbacks.len() && vm.callbacks[k] == c;
        if k < i {
            assert(after.callbacks[k] == c);
        } else {
            assert(after.callbacks[k - 1] == c);
        }
    }
}

/// The death of a client undoes its registration: the virtual machine is as before, but for
/// the number of the death recipient, which is not used again before all others were.
pub proof fn death_undoes_registration(vm: InstanceView, callback: u64)
    requires
        !vm.callbacks.contains(callback),
        !vm.death_recipients.contains_key(vm.death_id),
    ensures
        ({
            let registered = after_link(
                after_registration(vm, callback),
                vm.death_id,
                callback,
            );
            after_death(registered, vm.death_id, callback) == InstanceView {
                death_id: next_id(vm.death_id),
                ..vm
            }
        }),
{
    let registered = after_link(after_registration(vm, callback), vm.death_id, callback);
    let n = vm.callbacks.len() as int;
    registered.callbacks.index_of_first_ensures(callback);
    assert(registered.callbacks[n] == callback);
    let i = registered.callbacks.index_of_first(callback)->0;
    assert(i == n) by {
        if i < n {
            assert(vm.callbacks[i] == callback);
        }
    }
    assert(registered.callbacks.remove(n) =~= vm.callbacks);
    assert(registered.death_recipients.remove(vm.death_id) =~= vm.death_recipients);
}

/// A refused registration changes nothing.
pub proof fn refused_registration_changes_nothing(vm: InstanceView, callback: u64)
    requires
        vm.callbacks.contains(callback),
    ensures
        after_registration(vm, callback) == vm,
{
}

/// An event other than `create` and `destroy` changes nothing.
pub proof fn other_events_change_nothing(vm: InstanceView, event: Seq<char>)
    requires
        event != "create"@,
        event != "destroy"@,
    ensures
        after_event(vm, event) == vm,
{
}

/// Only the last of several changes of state counts.
pub proof fn last_event_decides(vm: InstanceView, first: Seq<char>, last: Seq<char>)
    requires
        state_after(last) is Some,
    ensures
        after_event(after_event(vm, first), last) == after_event(vm, last),
{
}

/// Neither events nor registrations nor deaths nor starts touch the parameters, and only
/// events touch the state.
pub proof fn parameters_never_change(
    vm: InstanceView,
    event: Seq<char>,
    callback: u64,
    id: usize,
)
    ensures
        after_event(vm, event).vm_parameters == vm.vm_parameters,
        after_registration(vm, callback).vm_parameters == vm.vm_parameters,
        after_link(vm, id, callback).vm_parameters == vm.vm_parameters,
        after_death(vm, id, callback).vm_parameters == vm.vm_parameters,
        autostarted(vm).vm_parameters == vm.vm_parameters,
        after_registration(vm, callback).vm_state == vm.vm_state,
        after_link(vm, id, callback).vm_state == vm.vm_state,
        after_death(vm, id, callback).vm_state == vm.vm_state,
        autostarted(vm).vm_state == vm.vm_state,
{
}

/// A virtual machine that was destroyed is not started at the request of a client until it
/// is created again.
pub proof fn destroyed_cannot_be_started(vm: InstanceView)
    ensures
        start_refusal(after_event(vm, "destroy"@)) is Some,
{
    reveal_strlit("create");
    reveal_strlit("destroy");
    assert("create"@.len() != "destroy"@.len());
}

/// A start at the request of a client that is not refused boots nothing if the virtual
/// machine runs.
pub proof fn running_is_not_booted(vm: InstanceView)
    ensures
        launch_of(after_event(vm, "create"@)) == boot::BootView::Done(Ok(0)),
{
}

/// Once the launch without a request is over, it no longer stands in the way of a request.
pub proof fn autostart_opens_the_way(vm: InstanceView)
    requires
        vm.vm_parameters.enable,
        vm.vm_parameters.on_demand_start_supported,
        vm.vm_state != VmState::Stopped,
    ensures
        start_refusal(autostarted(vm)) is None,
{
}

/// What can happen to a virtual machine.
pub enum Operation {
    /// An event of the kernel.
    Event(Seq<char>),
    /// A client asks for callbacks; whether a death recipient can be linked to it.
    Register { callback: u64, linked: bool },
    /// The death recipient of the given number tells of the death of its client.
    Death { id: usize },
    /// The launch without a request is over.
    Autostart,
}

/// A virtual machine after an operation. A death recipient that is not kept tells nothing.
pub open spec fn applied(vm: InstanceView, op: Operation) -> InstanceView {
    match op {
        Operation::Event(event) => after_event(vm, event),
        Operation::Register { callback, linked } => {
            let registered = after_registration(vm, callback);
            if linked && !vm.callbacks.contains(callback) {
                after_link(registered, vm.death_id, callback)
            } else {
                registered
            }
        },
        Operation::Death { id } => if vm.death_recipients.contains_key(id) {
            after_death(vm, id, vm.death_recipients[id])
        } else {
            vm
        },
        Operation::Autostart => autostarted(vm),
    }
}

/// A virtual machine after a row of operations from its start.
pub open spec fn history(vm_parameters: ParametersView, ops: Seq<Operation>) -> InstanceView
    decreases ops.len(),
{
    if ops.len() == 0 {
        new_instance(vm_parameters)
    } else {
        applied(history(vm_parameters, ops.drop_last()), ops.last())
    }
}

/// Whether every death recipient has a number that was given out before.
pub open spec fn numbers_are_old(vm: InstanceView) -> bool {
    forall|id: usize| #[trigger] vm.death_recipients.contains_key(id) ==> id < vm.death_id
}

/// Every operation keeps a virtual machine well-formed, and the number of its death
/// recipients finite.
pub proof fn operations_keep_well_formed(vm: InstanceView, op: Operation)
    requires
        vm.well_formed(),
        vm.death_recipients.dom().finite(),
    ensures
        applied(vm, op).well_formed(),
        applied(vm, op).death_recipients.dom().finite(),
{
    match op {
        Operation::Register { callback, linked } => {
            registration_keeps_well_formed(vm, callback);
            if linked && !vm.callbacks.contains(callback) {
                let registered = after_registration(vm, callback);
                assert(registered.callbacks[vm.callbacks.len() as int] == callback);
                assert(!registered.death_recipients.contains_value(callback)) by {
                    if registered.death_recipients.contains_value(callback) {
                        let id = choose|id: usize|
                            registered.death_recipients.contains_key(id)
                                && registered.death_recipients[id] == callback;
                        assert(vm.callbacks.contains(vm.death_recipients[id]));
                    }
                }
                link_keeps_well_formed(registered, vm.death_id, callback);
            }
        },
        Operation::Death { id } => {
            if vm.death_recipients.contains_key(id) {
                death_keeps_well_formed(vm, id, vm.death_recipients[id]);
            }
        },
        _ => {},
    }
}

/// Every operation keeps the numbers of the death recipients below the next one, and only a
/// registration uses a number up, as long as they do not start over.
pub proof fn operations_keep_numbers_old(vm: InstanceView, op: Operation)
    requires
        numbers_are_old(vm),
        op is Register ==> vm.death_id < usize::MAX,
    ensures
        numbers_are_old(applied(vm, op)),
        applied(vm, op).death_id <= vm.death_id + if op is Register {
            1int
        } else {
            0
        },
{
}

/// How many of the operations are requests for callbacks.
pub open spec fn registrations(ops: Seq<Operation>) -> nat
    decreases ops.len(),
{
    if ops.len() == 0 {
        0
    } else {
        registrations(ops.drop_last()) + if ops.last() is Register {
            1nat
        } else {
            0
        }
    }
}

/// Whatever happens to a virtual machine, it stays well-formed and keeps its parameters.
pub proof fn always_well_formed(vm_parameters: ParametersView, ops: Seq<Operation>)
    ensures
        history(vm_parameters, ops).well_formed(),
        history(vm_parameters, ops).death_recipients.dom().finite(),
        history(vm_parameters, ops).vm_parameters == vm_parameters,
    decreases ops.len(),
{
    if ops.len() > 0 {
        always_well_formed(vm_parameters, ops.drop_last());
        operations_keep_well_formed(history(vm_parameters, ops.drop_last()), ops.last());
    }
}

/// Whatever happens to a virtual machine, no client is registered twice, and no number of a
/// death recipient is given out again, as long as the numbers last for the registrations.
pub proof fn always_in_order(vm_parameters: ParametersView, ops: Seq<Operation>)
    requires
        registrations(ops) <= usize::MAX,
    ensures
        history(vm_parameters, ops).callbacks.no_duplicates(),
        history(vm_parameters, ops).well_formed(),
        numbers_are_old(history(vm_parameters, ops)),
        history(vm_parameters, ops).death_id <= registrations(ops),
    decreases ops.len(),
{
    always_well_formed(vm_parameters, ops);
    if ops.len() > 0 {
        always_in_order(vm_parameters, ops.drop_last());
        operations_keep_numbers_old(history(vm_parameters, ops.drop_last()), ops.last());
    }
}

/// Whatever happens to a virtual machine, there are never more death recipients than
/// registered clients.
pub proof fn recipients_never_outnumber_clients(vm_parameters: ParametersView, ops: Seq<Operation>)
    ensures
        history(vm_parameters, ops).death_recipients.dom().finite(),
        history(vm_parameters, ops).death_recipients.dom().len() <= history(
            vm_parameters,
            ops,
        ).callbacks.len(),
{
    always_well_formed(vm_parameters, ops);
    let vm = history(vm_parameters, ops);
    let ids = vm.death_recipients.dom();
    let client = |id: usize| vm.death_recipients[id];
    let awaited = ids.map(client);
    assert forall|a: usize, b: usize|
        ids.contains(a) && ids.contains(b) && #[trigger] client(a) == #[trigger] client(
            b,
        ) implies a == b by {
        assert(vm.death_recipients[a] == vm.death_recipients[b]);
    }
    vstd::set_lib::lemma_map_size(ids, awaited, client);
    assert(awaited.subset_of(vm.callbacks.to_set())) by {
        assert forall|c: u64| awaited.contains(c) implies vm.callbacks.to_set().contains(c) by {
            let id = choose|id: usize| ids.contains(id) && c == client(id);
            assert(vm.death_recipients.contains_key(id));
        }
    }
    vstd::seq_lib::seq_to_set_is_finite(vm.callbacks);
    vstd::set_lib::lemma_len_subset(awaited, vm.callbacks.to_set());
    vm.callbacks.lemma_cardinality_of_set();
}

/// The state that the last change of state in a row of operations has brought about.
pub open spec fn last_state(ops: Seq<Operation>) -> VmState
    decreases ops.len(),
{
    if ops.len() == 0 {
        VmState::NotStarted
    } else {
        match ops.last() {
            Operation::Event(event) => match state_after(event) {
                Some(state) => state,
                None => last_state(ops.drop_last()),
            },
            _ => last_state(ops.drop_last()),
        }
    }
}

/// The state is what the last event that changes it has made it, whatever else happens.
pub proof fn last_change_of_state_counts(vm_parameters: ParametersView, ops: Seq<Operation>)
    ensures
        history(vm_parameters, ops).vm_state == last_state(ops),
    decreases ops.len(),
{
    if ops.len() > 0 {
        last_change_of_state_counts(vm_parameters, ops.drop_last());
    }
}

/// A client stays registered until its death recipient tells of its death.
pub proof fn registered_until_death(vm: InstanceView, callback: u64, op: Operation)
    requires
        vm.callbacks.contains(callback),
        !(op matches Operation::Death { id } && vm.death_recipients.contains_pair(id, callback)),
    ensures
        applied(vm, op).callbacks.contains(callback),
{
    let k = choose|k: int| 0 <= k < vm.callbacks.len() && vm.callbacks[k] == callback;
    let after = applied(vm, op).callbacks;
    match op {
        Operation::Register { .. } => {
            assert(after[k] == callback);
        },
        Operation::Death { id } => {
            if vm.death_recipients.contains_key(id) {
                let dead = vm.death_recipients[id];
                vm.callbacks.index_of_first_ensures(dead);
                if let Some(i) = vm.callbacks.index_of_first(dead) {
                    if k < i {
                        assert(after[k] == callback);
                    } else {
                        assert(after[k - 1] == callback);
                    }
                }
            }
        },
        _ => {},
    }
}

/// Once its death recipient has told of its death, a client is not registered any more.
pub proof fn forgotten_after_death(vm: InstanceView, id: usize)
    requires
        vm.well_formed(),
        vm.death_recipients.contains_key(id),
    ensures
        !applied(vm, Operation::Death { id }).callbacks.contains(vm.death_recipients[id]),
        !applied(vm, Operation::Death { id }).death_recipients.contains_key(id),
{
    let dead = vm.death_recipients[id];
    let after = applied(vm, Operation::Death { id }).callbacks;
    vm.callbacks.index_of_first_ensures(dead);
    assert(vm.callbacks.contains(dead));
    let i = vm.callbacks.index_of_first(dead)->0;
    assert forall|k: int| 0 <= k < after.len() implies after[k] != dead by {
        if k < i {
            assert(after[k] == vm.callbacks[k]);
        } else {
            assert(after[k] == vm.callbacks[k + 1]);
        }
    }
}

/// A virtual machine that is enabled, may be started on demand and has not stopped is refused
/// a start exactly as long as a launch without a request is still to come: one that is
/// configured, has to wait, and is not over.
pub proof fn refused_only_while_an_autostart_is_to_come(vm: InstanceView)
    requires
        vm.vm_parameters.enable,
        vm.vm_parameters.on_demand_start_supported,
        vm.vm_state != VmState::Stopped,
    ensures
        start_refusal(vm) is Some <==> {
            &&& vm.vm_parameters.autostart
            &&& !vm.vm_parameters.no_fs_dependency
            &&& !vm.autostart_done
        },
        !vm.vm_parameters.autostart ==> start_refusal(vm) is None,
        vm.vm_parameters.no_fs_dependency ==> start_refusal(vm) is None,
        vm.autostart_done ==> start_refusal(vm) is None,
{
}

/// Nothing is refused on account of an autostart that is not configured: without it, neither
/// what it would wait for nor whether it is over matters.
pub proof fn without_autostart_its_circumstances_do_not_matter(
    vm: InstanceView,
    no_fs_dependency: bool,
    autostart_done: bool,
)
    requires
        !vm.vm_parameters.autostart,
    ensures
        start_refusal(
            InstanceView {
                autostart_done,
                vm_parameters: ParametersView { no_fs_dependency, ..vm.vm_parameters },
                ..vm
            },
        ) == start_refusal(vm),
{
}

/// A start is answered with `UnsupportedOperation` exactly if the virtual machine is not
/// enabled or may not be started on demand, whatever else is known of it.
pub proof fn unsupported_exactly_without_support(vm: InstanceView)
    ensures
        (start_refusal(vm) matches Some(e) && e.code == status::StatusCode::Exception(
            ExceptionCode::UnsupportedOperation,
        )) <==> !vm.vm_parameters.enable || !vm.vm_parameters.on_demand_start_supported,
        start_refusal(vm) matches Some(e) ==> (e.code == status::StatusCode::Exception(
            ExceptionCode::UnsupportedOperation,
        ) ==> e.message is None),
        start_refusal(vm) matches Some(e) ==> (e.code == status::StatusCode::Exception(
            ExceptionCode::UnsupportedOperation,
        ) || e.code == status::StatusCode::Service(ServiceError::VmStart)),
{
}

/// A supported start that is refused says whether an autostart or a stop stands in the way,
/// and says so of the autostart where both do.
pub proof fn supported_refusals_say_why(vm: InstanceView)
    requires
        vm.vm_parameters.enable,
        vm.vm_parameters.on_demand_start_supported,
    ensures
        vm.vm_parameters.autostart && !vm.vm_parameters.no_fs_dependency && !vm.autostart_done
            ==> (start_refusal(vm) matches Some(e) && e.message == Some(
            "autostart enabled for this VM, requested start while bootup ongoing"@,
        )),
        vm.vm_state == VmState::Stopped && (!vm.vm_parameters.autostart
            || vm.vm_parameters.no_fs_dependency || vm.autostart_done) ==> (start_refusal(
            vm,
        ) matches Some(e) && e.message == Some("Cannot start a Vm which is in STOPPED state."@)),
        vm.vm_state == VmState::Stopped ==> start_refusal(vm) is Some,
{
}

/// Neither clients nor disks nor names nor any other parameter bear on whether a start is
/// refused.
pub proof fn refusal_rests_on_six_things(a: InstanceView, b: InstanceView)
    requires
        a.vm_state == b.vm_state,
        a.autostart_done == b.autostart_done,
        a.vm_parameters.enable == b.vm_parameters.enable,
        a.vm_parameters.on_demand_start_supported == b.vm_parameters.on_demand_start_supported,
        a.vm_parameters.autostart == b.vm_parameters.autostart,
        a.vm_parameters.no_fs_dependency == b.vm_parameters.no_fs_dependency,
    ensures
        start_refusal(a) == start_refusal(b),
{
}

/// A launch boots exactly if the virtual machine does not run: then with the first attempt,
/// for the command line of its parameters, whatever else is known of it.
pub proof fn launched_exactly_if_not_running(vm: InstanceView)
    ensures
        vm.vm_state == VmState::Running ==> launch_of(vm) == boot::BootView::Done(
            Ok::<i32, LaunchError>(0),
        ),
        launch_of(vm) is Spawn <==> vm.vm_state != VmState::Running
            && vm.vm_parameters.boot_operation
            == crate::qvirtservice::parameters::ControlState::Start && boot::executable(
            vm.vm_parameters,
        ),
        launch_of(vm) matches boot::BootView::Spawn { boot_try, args } ==> boot_try == 1 && args
            == boot::boot_args(vm.vm_parameters),
        vm.vm_state != VmState::Running ==> launch_of(vm) == boot::attempt(vm.vm_parameters, 1),
{
    boot::forked_exactly_to_start(vm.vm_parameters, 1);
}

/// The event `create` makes a virtual machine run, the event `destroy` stops it, whatever its
/// state, and neither touches anything else.
pub proof fn events_set_the_state_alone(vm: InstanceView, event: Seq<char>)
    ensures
        after_event(vm, "create"@).vm_state == VmState::Running,
        after_event(vm, "destroy"@).vm_state == VmState::Stopped,
        after_event(vm, event) == (InstanceView {
            vm_state: after_event(vm, event).vm_state,
            ..vm
        }),
        after_event(vm, event).vm_state != vm.vm_state ==> event == "create"@ || event
            == "destroy"@,
{
    reveal_strlit("create");
    reveal_strlit("destroy");
    assert("create"@.len() != "destroy"@.len());
}

/// Every registered client is told of every event, in the order of registration, and told the
/// state that the virtual machine has after it.
pub proof fn every_client_is_told_the_state(vm: InstanceView, event: Seq<char>)
    ensures
        notified(vm, event).clients == vm.callbacks,
        notified(vm, event).state == after_event(vm, event).vm_state,
{
}

/// Something is published exactly of the events `create` and `destroy`, under the name of the
/// virtual machine: that it runs, or that it has stopped.
pub proof fn changes_of_state_are_published(vm: InstanceView, event: Seq<char>)
    ensures
        notified(vm, event).property is Some <==> event == "create"@ || event == "destroy"@,
        notified(vm, "create"@).property == Some(
            ("vendor.qvirtmgr."@ + vm.vm_parameters.name + ".status"@, "RUNNING"@),
        ),
        notified(vm, "destroy"@).property == Some(
            ("vendor.qvirtmgr."@ + vm.vm_parameters.name + ".status"@, "STOPPED"@),
        ),
{
    reveal_strlit("create");
    reveal_strlit("destroy");
    assert("create"@.len() != "destroy"@.len());
}

/// Virtual machines of different names are published under different properties.
pub proof fn properties_tell_machines_apart(a: Seq<char>, b: Seq<char>)
    ensures
        text::has_prefix(status_property(a), "vendor.qvirtmgr."@),
        text::has_suffix(status_property(a), ".status"@),
        status_property(a).len() == "vendor.qvirtmgr."@.len() + a.len() + ".status"@.len(),
        a != b ==> status_property(a) != status_property(b),
{
    let head = "vendor.qvirtmgr."@;
    let tail = ".status"@;
    let x = status_property(a);
    let y = status_property(b);
    assert(x.take(head.len() as int) =~= head);
    assert(x.skip(x.len() - tail.len()) =~= tail);
    assert(x.subrange(head.len() as int, x.len() - tail.len()) =~= a);
    assert(y.subrange(head.len() as int, y.len() - tail.len()) =~= b);
}

/// Different states are published under different names.
pub proof fn state_names_differ(a: VmState, b: VmState)
    ensures
        a != b ==> state_name(a) != state_name(b),
        state_name(VmState::NotStarted) == "NOT_STARTED"@,
        state_name(VmState::Running) == "RUNNING"@,
        state_name(VmState::Stopped) == "STOPPED"@,
{
    reveal_strlit("NOT_STARTED");
    reveal_strlit("RUNNING");
    reveal_strlit("STOPPED");
    assert("NOT_STARTED"@.len() != "RUNNING"@.len());
    assert("RUNNING"@[0] != "STOPPED"@[0]);
}

/// A virtual machine begins without a state change, without clients and with its autostart
/// still to come.
pub proof fn new_machine_is_untouched(vm_parameters: ParametersView)
    ensures
        new_instance(vm_parameters).vm_state == VmState::NotStarted,
        new_instance(vm_parameters).vm_parameters == vm_parameters,
        !new_instance(vm_parameters).autostart_done,
        new_instance(vm_parameters).callbacks.len() == 0,
        new_instance(vm_parameters).death_id == 0,
        forall|id: usize| !new_instance(vm_parameters).death_recipients.contains_key(id),
{
}

/// A client that registers comes last, and takes a number of its own; the clients before it
/// keep their places, and nothing else changes.
pub proof fn registration_adds_the_client_last(vm: InstanceView, callback: u64)
    requires
        !vm.callbacks.contains(callback),
    ensures
        ({
            let after = after_registration(vm, callback);
            &&& after.callbacks.len() == vm.callbacks.len() + 1
            &&& after.callbacks.last() == callback
            &&& after.callbacks.drop_last() == vm.callbacks
            &&& vm.death_id < usize::MAX ==> after.death_id == vm.death_id + 1
            &&& vm.death_id == usize::MAX ==> after.death_id == 0
            &&& after.vm_state == vm.vm_state
            &&& after.vm_parameters == vm.vm_parameters
            &&& after.autostart_done == vm.autostart_done
            &&& after.death_recipients == vm.death_recipients
        }),
{
    assert(after_registration(vm, callback).callbacks.drop_last() =~= vm.callbacks);
}

/// A client is answered with a number exactly if it is not registered, and the number is the
/// one that its registration uses up.
pub proof fn registration_is_answered_with_its_number(vm: InstanceView, callback: u64)
    ensures
        answer_to_registration(vm, callback) is Ok <==> !vm.callbacks.contains(callback),
        answer_to_registration(vm, callback) matches Ok(id) ==> (after_registration(
            vm,
            callback,
        ).death_id == if id == usize::MAX {
            0
        } else {
            (id + 1) as usize
        }),
        answer_to_registration(vm, callback) matches Err(e) ==> e.code
            == status::StatusCode::Exception(ExceptionCode::IllegalArgument) && e.message == Some(
            "The callback is already registered"@,
        ),
{
}

/// A client that is answered with a number cannot register again: the second request is
/// refused and changes nothing.
pub proof fn nobody_registers_twice(vm: InstanceView, callback: u64)
    ensures
        answer_to_registration(after_registration(vm, callback), callback) is Err,
        after_registration(after_registration(vm, callback), callback) == after_registration(
            vm,
            callback,
        ),
{
    let after = after_registration(vm, callback);
    if !vm.callbacks.contains(callback) {
        assert(after.callbacks[vm.callbacks.len() as int] == callback);
    }
}

/// A death recipient that is linked is kept under its number for its client; the others stay,
/// and nothing else changes.
pub proof fn link_keeps_all_else(vm: InstanceView, id: usize, callback: u64, other: usize)
    ensures
        ({
            let after = after_link(vm, id, callback);
            &&& after.death_recipients.contains_pair(id, callback)
            &&& other != id ==> (after.death_recipients.contains_key(other)
                <==> vm.death_recipients.contains_key(other))
            &&& other != id && vm.death_recipients.contains_key(other)
                ==> after.death_recipients[other] == vm.death_recipients[other]
            &&& after.callbacks == vm.callbacks
            &&& after.death_id == vm.death_id
            &&& after.vm_state == vm.vm_state
            &&& after.vm_parameters == vm.vm_parameters
            &&& after.autostart_done == vm.autostart_done
        }),
{
}

/// A client that has died is taken out of the row of clients, which closes up; the death
/// recipient that told of it goes, found or not, and nothing else changes.
pub proof fn death_takes_one_client_out(
    vm: InstanceView,
    before: Seq<u64>,
    callback: u64,
    after: Seq<u64>,
    id: usize,
    other: usize,
)
    requires
        !before.contains(callback),
        vm.callbacks == before.push(callback) + after || (vm.callbacks == before + after
            && !after.contains(callback)),
    ensures
        ({
            let left = after_death(vm, id, callback);
            &&& left.callbacks == before + after
            &&& !left.death_recipients.contains_key(id)
            &&& other != id ==> (left.death_recipients.contains_key(other)
                <==> vm.death_recipients.contains_key(other))
            &&& other != id && vm.death_recipients.contains_key(other)
                ==> left.death_recipients[other] == vm.death_recipients[other]
            &&& left.death_id == vm.death_id
            &&& left.vm_state == vm.vm_state
            &&& left.vm_parameters == vm.vm_parameters
            &&& left.autostart_done == vm.autostart_done
        }),
{
    let n = before.len() as int;
    vm.callbacks.index_of_first_ensures(callback);
    if vm.callbacks == before.push(callback) + after {
        assert(vm.callbacks[n] == callback);
        let i = vm.callbacks.index_of_first(callback)->0;
        assert(i == n) by {
            if i < n {
                assert(before[i] == callback);
            }
        }
        assert(vm.callbacks.remove(n) =~= before + after);
    } else {
        if vm.callbacks.contains(callback) {
            let k = choose|k: int| 0 <= k < vm.callbacks.len() && vm.callbacks[k] == callback;
            if k < n {
                assert(before[k] == callback);
            } else {
                assert(after[k - n] == callback);
            }
        }
    }
}

/// Once the launch without a request is over it stays so, and nothing else changes.
pub proof fn autostart_is_over_once(vm: InstanceView, op: Operation)
    ensures
        autostarted(vm).autostart_done,
        autostarted(vm) == (InstanceView { autostart_done: true, ..vm }),
        vm.autostart_done ==> applied(vm, op).autostart_done,
        !(op is Autostart) ==> applied(vm, op).autostart_done == vm.autostart_done,
{
}

/// A start succeeds exactly if the launch does; if not, the words of the launch error are
/// handed on as an error of the start.
pub proof fn start_is_answered_with_the_launch(pid: i32, e: LaunchError)
    ensures
        answer_to_start(Ok(pid)) is Ok,
        answer_to_start(Err(e)) matches Err(s) && s.code == status::StatusCode::Service(
            ServiceError::VmStart,
        ) && s.message == Some(boot::launch_error_text(e)),
{
}

/// What a virtual machine is shows in its parts, each in its own.
pub proof fn machine_shows_its_parts(vm: VmInstance)
    ensures
        vm@.vm_state == vm.vm_state,
        vm@.vm_parameters == vm.vm_parameters@,
        vm@.autostart_done == vm.autostart_done,
        vm@.callbacks == vm.virtual_machine_callbacks@,
        vm@.death_id == vm.death_id,
        vm@.death_recipients == vm.death_recipients@,
{
}

/// What a notification is shows in its parts, each in its own.
pub proof fn notification_shows_its_parts(n: Notification)
    ensures
        n@.state == n.state,
        n@.clients == n.clients@,
        n@.property is Some <==> n.property is Some,
        n.property matches Some(p) ==> n@.property == Some((p.name@, p.value@)),
{
}

} // verus!
