//! What the configuration says of a virtual machine.
use crate::text;
use vstd::prelude::*;

verus! {

/// The time to wait for the host to boot, in seconds, where the configuration names none.
pub const DEFAULT_BOOT_COMPLETE_TIMEOUT: u16 = 60;

/// The time to wait for the host to boot where the configuration names none.
pub fn boot_complete_timeout_default() -> (r: u16)
    ensures
        r == DEFAULT_BOOT_COMPLETE_TIMEOUT,
        r == 60,
{
    DEFAULT_BOOT_COMPLETE_TIMEOUT
}

/// What is to be done with a virtual machine.
#[derive(Debug, PartialEq, Eq, Structural, Clone, Copy)]
pub enum ControlState {
    Create,
    Start,
    Stop,
    Restart,
    Panic,
    NotSupported,
}

impl Default for ControlState {
    fn default() -> (r: Self)
        ensures
            r == ControlState::Create,
    {
        ControlState::Create
    }
}

/// The operation of the given name.
pub open spec fn control_state(name: Seq<char>) -> Option<ControlState> {
    if name == "create"@ {
        Some(ControlState::Create)
    } else if name == "start"@ {
        Some(ControlState::Start)
    } else if name == "stop"@ {
        Some(ControlState::Stop)
    } else if name == "restart"@ {
        Some(ControlState::Restart)
    } else if name == "panic"@ {
        Some(ControlState::Panic)
    } else {
        None
    }
}

impl std::str::FromStr for ControlState {
    type Err = ();

    /// The operation of the given name; that an operation is not supported has no name here.
    fn from_str(input: &str) -> (r: Result<ControlState, ()>)
        ensures
            r is Ok <==> control_state(input@) is Some,
            r matches Ok(s) ==> Some(s) == control_state(input@),
    {
        if text::str_eq(input, "create") {
            Ok(ControlState::Create)
        } else if text::str_eq(input, "start") {
            Ok(ControlState::Start)
        } else if text::str_eq(input, "stop") {
            Ok(ControlState::Stop)
        } else if text::str_eq(input, "restart") {
            Ok(ControlState::Restart)
        } else if text::str_eq(input, "panic") {
            Ok(ControlState::Panic)
        } else {
            Err(())
        }
    }
}

/// A disk of a virtual machine.
#[derive(Debug, Clone)]
pub struct DiskProperties {
    pub image: String,
    pub label: u32,
    pub read_write: bool,
}

/// What a disk is.
pub struct DiskView {
    pub image: Seq<char>,
    pub label: u32,
    pub read_write: bool,
}

impl View for DiskProperties {
    type V = DiskView;

    open spec fn view(&self) -> DiskView {
        DiskView { image: self.image@, label: self.label, read_write: self.read_write }
    }
}

impl Default for DiskProperties {
    fn default() -> (r: Self)
        ensures
            r@ == (DiskView { image: Seq::empty(), label: 0, read_write: false }),
    {
        DiskProperties { image: String::new(), label: 0, read_write: false }
    }
}

/// The parameters of a virtual machine.
#[derive(Debug, Clone)]
pub struct VmParameters {
    pub name: String,
    pub enable: bool,
    /// Not part of the configuration.
    pub legacy: bool,
    pub boot_operation: ControlState,
    pub disk: Vec<DiskProperties>,
    pub try_count: u8,
    /// In seconds.
    pub boot_wait_time: u8,
    /// In seconds.
    pub boot_complete_timeout: u16,
    pub no_fs_dependency: bool,
    pub autostart: bool,
    pub on_demand_start_supported: bool,
}

/// What the parameters of a virtual machine are.
pub struct ParametersView {
    pub name: Seq<char>,
    pub enable: bool,
    pub legacy: bool,
    pub boot_operation: ControlState,
    pub disk: Seq<DiskView>,
    pub try_count: u8,
    pub boot_wait_time: u8,
    pub boot_complete_timeout: u16,
    pub no_fs_dependency: bool,
    pub autostart: bool,
    pub on_demand_start_supported: bool,
}

impl View for VmParameters {
    type V = ParametersView;

    open spec fn view(&self) -> ParametersView {
        ParametersView {
            name: self.name@,
            enable: self.enable,
            legacy: self.legacy,
            boot_operation: self.boot_operation,
            disk: self.disk@.map_values(|d: DiskProperties| d@),
            try_count: self.try_count,
            boot_wait_time: self.boot_wait_time,
            boot_complete_timeout: self.boot_complete_timeout,
            no_fs_dependency: self.no_fs_dependency,
            autostart: self.autostart,
            on_demand_start_supported: self.on_demand_start_supported,
        }
    }
}

impl Default for VmParameters {
    fn default() -> (r: Self)
        ensures
            r@ == (ParametersView {
                name: Seq::empty(),
                enable: false,
                legacy: false,
                boot_operation: ControlState::Create,
                disk: Seq::empty(),
                try_count: 0,
                boot_wait_time: 0,
                boot_complete_timeout: 0,
                no_fs_dependency: false,
                autostart: false,
                on_demand_start_supported: false,
            }),
    {
        let r = VmParameters {
            name: String::new(),
            enable: false,
            legacy: false,
            boot_operation: ControlState::Create,
            disk: Vec::new(),
            try_count: 0,
            boot_wait_time: 0,
            boot_complete_timeout: 0,
            no_fs_dependency: false,
            autostart: false,
            on_demand_start_supported: false,
        };
        assert(r@.disk =~= Seq::empty());
        r
    }
}

/// What a disk is shows in its parts, each in its own.
pub proof fn disk_shows_its_parts(d: DiskProperties)
    ensures
        d@.image == d.image@,
        d@.label == d.label,
        d@.read_write == d.read_write,
{
}

/// What the parameters are shows in their parts, each in its own, and the disks in their order.
pub proof fn parameters_show_their_parts(p: VmParameters)
    ensures
        p@.name == p.name@,
        p@.enable == p.enable,
        p@.legacy == p.legacy,
        p@.boot_operation == p.boot_operation,
        p@.try_count == p.try_count,
        p@.boot_wait_time == p.boot_wait_time,
        p@.boot_complete_timeout == p.boot_complete_timeout,
        p@.no_fs_dependency == p.no_fs_dependency,
        p@.autostart == p.autostart,
        p@.on_demand_start_supported == p.on_demand_start_supported,
        p@.disk.len() == p.disk@.len(),
        forall|i: int| 0 <= i < p.disk@.len() ==> #[trigger] p@.disk[i] == p.disk@[i]@,
{
}

} // verus!
