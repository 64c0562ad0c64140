//! Timeouts for common situations, with longer timeouts under nested virtualization.
use crate::text;
use vstd::prelude::*;

verus! {

/// The timeouts, in seconds.
#[derive(Debug, PartialEq, Eq, Structural, Clone, Copy)]
pub struct Timeouts {
    /// Total time that odrefresh may take to perform compilation.
    pub odrefresh_max_execution_time: u64,
    /// Time allowed for the virtual machine to start up and become ready.
    pub vm_max_time_to_ready: u64,
    /// Time to wait for a virtual machine to exit once the payload has finished.
    pub vm_max_time_to_exit: u64,
}

/// The timeouts under nested virtualization, which is slow, or without it.
pub open spec fn timeouts_for(nested: bool) -> Timeouts {
    if nested {
        Timeouts {
            odrefresh_max_execution_time: 480,
            vm_max_time_to_ready: 120,
            vm_max_time_to_exit: 20,
        }
    } else {
        Timeouts {
            odrefresh_max_execution_time: 300,
            vm_max_time_to_ready: 15,
            vm_max_time_to_exit: 5,
        }
    }
}

/// The timeouts that are appropriate with or without nested virtualization.
pub fn timeouts(nested: bool) -> (r: Timeouts)
    ensures
        r == timeouts_for(nested),
{
    if nested {
        Timeouts {
            odrefresh_max_execution_time: 480,
            vm_max_time_to_ready: 120,
            vm_max_time_to_exit: 20,
        }
    } else {
        Timeouts {
            odrefresh_max_execution_time: 300,
            vm_max_time_to_ready: 15,
            vm_max_time_to_exit: 5,
        }
    }
}

/// Under nested virtualization no timeout is shorter.
pub proof fn nested_is_never_shorter()
    ensures
        timeouts_for(false).odrefresh_max_execution_time <= timeouts_for(
            true,
        ).odrefresh_max_execution_time,
        timeouts_for(false).vm_max_time_to_ready <= timeouts_for(true).vm_max_time_to_ready,
        timeouts_for(false).vm_max_time_to_exit <= timeouts_for(true).vm_max_time_to_exit,
{
}

/// A property that shows nested virtualization by what its value starts with.
#[derive(Debug, PartialEq, Eq, Structural, Clone, Copy)]
pub enum NestedCheck {
    /// The device is a virtual one.
    Device,
    /// The hardware is emulated.
    Hardware,
}

/// The property of a check.
pub open spec fn check_property(check: NestedCheck) -> Seq<char> {
    match check {
        NestedCheck::Device => "ro.product.vendor.device"@,
        NestedCheck::Hardware => "ro.hardware"@,
    }
}

/// What the value of the property starts with under nested virtualization.
pub open spec fn check_prefix(check: NestedCheck) -> Seq<char> {
    match check {
        NestedCheck::Device => "vsoc_"@,
        NestedCheck::Hardware => "qemu_"@,
    }
}

/// Whether the value of the property shows nested virtualization.
pub open spec fn shows_nesting(check: NestedCheck, value: Option<Seq<char>>) -> bool {
    value matches Some(v) && text::has_prefix(v, check_prefix(check))
}

impl NestedCheck {
    /// The property to read.
    pub fn property(self) -> (r: &'static str)
        ensures
            r@ == check_property(self),
    {
        match self {
            NestedCheck::Device => "ro.product.vendor.device",
            NestedCheck::Hardware => "ro.hardware",
        }
    }

    fn prefix(self) -> (r: &'static str)
        ensures
            r@ == check_prefix(self),
    {
        match self {
            NestedCheck::Device => "vsoc_",
            NestedCheck::Hardware => "qemu_",
        }
    }
}

/// What is to be done next to find out about nested virtualization.
#[derive(Debug, PartialEq, Eq)]
pub enum NestedStep {
    /// Read the property of the check.
    Read(NestedCheck),
    /// Nothing; whether there is nested virtualization.
    Known(bool),
    /// Nothing; a property could not be read, with what was said of that.
    Unknown(String),
}

/// What a step is.
pub enum NestedView {
    Read(NestedCheck),
    Known(bool),
    Unknown(Seq<char>),
}

impl View for NestedStep {
    type V = NestedView;

    open spec fn view(&self) -> NestedView {
        match *self {
            NestedStep::Read(check) => NestedView::Read(check),
            NestedStep::Known(nested) => NestedView::Known(nested),
            NestedStep::Unknown(words) => NestedView::Unknown(words@),
        }
    }
}

/// The step after a property has been read, which may have no value; a check that shows
/// nothing is followed by the next one.
pub open spec fn nested_follows(
    check: NestedCheck,
    read: Result<Option<Seq<char>>, Seq<char>>,
) -> NestedView {
    match read {
        Err(words) => NestedView::Unknown(words),
        Ok(value) => if shows_nesting(check, value) {
            NestedView::Known(true)
        } else if check == NestedCheck::Device {
            NestedView::Read(NestedCheck::Hardware)
        } else {
            NestedView::Known(false)
        },
    }
}

/// What reading a property came to: its value, if it has one, or what was said of a failure.
pub open spec fn read_view(read: Result<Option<String>, String>) -> Result<
    Option<Seq<char>>,
    Seq<char>,
> {
    match read {
        Ok(value) => Ok(crate::status::opt_text(value)),
        Err(words) => Err(words@),
    }
}

/// Begins to find out about nested virtualization.
pub fn is_nested_virtualization() -> (r: NestedStep)
    ensures
        r@ == NestedView::Read(NestedCheck::Device),
{
    NestedStep::Read(NestedCheck::Device)
}

/// Goes on after a property has been read.
pub fn nested_after_read(check: NestedCheck, read: Result<Option<String>, String>) -> (r:
    NestedStep)
    ensures
        r@ == nested_follows(check, read_view(read)),
{
    match read {
        Err(words) => NestedStep::Unknown(words),
        Ok(value) => {
            if let Some(v) = value {
                if text::starts_with(v.as_str(), check.prefix()) {
                    return NestedStep::Known(true);
                }
            }
            match check {
                NestedCheck::Device => NestedStep::Read(NestedCheck::Hardware),
                NestedCheck::Hardware => NestedStep::Known(false),
            }
        },
    }
}

/// What the checks come to, given what reading each property comes to.
pub open spec fn nested_result(
    device: Result<Option<Seq<char>>, Seq<char>>,
    hardware: Result<Option<Seq<char>>, Seq<char>>,
) -> NestedView {
    match nested_follows(NestedCheck::Device, device) {
        NestedView::Read(check) => nested_follows(check, hardware),
        step => step,
    }
}

/// There is nested virtualization exactly if one of the properties shows it.
pub proof fn nested_if_any_shows(device: Option<Seq<char>>, hardware: Option<Seq<char>>)
    ensures
        nested_result(Ok(device), Ok(hardware)) == NestedView::Known(
            shows_nesting(NestedCheck::Device, device) || shows_nesting(
                NestedCheck::Hardware,
                hardware,
            ),
        ),
{
}

/// Once a property shows nested virtualization the other one does not matter.
pub proof fn device_is_enough(
    device: Option<Seq<char>>,
    hardware: Result<Option<Seq<char>>, Seq<char>>,
)
    requires
        shows_nesting(NestedCheck::Device, device),
    ensures
        nested_result(Ok(device), hardware) == NestedView::Known(true),
{
}

/// The first property that is needed and cannot be read decides what is said.
pub proof fn first_unreadable_decides(
    device: Option<Seq<char>>,
    hardware: Result<Option<Seq<char>>, Seq<char>>,
    words: Seq<char>,
)
    ensures
        nested_result(Err(words), hardware) == NestedView::Unknown(words),
        !shows_nesting(NestedCheck::Device, device) ==> nested_result(Ok(device), Err(words))
            == NestedView::Unknown(words),
{
}

/// There is nested virtualization exactly if the name of the device starts as that of a
/// virtual device or the name of the hardware as that of emulated hardware.
pub proof fn nested_by_the_start_of_a_name(device: Option<Seq<char>>, hardware: Option<Seq<char>>)
    ensures
        nested_result(Ok(device), Ok(hardware)) == NestedView::Known(true) <==> {
            ||| device matches Some(v) && text::has_prefix(v, "vsoc_"@)
            ||| hardware matches Some(v) && text::has_prefix(v, "qemu_"@)
        },
        nested_result(Ok(device), Ok(hardware)) is Known,
{
}

/// The device is asked for before the hardware, and the hardware only if the device tells
/// nothing.
pub proof fn hardware_is_asked_for_last(read: Result<Option<Seq<char>>, Seq<char>>)
    ensures
        nested_follows(NestedCheck::Device, read) is Read <==> (read matches Ok(value) && !(
        value matches Some(v) && text::has_prefix(v, "vsoc_"@))),
        nested_follows(NestedCheck::Device, read) matches NestedView::Read(check) ==> check
            == NestedCheck::Hardware,
        !(nested_follows(NestedCheck::Hardware, read) is Read),
        check_property(NestedCheck::Device) == "ro.product.vendor.device"@,
        check_property(NestedCheck::Hardware) == "ro.hardware"@,
{
}

} // verus!
