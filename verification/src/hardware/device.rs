//! Choosing which attached device to drive, and the headless fallback.
//!
//! Enumeration itself happens outside the library; candidates arrive as
//! plain values (is it the supported kind, and its serial). When no
//! device can be selected the backend runs headless: commands are
//! accepted and discarded, and no event is ever produced.

use vstd::prelude::*;
use vstd::string::StrSliceExecFns;

use crate::hardware::model::{HardwareCommand, HardwareEvent};
use crate::text;

verus! {

/// One enumerated device: whether it is the supported kind, and its
/// serial number.
pub struct DeviceCandidate {
    pub plus: bool,
    pub serial: String,
}

/// Why no device was selected.
#[derive(Debug, Clone, Copy, PartialEq, Eq, Structural)]
pub enum SelectError {
    /// No device of the supported kind is attached at all.
    NoDevice,
    /// Devices of the kind exist, but none carries the configured serial.
    SerialNotFound,
}

/// Whether candidate `c` satisfies the optional serial filter.
pub open spec fn serial_matches(c: DeviceCandidate, filter: Option<Seq<char>>) -> bool {
    match filter {
        Some(s) => c.serial@ == s,
        None => true,
    }
}

/// Picks the first device of the supported kind that satisfies the
/// serial filter. `NoDevice` when no candidate is of the kind at all;
/// `SerialNotFound` when some are but none carries the wanted serial.
pub fn select_device(devices: &Vec<DeviceCandidate>, serial_filter: &Option<String>) -> (r:
    Result<usize, SelectError>)
    ensures
        ({
            let filter = match serial_filter {
                Some(s) => Some(s@),
                None => None,
            };
            match r {
                Ok(i) => i < devices@.len() && devices@[i as int].plus && serial_matches(
                    devices@[i as int],
                    filter,
                ) && (forall|j: int|
                    0 <= j < i ==> !(devices@[j].plus && serial_matches(devices@[j], filter))),
                Err(SelectError::NoDevice) => forall|j: int|
                    0 <= j < devices@.len() ==> !devices@[j].plus,
                Err(SelectError::SerialNotFound) => (exists|j: int|
                    0 <= j < devices@.len() && devices@[j].plus) && (forall|j: int|
                    0 <= j < devices@.len() ==> !(devices@[j].plus && serial_matches(
                        devices@[j],
                        filter,
                    ))),
            }
        }),
{
    let mut any_plus = false;
    let mut i: usize = 0;
    while i < devices.len()
        invariant
            i <= devices@.len(),
            forall|j: int|
                0 <= j < i ==> !(devices@[j].plus && serial_matches(
                    #[trigger] devices@[j],
                    match serial_filter {
                        Some(s) => Some(s@),
                        None => None,
                    },
                )),
            any_plus == (exists|j: int| 0 <= j < i && devices@[j].plus),
        decreases devices@.len() - i,
    {
        let candidate = &devices[i];
        if candidate.plus {
            any_plus = true;
            let matched = match serial_filter {
                Option::Some(wanted) => candidate.serial.eq(wanted),
                Option::None => true,
            };
            if matched {
                return Ok(i);
            }
        }
        i = i + 1;
    }
    if any_plus {
        Err(SelectError::SerialNotFound)
    } else {
        Err(SelectError::NoDevice)
    }
}

/// Whether an open failure is a permissions problem (the device is
/// there but cannot be opened): such a failure is retried on a fixed
/// interval, so a permissions fix takes effect without a restart, while
/// a missing device is not retried forever.
pub fn is_permission_denied(message: &str) -> (r: bool)
    ensures
        r == text::spec_contains(text::spec_lower(message@), "permission denied"@),
{
    proof {
        reveal_strlit("permission denied");
    }
    let lower = text::lower_chars(&text::chars_of(message));
    text::contains_chars(&lower, &text::chars_of("permission denied"))
}

/// Headless mode: a command is accepted, acknowledged by doing nothing,
/// and can never give rise to an event.
pub fn headless_accept(command: HardwareCommand) -> (events: Vec<HardwareEvent>)
    ensures
        events@ == Seq::<HardwareEvent>::empty(),
{
    let _ = command;
    Vec::new()
}

} // verus!
