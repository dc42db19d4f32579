use vstd::prelude::*;
use vstd::string::StringExecFns;
use crate::error::RecorderError;
use crate::format::{stream_format_of, wav_spec_from_config, DeviceConfig, StreamFormat};

verus! {

/// One input device as the platform lists it.
pub struct DeviceInfo {
    pub name: String,
    pub config: DeviceConfig,
}

/// The format in which a device operates, which is the format recorded.
pub fn query_format(device: &DeviceInfo) -> (format: StreamFormat)
    ensures
        format == stream_format_of(device.config),
{
    wav_spec_from_config(&device.config)
}

/// Whether a requested name stands for the platform's default device: the
/// word `default`, or no name at all.
pub open spec fn asks_for_default(requested: Seq<char>) -> bool {
    requested == "default"@ || requested.len() == 0
}

/// Whether `index` is the first listed device whose name is exactly `name`.
pub open spec fn is_first_named(devices: Seq<DeviceInfo>, name: Seq<char>, index: int) -> bool {
    &&& 0 <= index < devices.len()
    &&& devices[index].name@ == name
    &&& forall|j: int| 0 <= j < index ==> (#[trigger] devices[j]).name@ != name
}

/// Whether no listed device has exactly the name `name`.
pub open spec fn none_named(devices: Seq<DeviceInfo>, name: Seq<char>) -> bool {
    forall|j: int| 0 <= j < devices.len() ==> (#[trigger] devices[j]).name@ != name
}

/// Whether a request is answered by the device at `index`: the default device
/// where the default is asked for, else the first device of that name.
pub open spec fn resolves_to(
    requested: Seq<char>,
    devices: Seq<DeviceInfo>,
    default_device: Option<usize>,
    index: int,
) -> bool {
    if asks_for_default(requested) {
        default_device.is_some() && default_device.unwrap() as int == index && index
            < devices.len()
    } else {
        is_first_named(devices, requested, index)
    }
}

/// Whether a request is answered by no device.
pub open spec fn unresolvable(
    requested: Seq<char>,
    devices: Seq<DeviceInfo>,
    default_device: Option<usize>,
) -> bool {
    if asks_for_default(requested) {
        match default_device {
            Some(d) => d >= devices.len(),
            None => true,
        }
    } else {
        none_named(devices, requested)
    }
}

/// A request is answered by at most one device, and by none exactly when it
/// is unresolvable.
pub proof fn resolution_unique(
    requested: Seq<char>,
    devices: Seq<DeviceInfo>,
    default_device: Option<usize>,
    a: int,
    b: int,
)
    requires
        resolves_to(requested, devices, default_device, a),
        resolves_to(requested, devices, default_device, b),
    ensures
        a == b,
        !unresolvable(requested, devices, default_device),
{
    if !asks_for_default(requested) {
        if a < b {
            assert(devices[a].name@ != requested);
        }
        if b < a {
            assert(devices[b].name@ != requested);
        }
        assert(devices[a].name@ == requested);
    }
}

/// Finds the device that a request names. `default_device` is the place of
/// the platform's default device in the list, if it has one.
pub fn resolve(requested: &String, devices: &Vec<DeviceInfo>, default_device: Option<usize>) -> (found:
    Result<usize, RecorderError>)
    ensures
        match found {
            Ok(index) => resolves_to(requested@, devices@, default_device, index as int),
            Err(e) => e == RecorderError::DeviceNotFound && unresolvable(
                requested@,
                devices@,
                default_device,
            ),
        },
{
    let default_name = String::from_str("default");
    if requested.as_str().is_empty() || *requested == default_name {
        return match default_device {
            Some(d) => if d < devices.len() {
                Ok(d)
            } else {
                Err(RecorderError::DeviceNotFound)
            },
            None => Err(RecorderError::DeviceNotFound),
        };
    }
    let mut i: usize = 0;
    while i < devices.len()
        invariant
            i <= devices.len(),
            !asks_for_default(requested@),
            forall|j: int| 0 <= j < i ==> (#[trigger] devices@[j]).name@ != requested@,
        decreases devices.len() - i,
    {
        if devices[i].name == *requested {
            return Ok(i);
        }
        i += 1;
    }
    Err(RecorderError::DeviceNotFound)
}

} // verus!
