//! The device directory: descriptors for the audio endpoints the host
//! reports, and resolution of a device name against them.
//!
//! The host subsystem is queried outside this crate; its raw answers come in
//! as plain values. `None` in place of a whole answer means the host could
//! not produce a device iterator; `None` in place of one name means that one
//! device's name query failed. Every decision about those answers is made,
//! and verified, here.

use vstd::prelude::*;

use crate::errors::CaptureError;

verus! {

/// A stable, serializable descriptor of one audio endpoint. Identity is the
/// name string: it is the lookup key, though the host does not guarantee
/// global uniqueness.
pub struct Device {
    pub name: String,
}

impl Device {
    /// A descriptor for the endpoint the host reported under `name`.
    pub fn new(name: String) -> (d: Device)
        ensures
            d.name@ == name@,
    {
        Device { name }
    }
}

/// A point-in-time snapshot of the visible endpoints; re-queried on every
/// directory request, never cached. Ordering follows host enumeration order.
pub struct DeviceList {
    pub input_devices: Vec<Device>,
    pub output_devices: Vec<Device>,
}

/// The names a sequence of descriptors carries, in order.
pub open spec fn names_of(devices: Seq<Device>) -> Seq<Seq<char>> {
    devices.map_values(|d: Device| d.name@)
}

/// Whether every per-device name query in one raw enumeration answer
/// succeeded.
pub open spec fn all_names_readable(names: Seq<Option<String>>) -> bool {
    forall|i: int| 0 <= i < names.len() ==> names[i] is Some
}

/// The name sequence a fully readable enumeration answer describes.
pub open spec fn readable_names(names: Seq<Option<String>>) -> Seq<Seq<char>> {
    names.map_values(|n: Option<String>| n->0@)
}

/// Whether one raw enumeration answer yields a listing at all: the host
/// produced an iterator and every name query on it succeeded.
pub open spec fn answer_ok(answer: Option<Vec<Option<String>>>) -> bool {
    &&& answer is Some
    &&& all_names_readable(answer->0@)
}

/// The failure a bad enumeration answer is reported as: a missing iterator
/// is an enumeration failure, a single unreadable name fails the whole
/// listing as a name failure (no partial lists, and never a panic).
pub open spec fn answer_error(answer: Option<Vec<Option<String>>>) -> CaptureError {
    if answer is None {
        CaptureError::DeviceEnumerationError
    } else {
        CaptureError::DeviceNameUnavailable
    }
}

/// Converts one raw enumeration answer into descriptors, in the host's
/// enumeration order.
pub fn collect_devices(answer: Option<Vec<Option<String>>>) -> (r: Result<
    Vec<Device>,
    CaptureError,
>)
    ensures
        r is Ok <==> answer_ok(answer),
        r is Ok ==> names_of(r->Ok_0@) == readable_names(answer->0@),
        r is Err ==> r->Err_0 == answer_error(answer),
{
    let raw = match answer {
        Some(raw) => raw,
        None => {
            return Err(CaptureError::DeviceEnumerationError);
        },
    };
    let mut devices: Vec<Device> = Vec::new();
    let mut i: usize = 0;
    while i < raw.len()
        invariant
            answer == Some(raw),
            i <= raw@.len(),
            forall|j: int| 0 <= j < i ==> raw@[j] is Some,
            devices@.len() == i,
            forall|j: int| 0 <= j < i ==> devices@[j].name@ == raw@[j]->0@,
        decreases raw@.len() - i,
    {
        match &raw[i] {
            Some(name) => {
                devices.push(Device { name: name.clone() });
            },
            None => {
                assert(!all_names_readable(raw@)) by {
                    assert(raw@[i as int] is None);
                }
                return Err(CaptureError::DeviceNameUnavailable);
            },
        }
        i += 1;
    }
    assert(names_of(devices@) =~= readable_names(raw@));
    Ok(devices)
}

/// Builds the directory snapshot from the host's two raw enumeration
/// answers. Either answer failing fails the whole listing; the input answer
/// is judged first.
pub fn build_device_list(
    inputs: Option<Vec<Option<String>>>,
    outputs: Option<Vec<Option<String>>>,
) -> (r: Result<DeviceList, CaptureError>)
    ensures
        r is Ok <==> answer_ok(inputs) && answer_ok(outputs),
        r is Ok ==> names_of(r->Ok_0.input_devices@) == readable_names(inputs->0@),
        r is Ok ==> names_of(r->Ok_0.output_devices@) == readable_names(outputs->0@),
        r is Err ==> r->Err_0 == (if !answer_ok(inputs) {
            answer_error(inputs)
        } else {
            answer_error(outputs)
        }),
{
    let input_devices = match collect_devices(inputs) {
        Ok(devices) => devices,
        Err(e) => {
            return Err(e);
        },
    };
    let output_devices = match collect_devices(outputs) {
        Ok(devices) => devices,
        Err(e) => {
            return Err(e);
        },
    };
    Ok(DeviceList { input_devices, output_devices })
}

/// Law: the directory is stable while the host topology is. Any two listings
/// drawn from the same enumeration answer carry identical names, in the same
/// order: the listed names are a function of the host snapshot alone.
pub proof fn lemma_directory_stable(
    answer: Seq<Option<String>>,
    first: Seq<Device>,
    second: Seq<Device>,
)
    requires
        names_of(first) == readable_names(answer),
        names_of(second) == readable_names(answer),
    ensures
        names_of(first) == names_of(second),
{
}

/// Index of the first device whose name equals `name`, if any.
pub fn find_device(devices: &Vec<Device>, name: &String) -> (r: Option<usize>)
    ensures
        match r {
            Some(i) => {
                &&& i < devices@.len()
                &&& devices@[i as int].name@ == name@
                &&& forall|j: int| 0 <= j < i ==> devices@[j].name@ != name@
            },
            None => forall|j: int| 0 <= j < devices@.len() ==> devices@[j].name@ != name@,
        },
{
    let mut i: usize = 0;
    while i < devices.len()
        invariant
            i <= devices@.len(),
            forall|j: int| 0 <= j < i ==> devices@[j].name@ != name@,
        decreases devices@.len() - i,
    {
        if devices[i].name == *name {
            return Some(i);
        }
        i += 1;
    }
    None
}

/// Resolves a requested capture device against the current input listing;
/// no match is reported as `DeviceNotFound`.
pub fn resolve_input_device(devices: &Vec<Device>, name: &String) -> (r: Result<
    usize,
    CaptureError,
>)
    ensures
        match r {
            Ok(i) => {
                &&& i < devices@.len()
                &&& devices@[i as int].name@ == name@
                &&& forall|j: int| 0 <= j < i ==> devices@[j].name@ != name@
            },
            Err(e) => {
                &&& e == CaptureError::DeviceNotFound
                &&& forall|j: int| 0 <= j < devices@.len() ==> devices@[j].name@ != name@
            },
        },
{
    match find_device(devices, name) {
        Some(i) => Ok(i),
        None => Err(CaptureError::DeviceNotFound),
    }
}

} // verus!
