//! Device selection: filter enumerated devices by required capability
//! extensions and presentation support, score the survivors, pick one.
//!
//! A candidate device is described to this module as plain data: its
//! category, its maximum supported 2D image dimension, the names of the
//! extensions it supports, and for each queue family whether that family
//! supports the required execution class and presentation to the target.
//! The caller gathers those answers from the graphics backend and the
//! presentation target beforehand; selection itself is a pure query.

use vstd::prelude::*;

use crate::RenderError;

verus! {

/// The broad hardware category a device reports.
#[derive(Clone, Copy, Debug, PartialEq, Eq, Structural)]
pub enum DeviceCategory {
    Discrete,
    Integrated,
    Virtual,
    Software,
    Other,
}

/// What one queue family of a device answers to the two suitability
/// questions: does it support the required execution class (graphics), and
/// can it present to the target.
#[derive(Clone, Copy, Debug, PartialEq, Eq, Structural)]
pub struct QueueFamily {
    pub supports_graphics: bool,
    pub supports_present: bool,
}

/// One enumerated device, reduced to the facts selection reads.
#[derive(Debug)]
pub struct DeviceInfo {
    pub category: DeviceCategory,
    /// Maximum supported 2D image dimension; used as the scoring tie-breaker
    /// and capability proxy.
    pub max_image_dimension: u32,
    /// Names of the extensions the device supports, as byte strings.
    pub extensions: Vec<Vec<u8>>,
    pub queue_families: Vec<QueueFamily>,
}

/// The result of selection: which enumerated device (by its position in the
/// enumeration order) and which of its queue families to execute on.
#[derive(Clone, Copy, Debug, PartialEq, Eq, Structural)]
pub struct Selection {
    pub device_index: usize,
    pub queue_family: u32,
}

/// Base score of a device category: discrete 1000, integrated 100,
/// virtual 50, software 10, other 1.
pub open spec fn category_base(c: DeviceCategory) -> int {
    match c {
        DeviceCategory::Discrete => 1000,
        DeviceCategory::Integrated => 100,
        DeviceCategory::Virtual => 50,
        DeviceCategory::Software => 10,
        DeviceCategory::Other => 1,
    }
}

/// Score of a device: category base plus its maximum 2D image dimension.
pub open spec fn spec_score(d: DeviceInfo) -> int {
    category_base(d.category) + d.max_image_dimension
}

/// The name occurs in the list.
pub open spec fn spec_name_supported(list: Seq<Vec<u8>>, name: Seq<u8>) -> bool {
    exists|i: int| 0 <= i < list.len() && list[i]@ == name
}

/// The device supports an extension of the given name.
pub open spec fn spec_supports_extension(d: DeviceInfo, name: Seq<u8>) -> bool {
    spec_name_supported(d.extensions@, name)
}

/// Every required name is among the supported ones.
pub open spec fn spec_all_required_supported(
    supported: Seq<Vec<u8>>,
    required: Seq<Vec<u8>>,
) -> bool {
    forall|j: int| 0 <= j < required.len() ==> spec_name_supported(supported, required[j]@)
}

/// Every required extension is among the device's supported extensions.
pub open spec fn spec_has_required_extensions(d: DeviceInfo, required: Seq<Vec<u8>>) -> bool {
    spec_all_required_supported(d.extensions@, required)
}

/// The family supports both the required execution class and presentation.
pub open spec fn spec_family_qualified(f: QueueFamily) -> bool {
    f.supports_graphics && f.supports_present
}

/// Some queue family of the device is qualified.
pub open spec fn spec_has_qualified_family(d: DeviceInfo) -> bool {
    exists|i: int| 0 <= i < d.queue_families@.len() && spec_family_qualified(d.queue_families@[i])
}

/// A device passes the suitability filter: all required extensions present,
/// and at least one queue family qualified.
pub open spec fn spec_suitable(d: DeviceInfo, required: Seq<Vec<u8>>) -> bool {
    spec_has_required_extensions(d, required) && spec_has_qualified_family(d)
}

/// Byte-string equality.
fn bytes_eq(a: &Vec<u8>, b: &Vec<u8>) -> (r: bool)
    ensures
        r == (a@ == b@),
{
    if a.len() != b.len() {
        return false;
    }
    let mut i: usize = 0;
    while i < a.len()
        invariant
            i <= a.len(),
            a.len() == b.len(),
            forall|k: int| 0 <= k < i ==> a@[k] == b@[k],
        decreases a.len() - i,
    {
        if a[i] != b[i] {
            return false;
        }
        i = i + 1;
    }
    proof {
        assert(a@ =~= b@);
    }
    true
}

/// Whether `name` occurs in `list`.
fn contains_name(list: &Vec<Vec<u8>>, name: &Vec<u8>) -> (r: bool)
    ensures
        r == exists|i: int| 0 <= i < list@.len() && list@[i]@ == name@,
{
    let mut i: usize = 0;
    while i < list.len()
        invariant
            i <= list.len(),
            forall|k: int| 0 <= k < i ==> list@[k]@ != name@,
        decreases list.len() - i,
    {
        if bytes_eq(&list[i], name) {
            return true;
        }
        i = i + 1;
    }
    false
}

/// Whether every required extension name is in the supported list. Exposed
/// so that a caller gathering device facts can skip the queue-family and
/// presentation queries of a device this filter already rejects, as well
/// as feeding the suitability check itself.
pub fn has_required_extensions(supported: &Vec<Vec<u8>>, required: &Vec<Vec<u8>>) -> (r: bool)
    ensures
        r == spec_all_required_supported(supported@, required@),
{
    let mut j: usize = 0;
    while j < required.len()
        invariant
            j <= required.len(),
            forall|k: int| 0 <= k < j ==> spec_name_supported(supported@, required@[k]@),
        decreases required.len() - j,
    {
        if !contains_name(supported, &required[j]) {
            return false;
        }
        j = j + 1;
    }
    true
}

/// Suitability check for one device: rejects it unless every required
/// extension is supported, then scans its queue families for the first one
/// supporting both the required execution class and presentation to the
/// target. Returns that family's index, or `None` if the device is rejected.
pub fn is_suitable(device: &DeviceInfo, required: &Vec<Vec<u8>>) -> (r: Option<u32>)
    requires
        device.queue_families@.len() <= u32::MAX,
    ensures
        r is Some <==> spec_suitable(*device, required@),
        r matches Some(ix) ==> {
            &&& 0 <= ix < device.queue_families@.len()
            &&& spec_family_qualified(device.queue_families@[ix as int])
            &&& forall|k: int|
                0 <= k < ix ==> !spec_family_qualified(device.queue_families@[k])
        },
{
    if !has_required_extensions(&device.extensions, required) {
        return None;
    }

    let mut i: usize = 0;
    while i < device.queue_families.len()
        invariant
            i <= device.queue_families@.len() <= u32::MAX,
            forall|k: int| 0 <= k < i ==> !spec_family_qualified(device.queue_families@[k]),
            spec_has_required_extensions(*device, required@),
        decreases device.queue_families@.len() - i,
    {
        let family = device.queue_families[i];
        if family.supports_graphics && family.supports_present {
            return Some(i as u32);
        }
        i = i + 1;
    }
    None
}

/// Score one device: category base plus maximum 2D image dimension.
pub fn rate(device: &DeviceInfo) -> (score: u64)
    ensures
        score == spec_score(*device),
{
    let base: u64 = match device.category {
        DeviceCategory::Discrete => 1000,
        DeviceCategory::Integrated => 100,
        DeviceCategory::Virtual => 50,
        DeviceCategory::Software => 10,
        DeviceCategory::Other => 1,
    };
    base + device.max_image_dimension as u64
}

/// Select the single best device+family pair, or fail.
///
/// Fails with `EnumerationFailure` exactly when the device list is empty,
/// and with `NoSuitableDevice` exactly when devices exist but none passes
/// the suitability filter. Otherwise exactly one pair is returned: a
/// suitable device of maximum score, with its first qualified family.
/// Among equal maximum scores the device enumerated last wins — the
/// deliberate reading of the score-table design, stated here so that ties
/// are decided by contract rather than by accident.
pub fn select_gpu(devices: &Vec<DeviceInfo>, required: &Vec<Vec<u8>>) -> (r: Result<
    Selection,
    RenderError,
>)
    requires
        forall|i: int|
            0 <= i < devices@.len() ==> (#[trigger] devices@[i]).queue_families@.len() <= u32::MAX,
    ensures
        devices@.len() == 0 <==> r == Err::<Selection, RenderError>(
            RenderError::EnumerationFailure,
        ),
        (devices@.len() > 0 && forall|i: int|
            0 <= i < devices@.len() ==> !spec_suitable(#[trigger] devices@[i], required@)) <==> r
            == Err::<Selection, RenderError>(RenderError::NoSuitableDevice),
        (exists|i: int| 0 <= i < devices@.len() && spec_suitable(#[trigger] devices@[i], required@))
            <==> r is Ok,
        r matches Ok(sel) ==> {
            &&& 0 <= sel.device_index < devices@.len()
            &&& spec_suitable(devices@[sel.device_index as int], required@)
            &&& forall|j: int|
                0 <= j < devices@.len() && spec_suitable(#[trigger] devices@[j], required@)
                    ==> spec_score(devices@[j]) <= spec_score(devices@[sel.device_index as int])
            &&& forall|j: int|
                sel.device_index < j < devices@.len() && spec_suitable(
                    #[trigger] devices@[j],
                    required@,
                ) ==> spec_score(devices@[j]) < spec_score(devices@[sel.device_index as int])
            &&& 0 <= sel.queue_family < devices@[sel.device_index as int].queue_families@.len()
            &&& spec_family_qualified(
                devices@[sel.device_index as int].queue_families@[sel.queue_family as int],
            )
            &&& forall|k: int|
                0 <= k < sel.queue_family ==> !spec_family_qualified(
                    devices@[sel.device_index as int].queue_families@[k],
                )
        },
{
    if devices.len() == 0 {
        return Err(RenderError::EnumerationFailure);
    }

    let mut best: Option<Selection> = None;
    let mut best_score: u64 = 0;
    let mut i: usize = 0;
    while i < devices.len()
        invariant
            i <= devices@.len(),
            forall|k: int|
                0 <= k < devices@.len() ==> (#[trigger] devices@[k]).queue_families@.len()
                    <= u32::MAX,
            best is None ==> forall|k: int|
                0 <= k < i ==> !spec_suitable(#[trigger] devices@[k], required@),
            best matches Some(sel) ==> {
                &&& 0 <= sel.device_index < i
                &&& spec_suitable(devices@[sel.device_index as int], required@)
                &&& best_score == spec_score(devices@[sel.device_index as int])
                &&& forall|j: int|
                    0 <= j < i && spec_suitable(#[trigger] devices@[j], required@) ==> spec_score(
                        devices@[j],
                    ) <= best_score
                &&& forall|j: int|
                    sel.device_index < j < i && spec_suitable(#[trigger] devices@[j], required@)
                        ==> spec_score(devices@[j]) < best_score
                &&& 0 <= sel.queue_family < devices@[sel.device_index as int].queue_families@.len()
                &&& spec_family_qualified(
                    devices@[sel.device_index as int].queue_families@[sel.queue_family as int],
                )
                &&& forall|k: int|
                    0 <= k < sel.queue_family ==> !spec_family_qualified(
                        devices@[sel.device_index as int].queue_families@[k],
                    )
            },
        decreases devices@.len() - i,
    {
        if let Some(family) = is_suitable(&devices[i], required) {
            let score = rate(&devices[i]);
            let take = match best {
                None => true,
                Some(_) => score >= best_score,
            };
            if take {
                best = Some(Selection { device_index: i, queue_family: family });
                best_score = score;
            }
        }
        i = i + 1;
    }

    match best {
        Some(sel) => Ok(sel),
        None => Err(RenderError::NoSuitableDevice),
    }
}

} // verus!
