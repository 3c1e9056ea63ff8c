//! The physical device selector: filtering enumerated devices by capability
//! and ranking the survivors by device type preference.

use vstd::prelude::*;
use crate::device::{
    PhysicalDeviceInfo, has_graphics_family, is_first_graphics, lemma_first_graphics_unique,
    find_best_suited_queue_family,
};

verus! {

/// The result of device selection: the position of the chosen device in the
/// enumerated list, and its chosen queue family index.
#[derive(Clone, Copy, PartialEq, Eq, Structural, Debug)]
pub struct DeviceSelection {
    /// Index of the chosen device in the list handed to the selector.
    pub device_index: usize,
    /// The chosen queue family index on that device.
    pub queue_family_index: u32,
}

/// No enumerated device survived every capability filter. Hardware
/// capability is static for the process lifetime, so this is fatal to the
/// caller: there is nothing to retry.
#[derive(Clone, Copy, PartialEq, Eq, Structural, Debug)]
pub struct NoSuitableDeviceError;

/// A device survives every filter of the selector: it has a graphics-capable
/// queue family, it supports the required device extensions, and its first
/// graphics-capable family can present to the target surface.
pub open spec fn eligible(d: PhysicalDeviceInfo) -> bool {
    &&& d.supports_required_extensions
    &&& exists|i: int|
        #[trigger] is_first_graphics(d.queue_families@, i)
            && d.queue_families@[i].supports_present
}

/// What the selector guarantees of a successful selection over a candidate
/// list: the chosen device is eligible, the chosen queue family is its first
/// graphics-capable one and can present, the chosen device's type rank is
/// minimal among all eligible candidates, and no earlier candidate ties that
/// rank (the selector keeps the first of equally ranked devices).
pub open spec fn selection_valid(devices: Seq<PhysicalDeviceInfo>, sel: DeviceSelection) -> bool {
    &&& sel.device_index < devices.len()
    &&& eligible(devices[sel.device_index as int])
    &&& is_first_graphics(
        devices[sel.device_index as int].queue_families@,
        sel.queue_family_index as int,
    )
    &&& devices[sel.device_index as int].queue_families@[sel.queue_family_index as int].supports_present
    &&& forall|k: int|
        0 <= k < devices.len() && eligible(#[trigger] devices[k])
            ==> devices[sel.device_index as int].device_type.rank_spec()
                <= devices[k].device_type.rank_spec()
    &&& forall|k: int|
        0 <= k < sel.device_index && eligible(#[trigger] devices[k])
            ==> devices[sel.device_index as int].device_type.rank_spec()
                < devices[k].device_type.rank_spec()
}

/// Checks one device against every capability filter. Returns the chosen
/// queue family index when the device is eligible, `None` otherwise.
fn check_candidate(d: &PhysicalDeviceInfo) -> (r: Option<u32>)
    requires
        d.queue_families@.len() <= u32::MAX as int,
    ensures
        match r {
            Some(i) => {
                &&& eligible(*d)
                &&& is_first_graphics(d.queue_families@, i as int)
                &&& d.queue_families@[i as int].supports_present
            },
            None => !eligible(*d),
        },
{
    match find_best_suited_queue_family(&d.queue_families) {
        None => {
            assert(!eligible(*d)) by {
                if eligible(*d) {
                    let i = choose|i: int|
                        is_first_graphics(d.queue_families@, i)
                            && d.queue_families@[i].supports_present;
                    assert(has_graphics_family(d.queue_families@));
                }
            }
            None
        },
        Some(i) => {
            let fam = d.queue_families[i as usize];
            if d.supports_required_extensions && fam.supports_present {
                Some(i)
            } else {
                assert(!eligible(*d)) by {
                    if eligible(*d) {
                        let j = choose|j: int|
                            is_first_graphics(d.queue_families@, j)
                                && d.queue_families@[j].supports_present;
                        lemma_first_graphics_unique(d.queue_families@, i as int, j);
                    }
                }
                None
            }
        },
    }
}

/// Queries the enumerated physical devices and returns the best match.
///
/// Filters out devices without a graphics-capable queue family, devices
/// missing the required device extensions, and devices whose chosen (first
/// graphics-capable) queue family cannot present to the target surface; then
/// picks the surviving device with the lowest device type rank, keeping the
/// earliest device among equally ranked ones. Fails with
/// `NoSuitableDeviceError` exactly when no device survives every filter.
pub fn get_physical_device(devices: &Vec<PhysicalDeviceInfo>) -> (r: Result<
    DeviceSelection,
    NoSuitableDeviceError,
>)
    requires
        forall|k: int|
            0 <= k < devices@.len() ==> (#[trigger] devices@[k]).queue_families@.len()
                <= u32::MAX as int,
    ensures
        match r {
            Ok(sel) => selection_valid(devices@, sel),
            Err(_) => forall|k: int| 0 <= k < devices@.len() ==> !eligible(#[trigger] devices@[k]),
        },
{
    let n = devices.len();
    let mut best: Option<DeviceSelection> = None;
    let mut best_rank: u32 = 0;
    let mut idx: usize = 0;
    while idx < n
        invariant
            n == devices@.len(),
            idx <= n,
            forall|k: int|
                0 <= k < devices@.len() ==> (#[trigger] devices@[k]).queue_families@.len()
                    <= u32::MAX as int,
            match best {
                Some(sel) => {
                    &&& sel.device_index < idx
                    &&& selection_valid(devices@.subrange(0, idx as int), sel)
                    &&& best_rank == devices@[sel.device_index as int].device_type.rank_spec()
                },
                None => forall|k: int| 0 <= k < idx ==> !eligible(#[trigger] devices@[k]),
            },
        decreases n - idx,
    {
        let d = &devices[idx];
        match check_candidate(d) {
            Some(fam) => {
                let rank = d.device_type.rank();
                let replace = match best {
                    None => true,
                    Some(_) => rank < best_rank,
                };
                if replace {
                    best = Some(DeviceSelection { device_index: idx, queue_family_index: fam });
                    best_rank = rank;
                }
            },
            None => {},
        }
        idx = idx + 1;
    }
    assert(devices@.subrange(0, n as int) =~= devices@);
    match best {
        Some(sel) => Ok(sel),
        None => Err(NoSuitableDeviceError),
    }
}

/// The selector never returns a device lacking graphics-queue support, the
/// required device extensions, or presentation support on the chosen queue
/// family: every selection that meets the selector's contract lies in the
/// filtered set.
pub proof fn lemma_selected_candidate_survives_filters(
    devices: Seq<PhysicalDeviceInfo>,
    sel: DeviceSelection,
)
    requires
        selection_valid(devices, sel),
    ensures
        eligible(devices[sel.device_index as int]),
        devices[sel.device_index as int].supports_required_extensions,
        has_graphics_family(devices[sel.device_index as int].queue_families@),
        devices[sel.device_index as int].queue_families@[sel.queue_family_index as int].supports_graphics,
        devices[sel.device_index as int].queue_families@[sel.queue_family_index as int].supports_present,
{
    assert(devices[sel.device_index as int].queue_families@[sel.queue_family_index as int].supports_graphics);
}

/// Device type ranking makes selection deterministic: two selections that
/// both meet the selector's contract over the same candidate list are the
/// same selection.
pub proof fn lemma_selection_deterministic(
    devices: Seq<PhysicalDeviceInfo>,
    a: DeviceSelection,
    b: DeviceSelection,
)
    requires
        selection_valid(devices, a),
        selection_valid(devices, b),
    ensures
        a == b,
{
    if a.device_index < b.device_index {
        assert(eligible(devices[a.device_index as int]));
        assert(devices[b.device_index as int].device_type.rank_spec()
            < devices[a.device_index as int].device_type.rank_spec());
        assert(devices[a.device_index as int].device_type.rank_spec()
            <= devices[b.device_index as int].device_type.rank_spec());
    }
    if b.device_index < a.device_index {
        assert(eligible(devices[b.device_index as int]));
        assert(devices[a.device_index as int].device_type.rank_spec()
            < devices[b.device_index as int].device_type.rank_spec());
        assert(devices[b.device_index as int].device_type.rank_spec()
            <= devices[a.device_index as int].device_type.rank_spec());
    }
    lemma_first_graphics_unique(
        devices[a.device_index as int].queue_families@,
        a.queue_family_index as int,
        b.queue_family_index as int,
    );
}

} // verus!
