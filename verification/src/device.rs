//! Plain descriptions of physical devices and their queue families, and the
//! choice of the best suited queue family on one device.

use vstd::prelude::*;

verus! {

/// The kind of accelerator a physical device reports itself to be.
#[derive(Clone, Copy, PartialEq, Eq, Structural, Debug)]
pub enum DeviceType {
    DiscreteGpu,
    IntegratedGpu,
    VirtualGpu,
    Cpu,
    Other,
    Unknown,
}

impl DeviceType {
    /// Preference rank of a device type: lower is better. Discrete GPUs come
    /// first, then integrated, virtual, CPU-emulated; anything else last.
    pub open spec fn rank_spec(self) -> u32 {
        match self {
            DeviceType::DiscreteGpu => 0,
            DeviceType::IntegratedGpu => 1,
            DeviceType::VirtualGpu => 2,
            DeviceType::Cpu => 3,
            DeviceType::Other => 4,
            DeviceType::Unknown => 5,
        }
    }

    /// Preference rank of a device type: lower is better.
    pub fn rank(&self) -> (r: u32)
        ensures
            r == self.rank_spec(),
    {
        match self {
            DeviceType::DiscreteGpu => 0,
            DeviceType::IntegratedGpu => 1,
            DeviceType::VirtualGpu => 2,
            DeviceType::Cpu => 3,
            DeviceType::Other => 4,
            DeviceType::Unknown => 5,
        }
    }
}

/// What one queue family of a physical device can do, as far as this core
/// cares: whether it accepts graphics work, and whether it can present to the
/// surface the engine is being built for.
#[derive(Clone, Copy, PartialEq, Eq, Structural, Debug)]
pub struct QueueFamilyInfo {
    /// The family accepts graphics command buffers.
    pub supports_graphics: bool,
    /// The family can present to the target surface.
    pub supports_present: bool,
}

/// A physical device as seen by the selector: its reported type, whether it
/// offers the required device extensions (swapchain presentation support),
/// and its queue families in the order the driver reports them.
#[derive(Clone, Debug)]
pub struct PhysicalDeviceInfo {
    pub device_type: DeviceType,
    /// The device supports every required device extension.
    pub supports_required_extensions: bool,
    pub queue_families: Vec<QueueFamilyInfo>,
}

/// Some queue family of the device supports graphics.
pub open spec fn has_graphics_family(fams: Seq<QueueFamilyInfo>) -> bool {
    exists|j: int| 0 <= j < fams.len() && fams[j].supports_graphics
}

/// `i` is the first queue family index that supports graphics.
pub open spec fn is_first_graphics(fams: Seq<QueueFamilyInfo>, i: int) -> bool {
    &&& 0 <= i < fams.len()
    &&& fams[i].supports_graphics
    &&& forall|j: int| 0 <= j < i ==> !fams[j].supports_graphics
}

/// At most one index can be the first graphics-capable family.
pub proof fn lemma_first_graphics_unique(fams: Seq<QueueFamilyInfo>, i: int, j: int)
    requires
        is_first_graphics(fams, i),
        is_first_graphics(fams, j),
    ensures
        i == j,
{
}

/// Finds the best suited queue family of a device: the first family index
/// that supports graphics operations (first-match, not optimized for a
/// dedicated family), or `None` when no family supports graphics.
pub fn find_best_suited_queue_family(families: &Vec<QueueFamilyInfo>) -> (r: Option<u32>)
    requires
        families@.len() <= u32::MAX as int,
    ensures
        match r {
            Some(i) => is_first_graphics(families@, i as int),
            None => !has_graphics_family(families@),
        },
{
    let n = families.len();
    let mut idx: usize = 0;
    while idx < n
        invariant
            n == families@.len(),
            n <= u32::MAX as int,
            idx <= n,
            forall|j: int| 0 <= j < idx ==> !families@[j].supports_graphics,
        decreases n - idx,
    {
        if families[idx].supports_graphics {
            return Some(idx as u32);
        }
        idx = idx + 1;
    }
    None
}

} // verus!
