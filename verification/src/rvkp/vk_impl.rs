//! Choices made while the device is set up: which physical device and queue
//! family to use, and how many surface images to ask for.

use vstd::prelude::*;

verus! {

/// The kind of a physical device.
#[derive(Clone, Copy, Debug, PartialEq, Eq, Structural)]
pub enum DeviceKind {
    DiscreteGpu,
    IntegratedGpu,
    VirtualGpu,
    Cpu,
    Other,
    /// A kind that this library does not know.
    Unknown,
}

/// What the choice reads of one queue family.
#[derive(Clone, Copy, Debug, PartialEq, Eq, Structural)]
pub struct QueueFamily {
    /// The family takes graphics commands.
    pub graphics: bool,
    /// The family can present to the surface.
    pub presents: bool,
}

/// What the choice reads of one physical device.
pub struct DeviceInfo {
    pub kind: DeviceKind,
    /// The device supports the swapchain extension.
    pub swapchain: bool,
    /// The queue families of the device, in the device's own order.
    pub queue_families: Vec<QueueFamily>,
}

/// Preference among device kinds: the lower, the better.
pub open spec fn rank(kind: DeviceKind) -> int {
    match kind {
        DeviceKind::DiscreteGpu => 0,
        DeviceKind::IntegratedGpu => 1,
        DeviceKind::VirtualGpu => 2,
        DeviceKind::Cpu => 3,
        DeviceKind::Other => 4,
        DeviceKind::Unknown => 5,
    }
}

/// A family that can both draw and present.
pub open spec fn usable(family: QueueFamily) -> bool {
    family.graphics && family.presents
}

/// Whether `q` is the first usable family of `families`.
pub open spec fn is_first_usable(families: Seq<QueueFamily>, q: int) -> bool {
    &&& 0 <= q < families.len()
    &&& usable(families[q])
    &&& forall|j: int| 0 <= j < q ==> !usable(#[trigger] families[j])
}

/// A device that can be used: it has the swapchain extension and a usable
/// queue family.
pub open spec fn suitable(device: DeviceInfo) -> bool {
    device.swapchain && exists|q: int|
        0 <= q < device.queue_families@.len() && usable(#[trigger] device.queue_families@[q])
}

/// The number of surface images to ask for: what the surface needs at the
/// least, and never fewer than two.
pub fn min_image_count(surface_min: u32) -> (count: u32)
    ensures
        count == if surface_min >= 2 {
            surface_min
        } else {
            2
        },
{
    if surface_min >= 2 {
        surface_min
    } else {
        2
    }
}

/// The preference of a device kind as a number.
pub fn device_rank(kind: DeviceKind) -> (r: u8)
    ensures
        r == rank(kind),
{
    match kind {
        DeviceKind::DiscreteGpu => 0,
        DeviceKind::IntegratedGpu => 1,
        DeviceKind::VirtualGpu => 2,
        DeviceKind::Cpu => 3,
        DeviceKind::Other => 4,
        DeviceKind::Unknown => 5,
    }
}

/// The first queue family that can both draw and present, if there is one.
pub fn first_usable_family(families: &Vec<QueueFamily>) -> (r: Option<usize>)
    ensures
        match r {
            Some(q) => is_first_usable(families@, q as int),
            None => forall|j: int| 0 <= j < families.len() ==> !usable(#[trigger] families[j]),
        },
{
    let mut q: usize = 0;
    while q < families.len()
        invariant
            q <= families.len(),
            forall|j: int| 0 <= j < q ==> !usable(#[trigger] families[j]),
        decreases families.len() - q,
    {
        if families[q].graphics && families[q].presents {
            return Some(q);
        }
        q += 1;
    }
    None
}

/// Chooses the device to render with: among the suitable devices the one of
/// the best kind, and among several of that kind the first. The answer names
/// the device and its first usable queue family; there is none if no device
/// is suitable.
pub fn select_device(devices: &Vec<DeviceInfo>) -> (r: Option<(usize, usize)>)
    ensures
        match r {
            Some((d, q)) => {
                &&& d < devices.len()
                &&& devices[d as int].swapchain
                &&& is_first_usable(devices[d as int].queue_families@, q as int)
                &&& forall|j: int|
                    0 <= j < devices.len() && suitable(#[trigger] devices[j]) ==> rank(
                        devices[d as int].kind,
                    ) <= rank(devices[j].kind)
                &&& forall|j: int|
                    0 <= j < d && suitable(#[trigger] devices[j]) ==> rank(devices[d as int].kind)
                        < rank(devices[j].kind)
            },
            None => forall|j: int| 0 <= j < devices.len() ==> !suitable(#[trigger] devices[j]),
        },
{
    let mut best: Option<(usize, usize)> = None;
    let mut best_rank: u8 = 0;
    let mut i: usize = 0;
    while i < devices.len()
        invariant
            i <= devices.len(),
            match best {
                Some((d, q)) => {
                    &&& d < i
                    &&& devices[d as int].swapchain
                    &&& is_first_usable(devices[d as int].queue_families@, q as int)
                    &&& best_rank == rank(devices[d as int].kind)
                    &&& forall|j: int|
                        0 <= j < i && suitable(#[trigger] devices[j]) ==> rank(
                            devices[d as int].kind,
                        ) <= rank(devices[j].kind)
                    &&& forall|j: int|
                        0 <= j < d && suitable(#[trigger] devices[j]) ==> rank(
                            devices[d as int].kind,
                        ) < rank(devices[j].kind)
                },
                None => forall|j: int| 0 <= j < i ==> !suitable(#[trigger] devices[j]),
            },
        decreases devices.len() - i,
    {
        let device = &devices[i];
        if device.swapchain {
            match first_usable_family(&device.queue_families) {
                Some(q) => {
                    let r: u8 = device_rank(device.kind);
                    match best {
                        Some(_) => {
                            if r < best_rank {
                                best = Some((i, q));
                                best_rank = r;
                            }
                        },
                        None => {
                            best = Some((i, q));
                            best_rank = r;
                        },
                    }
                },
                None => {},
            }
        }
        i += 1;
    }
    best
}

} // verus!
