//! The device context's selection policy.
//!
//! The instance enumerates the physical devices; the unverified shell
//! reduces each to the plain facts the policy reads: its kind, whether
//! it offers the swapchain extension, and for each queue family whether
//! it can draw and whether it can present to the bound surface. The
//! policy itself is verified: it is deterministic, prefers discrete
//! over integrated over virtual over CPU devices, and within a device
//! picks the first queue family that can both draw and present.

use vstd::prelude::*;

verus! {

/// The kind of a physical device, as the driver reports it.
#[derive(Clone, Copy, Debug, PartialEq, Eq, Structural)]
pub enum DeviceKind {
    Discrete,
    Integrated,
    Virtual,
    Cpu,
    Other,
}

/// One queue family of a physical device: whether it supports graphics
/// operations, and whether it can present to the bound surface.
#[derive(Clone, Copy, Debug, PartialEq, Eq, Structural)]
pub struct QueueFamily {
    pub graphics: bool,
    pub present: bool,
}

/// The facts the selection policy reads about one physical device.
pub struct DeviceInfo {
    pub kind: DeviceKind,
    pub supports_swapchain: bool,
    pub queue_families: Vec<QueueFamily>,
}

/// The preference rank of a device kind; lower is better.
pub open spec fn spec_rank(kind: DeviceKind) -> int {
    match kind {
        DeviceKind::Discrete => 0,
        DeviceKind::Integrated => 1,
        DeviceKind::Virtual => 2,
        DeviceKind::Cpu => 3,
        DeviceKind::Other => 4,
    }
}

/// Whether a queue family can serve the whole frame loop: graphics
/// work and presentation on the same queue.
pub open spec fn spec_family_usable(f: QueueFamily) -> bool {
    f.graphics && f.present
}

/// Whether a device can be selected at all: it offers the swapchain
/// extension and has a usable queue family.
pub open spec fn spec_eligible(d: DeviceInfo) -> bool {
    d.supports_swapchain && exists|i: int|
        0 <= i < d.queue_families@.len() && spec_family_usable(d.queue_families@[i])
}

/// Computes the preference rank of a device kind.
pub fn rank(kind: DeviceKind) -> (r: u32)
    ensures
        r == spec_rank(kind),
{
    match kind {
        DeviceKind::Discrete => 0,
        DeviceKind::Integrated => 1,
        DeviceKind::Virtual => 2,
        DeviceKind::Cpu => 3,
        DeviceKind::Other => 4,
    }
}

/// Finds the first queue family of a device that can both draw and
/// present; `None` when no family can.
pub fn pick_queue_family(families: &Vec<QueueFamily>) -> (r: Option<usize>)
    ensures
        match r {
            Some(i) => {
                &&& i < families@.len()
                &&& spec_family_usable(families@[i as int])
                &&& forall|j: int| 0 <= j < i ==> !spec_family_usable(families@[j])
            },
            None => forall|j: int| 0 <= j < families@.len() ==> !spec_family_usable(families@[j]),
        },
{
    let mut i: usize = 0;
    while i < families.len()
        invariant
            i <= families@.len(),
            forall|j: int| 0 <= j < i ==> !spec_family_usable(families@[j]),
        decreases families@.len() - i,
    {
        if families[i].graphics && families[i].present {
            return Some(i);
        }
        i = i + 1;
    }
    None
}

/// Selects the physical device and queue family the toolset builds
/// on. Among the eligible devices (swapchain extension present and a
/// usable queue family available) it returns the first one of the best
/// kind rank, together with that device's first usable family; `None`
/// exactly when no device is eligible.
pub fn select_physical_device(devices: &Vec<DeviceInfo>) -> (r: Option<(usize, usize)>)
    ensures
        match r {
            Some((d, q)) => {
                &&& d < devices@.len()
                &&& spec_eligible(devices@[d as int])
                &&& forall|j: int|
                    0 <= j < devices@.len() && spec_eligible(#[trigger] devices@[j]) ==> spec_rank(
                        devices@[d as int].kind,
                    ) <= spec_rank(devices@[j].kind)
                &&& forall|j: int|
                    0 <= j < d && spec_eligible(#[trigger] devices@[j]) ==> spec_rank(
                        devices@[d as int].kind,
                    ) < spec_rank(devices@[j].kind)
                &&& q < devices@[d as int].queue_families@.len()
                &&& spec_family_usable(devices@[d as int].queue_families@[q as int])
                &&& forall|j: int|
                    0 <= j < q ==> !spec_family_usable(devices@[d as int].queue_families@[j])
            },
            None => forall|j: int|
                0 <= j < devices@.len() ==> !spec_eligible(#[trigger] devices@[j]),
        },
{
    let mut best: Option<(usize, usize)> = None;
    let mut best_rank: u32 = 0;
    let mut i: usize = 0;
    while i < devices.len()
        invariant
            i <= devices@.len(),
            match best {
                Some((d, q)) => {
                    &&& d < i
                    &&& spec_eligible(devices@[d as int])
                    &&& best_rank == spec_rank(devices@[d as int].kind)
                    &&& forall|j: int|
                        0 <= j < i && spec_eligible(#[trigger] devices@[j]) ==> best_rank
                            <= spec_rank(devices@[j].kind)
                    &&& forall|j: int|
                        0 <= j < d && spec_eligible(#[trigger] devices@[j]) ==> best_rank
                            < spec_rank(devices@[j].kind)
                    &&& q < devices@[d as int].queue_families@.len()
                    &&& spec_family_usable(devices@[d as int].queue_families@[q as int])
                    &&& forall|j: int|
                        0 <= j < q ==> !spec_family_usable(devices@[d as int].queue_families@[j])
                },
                None => forall|j: int| 0 <= j < i ==> !spec_eligible(#[trigger] devices@[j]),
            },
        decreases devices@.len() - i,
    {
        if devices[i].supports_swapchain {
            match pick_queue_family(&devices[i].queue_families) {
                Some(q) => {
                    let r = rank(devices[i].kind);
                    let better = match best {
                        Some(_) => r < best_rank,
                        None => true,
                    };
                    proof {
                        assert(spec_eligible(devices@[i as int]));
                    }
                    if better {
                        best = Some((i, q));
                        best_rank = r;
                    }
                },
                None => {},
            }
        }
        i = i + 1;
    }
    best
}

} // verus!
