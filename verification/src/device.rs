//! Device bootstrap: ranking physical devices, picking the graphics+present
//! queue family, and the lazily created queue shared by every renderer on a
//! thread.

use vstd::prelude::*;
use crate::RenderError;

verus! {

/// Classification of a physical device, best first.
#[derive(Clone, Copy, PartialEq, Eq, Structural, Debug)]
pub enum DeviceClass {
    DiscreteGpu,
    IntegratedGpu,
    VirtualGpu,
    Cpu,
    Other,
}

/// Preference rank of a device class: lower is better.
pub open spec fn device_rank(c: DeviceClass) -> int {
    match c {
        DeviceClass::DiscreteGpu => 0,
        DeviceClass::IntegratedGpu => 1,
        DeviceClass::VirtualGpu => 2,
        DeviceClass::Cpu => 3,
        DeviceClass::Other => 4,
    }
}

fn class_rank(c: DeviceClass) -> (r: u8)
    ensures
        r == device_rank(c),
{
    match c {
        DeviceClass::DiscreteGpu => 0,
        DeviceClass::IntegratedGpu => 1,
        DeviceClass::VirtualGpu => 2,
        DeviceClass::Cpu => 3,
        DeviceClass::Other => 4,
    }
}

/// Capabilities of one queue family of a physical device.
#[derive(Clone, Copy, PartialEq, Eq, Structural, Debug)]
pub struct QueueFamilyInfo {
    /// The family supports graphics operations.
    pub graphics: bool,
    /// The family can present to the window's surface.
    pub present: bool,
}

/// What the bootstrap reads of one physical device.
pub struct DeviceInfo {
    pub class: DeviceClass,
    /// The device offers the swapchain extension.
    pub has_swapchain_extension: bool,
    pub queue_families: Vec<QueueFamilyInfo>,
}

/// A queue family qualifies when it can do graphics and present to the
/// surface.
pub open spec fn family_qualifies(q: QueueFamilyInfo) -> bool {
    q.graphics && q.present
}

/// Position `fam` is the first qualifying queue family of the listed set.
pub open spec fn is_first_qualifying_family(fams: Seq<QueueFamilyInfo>, fam: int) -> bool {
    &&& 0 <= fam < fams.len()
    &&& family_qualifies(fams[fam])
    &&& forall|j: int| 0 <= j < fam ==> !family_qualifies(#[trigger] fams[j])
}

/// A device is eligible when it offers the swapchain extension and some
/// queue family qualifies.
pub open spec fn device_eligible(d: DeviceInfo) -> bool {
    &&& d.has_swapchain_extension
    &&& exists|k: int|
        0 <= k < d.queue_families@.len() && family_qualifies(#[trigger] d.queue_families@[k])
}

/// Device `i` with queue family `fam` is the pair the bootstrap must pick:
/// `i` is eligible, `fam` is its first qualifying family, no eligible device
/// ranks better, and among equally ranked eligible devices `i` is the first
/// listed.
pub open spec fn is_selected_device(devs: Seq<DeviceInfo>, i: int, fam: int) -> bool {
    &&& 0 <= i < devs.len()
    &&& device_eligible(devs[i])
    &&& is_first_qualifying_family(devs[i].queue_families@, fam)
    &&& forall|j: int|
        0 <= j < devs.len() && device_eligible(#[trigger] devs[j]) ==> device_rank(devs[j].class)
            >= device_rank(devs[i].class)
    &&& forall|j: int|
        0 <= j < i && device_eligible(#[trigger] devs[j]) ==> device_rank(devs[j].class)
            > device_rank(devs[i].class)
}

/// The first queue family of `fams` that supports both graphics and
/// presentation, if any.
pub fn find_qualifying_family(fams: &Vec<QueueFamilyInfo>) -> (r: Option<usize>)
    ensures
        match r {
            Some(i) => is_first_qualifying_family(fams@, i as int),
            None => forall|j: int| 0 <= j < fams@.len() ==> !family_qualifies(#[trigger] fams@[j]),
        },
{
    let mut i: usize = 0;
    while i < fams.len()
        invariant
            i <= fams@.len(),
            forall|j: int| 0 <= j < i ==> !family_qualifies(#[trigger] fams@[j]),
        decreases fams@.len() - i,
    {
        let q = fams[i];
        if q.graphics && q.present {
            return Some(i);
        }
        i += 1;
    }
    None
}

/// Pick the physical device and queue family for the shared queue: among
/// devices that offer the swapchain extension and a graphics+present family,
/// the best-ranked device (the first listed on a tie), together with its
/// first qualifying family. Returns nothing only when no device is eligible.
pub fn select_device(devices: &Vec<DeviceInfo>) -> (r: Option<(usize, usize)>)
    ensures
        match r {
            Some(pick) => is_selected_device(devices@, pick.0 as int, pick.1 as int),
            None => forall|j: int|
                0 <= j < devices@.len() ==> !device_eligible(#[trigger] devices@[j]),
        },
{
    let mut best: Option<(usize, usize, u8)> = None;
    let mut idx: usize = 0;
    while idx < devices.len()
        invariant
            idx <= devices@.len(),
            match best {
                Some((b, fam, rk)) => {
                    &&& b < idx <= devices@.len()
                    &&& device_eligible(devices@[b as int])
                    &&& is_first_qualifying_family(devices@[b as int].queue_families@, fam as int)
                    &&& rk == device_rank(devices@[b as int].class)
                    &&& forall|j: int|
                        0 <= j < idx && device_eligible(#[trigger] devices@[j]) ==> device_rank(
                            devices@[j].class,
                        ) >= rk
                    &&& forall|j: int|
                        0 <= j < b && device_eligible(#[trigger] devices@[j]) ==> device_rank(
                            devices@[j].class,
                        ) > rk
                },
                None => forall|j: int|
                    0 <= j < idx ==> !device_eligible(#[trigger] devices@[j]),
            },
        decreases devices@.len() - idx,
    {
        let d = &devices[idx];
        if d.has_swapchain_extension {
            match find_qualifying_family(&d.queue_families) {
                Some(fam) => {
                    proof {
                        assert(device_eligible(devices@[idx as int]));
                    }
                    let rank = class_rank(d.class);
                    match best {
                        Some((_, _, rk)) => {
                            if rank < rk {
                                best = Some((idx, fam, rank));
                            }
                        },
                        None => {
                            best = Some((idx, fam, rank));
                        },
                    }
                },
                None => {
                    proof {
                        assert(!device_eligible(devices@[idx as int]));
                    }
                },
            }
        } else {
            proof {
                assert(!device_eligible(devices@[idx as int]));
            }
        }
        idx += 1;
    }
    match best {
        Some((b, fam, _)) => Some((b, fam)),
        None => None,
    }
}

/// Identity of the shared queue: which listed device and which of its queue
/// families it was created from.
#[derive(Clone, Copy, PartialEq, Eq, Structural, Debug)]
pub struct QueueHandle {
    pub device_index: usize,
    pub queue_family: usize,
}

/// Lazily initialized holder for the queue shared by every renderer of one
/// thread. Owned by the thread's execution context rather than being global
/// state.
pub struct QueueSlot {
    pub handle: Option<QueueHandle>,
}

impl QueueSlot {
    /// An empty slot: no device has been probed yet.
    pub fn new() -> (s: QueueSlot)
        ensures
            s.handle is None,
    {
        QueueSlot { handle: None }
    }

    /// Return the memoized shared queue, probing the listed devices only on
    /// the first call. Idempotent: once a handle exists, later calls return
    /// it unchanged without looking at the device list. Fails only when no
    /// device qualifies, a fatal startup condition.
    pub fn get_or_create(&mut self, devices: &Vec<DeviceInfo>) -> (r: Result<
        QueueHandle,
        RenderError,
    >)
        ensures
            old(self).handle matches Some(h) ==> r == Ok::<QueueHandle, RenderError>(h)
                && final(self).handle == old(self).handle,
            old(self).handle is None ==> match r {
                Ok(h) => is_selected_device(
                    devices@,
                    h.device_index as int,
                    h.queue_family as int,
                ) && final(self).handle == Some(h),
                Err(e) => {
                    &&& e == RenderError::NoSuitableDevice
                    &&& final(self).handle is None
                    &&& forall|j: int|
                        0 <= j < devices@.len() ==> !device_eligible(#[trigger] devices@[j])
                },
            },
    {
        match self.handle {
            Some(h) => Ok(h),
            None => {
                match select_device(devices) {
                    Some((device_index, queue_family)) => {
                        let h = QueueHandle { device_index, queue_family };
                        self.handle = Some(h);
                        Ok(h)
                    },
                    None => Err(RenderError::NoSuitableDevice),
                }
            },
        }
    }
}

} // verus!
