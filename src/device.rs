//! Device selection: the first queue family that can both draw and present.

use vstd::prelude::*;

verus! {

/// Queue capability bit: the family accepts graphics commands.
pub const QUEUE_GRAPHICS: u32 = 0x1;

/// What a queue family offers, as reported for one physical device and the
/// target surface.
#[derive(Clone, Copy, Debug, PartialEq, Eq)]
pub struct QueueFamily {
    pub queue_flags: u32,
    /// The family can present to the target surface.
    pub surface_supported: bool,
}

/// The physical device and queue family chosen for drawing and presenting.
#[derive(Clone, Copy, Debug, PartialEq, Eq)]
pub struct QueueSelection {
    pub device_index: usize,
    pub queue_family_index: usize,
}

/// The family supports graphics commands and presentation to the surface.
pub open spec fn family_suitable(f: QueueFamily) -> bool {
    f.queue_flags & QUEUE_GRAPHICS == QUEUE_GRAPHICS && f.surface_supported
}

/// Some family of device `d` is suitable.
pub open spec fn device_suitable(families: Seq<QueueFamily>) -> bool {
    exists|q: int| 0 <= q < families.len() && #[trigger] family_suitable(families[q])
}

/// Returns the first suitable queue family of the first device that has one:
/// devices in order, and within a device its families in order. `None` when
/// no device has a family that can both draw and present.
pub fn select_queue_family(devices: &Vec<Vec<QueueFamily>>) -> (r: Option<QueueSelection>)
    ensures
        match r {
            Some(s) => {
                &&& s.device_index < devices@.len()
                &&& s.queue_family_index < devices@[s.device_index as int]@.len()
                &&& family_suitable(devices@[s.device_index as int]@[s.queue_family_index as int])
                &&& forall|d: int|
                    0 <= d < s.device_index ==> !device_suitable(#[trigger] devices@[d]@)
                &&& forall|q: int|
                    0 <= q < s.queue_family_index ==> !family_suitable(
                        #[trigger] devices@[s.device_index as int]@[q],
                    )
            },
            None => forall|d: int| 0 <= d < devices@.len() ==> !device_suitable(#[trigger] devices@[d]@),
        },
{
    let mut d: usize = 0;
    while d < devices.len()
        invariant
            d <= devices@.len(),
            forall|d2: int| 0 <= d2 < d ==> !device_suitable(#[trigger] devices@[d2]@),
        decreases devices.len() - d,
    {
        let families = &devices[d];
        let mut q: usize = 0;
        while q < families.len()
            invariant
                d < devices@.len(),
                *families == devices@[d as int],
                forall|d2: int| 0 <= d2 < d ==> !device_suitable(#[trigger] devices@[d2]@),
                q <= families@.len(),
                forall|q2: int| 0 <= q2 < q ==> !family_suitable(#[trigger] families@[q2]),
            decreases families.len() - q,
        {
            let f = families[q];
            if f.queue_flags & QUEUE_GRAPHICS == QUEUE_GRAPHICS && f.surface_supported {
                assert(family_suitable(devices@[d as int]@[q as int]));
                return Some(QueueSelection { device_index: d, queue_family_index: q });
            }
            q = q + 1;
        }
        d = d + 1;
    }
    None
}

} // verus!
