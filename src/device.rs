//! Choice of the physical device and queue family that compute and present.
use vstd::prelude::*;

verus! {

/// What a queue family of a physical device supports.
#[derive(Clone, Copy, Debug, PartialEq, Eq, Structural)]
pub struct QueueFamilySupport {
    /// The family runs compute work.
    pub compute: bool,
    /// The family can present to the window's surface.
    pub present: bool,
}

/// Whether a family can run the renderer: compute and present both.
pub open spec fn usable(f: QueueFamilySupport) -> bool {
    f.compute && f.present
}

/// Whether some family of a device is usable.
pub open spec fn has_usable(families: Seq<QueueFamilySupport>) -> bool {
    exists|j: int| 0 <= j < families.len() && usable(families[j])
}

/// Picks the first device, in the order reported, with a usable queue
/// family, and its first usable family: `(device, family)`. `None` when no
/// device has one.
pub fn select_queue_family(devices: &Vec<Vec<QueueFamilySupport>>) -> (r: Option<
    (usize, usize),
>)
    ensures
        r is None <==> forall|d: int| 0 <= d < devices@.len() ==> !has_usable(devices@[d]@),
        r matches Some((d, q)) ==> {
            &&& d < devices@.len()
            &&& q < devices@[d as int]@.len()
            &&& usable(devices@[d as int]@[q as int])
            &&& forall|e: int| 0 <= e < d ==> !has_usable(devices@[e]@)
            &&& forall|p: int| 0 <= p < q ==> !usable(devices@[d as int]@[p])
        },
{
    let mut d: usize = 0;
    while d < devices.len()
        invariant
            d <= devices@.len(),
            forall|e: int| 0 <= e < d ==> !has_usable(devices@[e]@),
        decreases devices@.len() - d,
    {
        let families = &devices[d];
        let mut q: usize = 0;
        while q < families.len()
            invariant
                d < devices@.len(),
                forall|e: int| 0 <= e < d ==> !has_usable(devices@[e]@),
                families@ == devices@[d as int]@,
                q <= families@.len(),
                forall|p: int| 0 <= p < q ==> !usable(families@[p]),
            decreases families@.len() - q,
        {
            if families[q].compute && families[q].present {
                assert(has_usable(devices@[d as int]@));
                return Some((d, q));
            }
            q = q + 1;
        }
        d = d + 1;
    }
    None
}

} // verus!
