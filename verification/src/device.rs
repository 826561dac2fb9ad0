//! Choosing the queue family the engine renders and presents on.

use vstd::prelude::*;

verus! {

/// What the engine needs to know of one queue family the adapter offers.
#[derive(Clone, Copy, Debug, PartialEq, Eq, Structural)]
pub struct QueueFamilyInfo {
    /// Whether the display surface can present from this family.
    pub supports_surface: bool,
    /// Whether the family supports graphics work.
    pub supports_graphics: bool,
}

/// A family the engine can use: it must both present to the surface and run
/// the graphics pipeline.
pub open spec fn family_suitable(f: QueueFamilyInfo) -> bool {
    f.supports_surface && f.supports_graphics
}

/// Picks the first queue family that supports both the surface and
/// graphics; `None` exactly when no family does, which aborts engine
/// construction.
pub fn select_queue_family(families: &Vec<QueueFamilyInfo>) -> (r: Option<usize>)
    ensures
        match r {
            Some(i) => i < families@.len()
                && family_suitable(families@[i as int])
                && (forall|j: int| 0 <= j < i ==> !family_suitable(families@[j])),
            None => forall|j: int| 0 <= j < families@.len() ==> !family_suitable(families@[j]),
        },
{
    let n = families.len();
    let mut i: usize = 0;
    while i < n
        invariant
            n == families@.len(),
            0 <= i <= n,
            forall|j: int| 0 <= j < i ==> !family_suitable(families@[j]),
        decreases n - i,
    {
        let f = families[i];
        if f.supports_surface && f.supports_graphics {
            return Some(i);
        }
        i = i + 1;
    }
    None
}

} // verus!
