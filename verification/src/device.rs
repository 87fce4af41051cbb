//! Device-context planning: adapter and queue-family selection.
//!
//! At startup the engine enumerates physical adapters, takes the first
//! one, and opens a logical device on the first queue family of that
//! adapter that can both present to the bound surface and run graphics
//! work. Those two decisions are made here, over the plain capability
//! flags the driver queried; failing either one is an unrecoverable
//! configuration error.

use vstd::prelude::*;

verus! {

/// What a single queue family of the chosen adapter can do.
#[derive(Clone, Copy, Debug, PartialEq, Eq, Structural)]
pub struct QueueFamilySupport {
    /// The family can present to the bound surface.
    pub supports_surface: bool,
    /// The family declares graphics capability.
    pub supports_graphics: bool,
}

/// An unrecoverable startup condition: the process cannot proceed.
#[derive(Clone, Copy, Debug, PartialEq, Eq, Structural)]
pub enum InitError {
    /// No physical adapter was enumerated.
    NoAdapter,
    /// No queue family of the first adapter both presents to the surface
    /// and supports graphics.
    NoCompatibleQueueFamily,
}

/// The startup decisions: which adapter to open and on which of its
/// queue families.
#[derive(Clone, Copy, Debug, PartialEq, Eq, Structural)]
pub struct DevicePlan {
    /// Index into the enumerated adapter list; always the first.
    pub adapter_index: usize,
    /// Index of the chosen queue family of that adapter.
    pub queue_family_index: usize,
}

/// True if `f` satisfies both predicates the engine needs of its one
/// queue: presentation to the surface and graphics capability.
pub open spec fn family_compatible(f: QueueFamilySupport) -> bool {
    f.supports_surface && f.supports_graphics
}

/// True if some family before position `i0` is compatible.
pub open spec fn has_compatible_before(families: Seq<QueueFamilySupport>, i0: int) -> bool {
    exists|i: int| 0 <= i < i0 && family_compatible(families[i])
}

/// Finds the first queue family that both presents to the surface and
/// supports graphics, if any.
pub fn select_queue_family(families: &Vec<QueueFamilySupport>) -> (r: Option<usize>)
    ensures
        r matches Some(i) ==> {
            &&& i < families@.len()
            &&& family_compatible(families@[i as int])
            &&& !has_compatible_before(families@, i as int)
        },
        r is None <==> !has_compatible_before(families@, families@.len() as int),
{
    let n: usize = families.len();
    let mut i: usize = 0;
    while i < n
        invariant
            0 <= i <= n,
            n == families@.len(),
            !has_compatible_before(families@, i as int),
        decreases n - i,
    {
        let f = families[i];
        if f.supports_surface && f.supports_graphics {
            return Some(i);
        }
        i += 1;
    }
    None
}

/// Plans the device context from what the driver enumerated: the number
/// of physical adapters and the queue families of the first one.
///
/// Succeeds exactly when at least one adapter exists and the first
/// adapter has a compatible queue family; the plan then names adapter 0
/// and the first compatible family.
pub fn plan_device_setup(adapter_count: usize, families: &Vec<QueueFamilySupport>) -> (r: Result<
    DevicePlan,
    InitError,
>)
    ensures
        adapter_count == 0 ==> r == Result::<DevicePlan, InitError>::Err(InitError::NoAdapter),
        adapter_count > 0 && !has_compatible_before(families@, families@.len() as int) ==> r
            == Result::<DevicePlan, InitError>::Err(InitError::NoCompatibleQueueFamily),
        r matches Ok(plan) ==> {
            &&& adapter_count > 0
            &&& plan.adapter_index == 0
            &&& plan.queue_family_index < families@.len()
            &&& family_compatible(families@[plan.queue_family_index as int])
            &&& !has_compatible_before(families@, plan.queue_family_index as int)
        },
        r is Ok <==> adapter_count > 0 && has_compatible_before(
            families@,
            families@.len() as int,
        ),
{
    if adapter_count == 0 {
        return Err(InitError::NoAdapter);
    }
    match select_queue_family(families) {
        Some(i) => Ok(DevicePlan { adapter_index: 0, queue_family_index: i }),
        None => Err(InitError::NoCompatibleQueueFamily),
    }
}

} // verus!
