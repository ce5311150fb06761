use vstd::prelude::*;

use crate::constant::QUEUE_GRAPHICS_BIT;
use crate::queue::{supports_graphics, QueueFamily};

verus! {

/// A resolved pair of queue families: one for graphics work, one for presentation.
#[derive(Clone, Copy, Debug, PartialEq, Eq, Structural)]
pub struct QueueFamilyIndices {
    pub graphics: u32,
    pub present: u32,
}

/// Why a device cannot be used.
#[derive(Clone, Copy, Debug, PartialEq, Eq, Structural)]
pub enum SuitabilityError {
    /// The device lacks a graphics family or a family that can present.
    MissingQueueFamilies,
}

/// `i` is the first family that runs graphics work.
pub open spec fn is_first_graphics(families: Seq<QueueFamily>, i: int) -> bool {
    0 <= i < families.len() && supports_graphics(families[i]) && forall|j: int|
        0 <= j < i ==> !supports_graphics(families[j])
}

/// `i` is the first family that can present to the surface.
pub open spec fn is_first_present(surface_support: Seq<bool>, i: int) -> bool {
    0 <= i < surface_support.len() && surface_support[i] && forall|j: int|
        0 <= j < i ==> !surface_support[j]
}

fn first_graphics(families: &Vec<QueueFamily>) -> (r: Option<u32>)
    requires
        families@.len() <= u32::MAX,
    ensures
        r matches Some(g) ==> is_first_graphics(families@, g as int),
        r is None ==> forall|j: int| 0 <= j < families@.len() ==> !supports_graphics(families@[j]),
{
    let mut i: usize = 0;
    while i < families.len()
        invariant
            families@.len() <= u32::MAX,
            0 <= i <= families@.len(),
            forall|j: int| 0 <= j < i ==> !supports_graphics(families@[j]),
        decreases families@.len() - i,
    {
        if families[i].queue_flags & QUEUE_GRAPHICS_BIT != 0 {
            return Some(i as u32);
        }
        i = i + 1;
    }
    None
}

fn first_present(surface_support: &Vec<bool>) -> (r: Option<u32>)
    requires
        surface_support@.len() <= u32::MAX,
    ensures
        r matches Some(p) ==> is_first_present(surface_support@, p as int),
        r is None ==> forall|j: int| 0 <= j < surface_support@.len() ==> !surface_support@[j],
{
    let mut i: usize = 0;
    while i < surface_support.len()
        invariant
            surface_support@.len() <= u32::MAX,
            0 <= i <= surface_support@.len(),
            forall|j: int| 0 <= j < i ==> !surface_support@[j],
        decreases surface_support@.len() - i,
    {
        if surface_support[i] {
            return Some(i as u32);
        }
        i = i + 1;
    }
    None
}

impl QueueFamilyIndices {
    /// Takes the first graphics family and the first family that can present;
    /// `surface_support[i]` tells whether family `i` can present to the surface.
    pub fn get(families: &Vec<QueueFamily>, surface_support: &Vec<bool>) -> (r: Result<
        QueueFamilyIndices,
        SuitabilityError,
    >)
        requires
            families@.len() == surface_support@.len(),
            families@.len() <= u32::MAX,
        ensures
            r is Ok <==> (exists|i: int| 0 <= i < families@.len() && #[trigger] supports_graphics(families@[i]))
                && (exists|i: int| 0 <= i < surface_support@.len() && #[trigger] surface_support@[i]),
            r matches Ok(q) ==> is_first_graphics(families@, q.graphics as int) && is_first_present(
                surface_support@,
                q.present as int,
            ),
    {
        let graphics = first_graphics(families);
        let present = first_present(surface_support);
        match (graphics, present) {
            (Some(g), Some(p)) => Ok(QueueFamilyIndices { graphics: g, present: p }),
            _ => Err(SuitabilityError::MissingQueueFamilies),
        }
    }
}

} // verus!
