use vstd::prelude::*;

use crate::constant::QUEUE_GRAPHICS_BIT;

verus! {

/// What a device reports about one of its queue families.
#[derive(Clone, Copy, Debug, PartialEq, Eq, Structural)]
pub struct QueueFamily {
    pub queue_flags: u32,
    pub queue_count: u32,
}

/// The queue families found so far for graphics work and for presentation.
#[derive(Clone, Copy, Debug, PartialEq, Eq, Structural)]
pub struct QueueFamilyIndices {
    pub graphics_family: Option<u32>,
    pub present_family: Option<u32>,
}

/// Why a device offers no usable pair of queue families.
#[derive(Clone, Copy, Debug, PartialEq, Eq, Structural)]
pub enum QueueFamilyError {
    /// No prefix of the family list holds both a graphics family and a present family.
    NotSupported,
}

/// The family can run graphics work.
pub open spec fn supports_graphics(family: QueueFamily) -> bool {
    family.queue_flags & QUEUE_GRAPHICS_BIT != 0
}

/// The family has queues and can present to the surface.
pub open spec fn supports_present(family: QueueFamily, surface_support: bool) -> bool {
    family.queue_count > 0 && surface_support
}

/// The indices after looking at the first `n` families: each of the two is the last
/// index among them that qualifies.
pub open spec fn scan_families(
    families: Seq<QueueFamily>,
    surface_support: Seq<bool>,
    n: nat,
) -> QueueFamilyIndices
    decreases n,
{
    if n == 0 {
        QueueFamilyIndices { graphics_family: None, present_family: None }
    } else {
        let prev = scan_families(families, surface_support, (n - 1) as nat);
        let i = n - 1;
        QueueFamilyIndices {
            graphics_family: if supports_graphics(families[i]) {
                Some(i as u32)
            } else {
                prev.graphics_family
            },
            present_family: if supports_present(families[i], surface_support[i]) {
                Some(i as u32)
            } else {
                prev.present_family
            },
        }
    }
}

/// Once both families are found, looking at more families never loses either.
proof fn lemma_scan_completed_stays(
    families: Seq<QueueFamily>,
    surface_support: Seq<bool>,
    k: nat,
    n: nat,
)
    requires
        k <= n,
        scan_families(families, surface_support, k).is_completed_spec(),
    ensures
        scan_families(families, surface_support, n).is_completed_spec(),
    decreases n,
{
    if n > k {
        lemma_scan_completed_stays(families, surface_support, k, (n - 1) as nat);
    }
}

impl QueueFamilyIndices {
    /// Both a graphics family and a present family have been found.
    pub open spec fn is_completed_spec(&self) -> bool {
        self.graphics_family is Some && self.present_family is Some
    }

    /// Tells whether both a graphics family and a present family have been found.
    pub fn is_completed(&self) -> (r: bool)
        ensures
            r == self.is_completed_spec(),
    {
        self.graphics_family.is_some() && self.present_family.is_some()
    }

    /// Looks at the families in order and stops at the first one after which both a
    /// graphics family and a present family have been seen; each index is the last
    /// qualifying one up to there. `surface_support[i]` tells whether family `i` can
    /// present to the surface.
    pub fn find_queue_family(families: &Vec<QueueFamily>, surface_support: &Vec<bool>) -> (r:
        Result<QueueFamilyIndices, QueueFamilyError>)
        requires
            families@.len() == surface_support@.len(),
            families@.len() <= u32::MAX,
        ensures
            r is Err <==> !scan_families(families@, surface_support@, families@.len() as nat).is_completed_spec(),
            r matches Ok(q) ==> exists|k: nat|
                #![trigger scan_families(families@, surface_support@, k)]
                {
                    &&& 0 < k <= families@.len()
                    &&& q == scan_families(families@, surface_support@, k)
                    &&& q.is_completed_spec()
                    &&& forall|j: nat|
                        j < k ==> !(#[trigger] scan_families(
                            families@,
                            surface_support@,
                            j,
                        )).is_completed_spec()
                },
    {
        let mut found = QueueFamilyIndices { graphics_family: None, present_family: None };
        let mut index: usize = 0;
        while index < families.len()
            invariant
                families@.len() == surface_support@.len(),
                families@.len() <= u32::MAX,
                0 <= index <= families@.len(),
                found == scan_families(families@, surface_support@, index as nat),
                forall|j: nat|
                    j <= index ==> !(#[trigger] scan_families(
                        families@,
                        surface_support@,
                        j,
                    )).is_completed_spec(),
            decreases families@.len() - index,
        {
            let family = families[index];
            if family.queue_flags & QUEUE_GRAPHICS_BIT != 0 {
                found.graphics_family = Some(index as u32);
            }
            if family.queue_count > 0 && surface_support[index] {
                found.present_family = Some(index as u32);
            }
            assert(found == scan_families(families@, surface_support@, (index + 1) as nat));
            if found.is_completed() {
                proof {
                    lemma_scan_completed_stays(
                        families@,
                        surface_support@,
                        (index + 1) as nat,
                        families@.len() as nat,
                    );
                }
                return Ok(found);
            }
            index = index + 1;
        }
        Err(QueueFamilyError::NotSupported)
    }
}

} // verus!
