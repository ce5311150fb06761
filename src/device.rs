use vstd::prelude::*;

use crate::queue::QueueFamilyIndices;

verus! {

/// Splits a packed Vulkan version number into its variant, major, minor and patch fields.
pub fn get_version_api(api: u32) -> (r: (u32, u32, u32, u32))
    ensures
        r.0 == api >> 29u32,
        r.1 == api >> 22u32,
        r.2 == (api >> 12u32) & 0x3FFu32,
        r.3 == api & 0xFFu32,
{
    let variant = api >> 29u32;
    let major = api >> 22u32;
    let minor = (api >> 12u32) & 0x3FFu32;
    let patch = api & 0xFFu32;
    (variant, major, minor, patch)
}

/// Tells whether two names, as bytes, are the same.
pub fn names_equal(a: &Vec<u8>, b: &Vec<u8>) -> (r: bool)
    ensures
        r == (a@ == b@),
{
    if a.len() != b.len() {
        return false;
    }
    let mut i: usize = 0;
    while i < a.len()
        invariant
            a@.len() == b@.len(),
            0 <= i <= a@.len(),
            forall|j: int| 0 <= j < i ==> a@[j] == b@[j],
        decreases a@.len() - i,
    {
        if a[i] != b[i] {
            return false;
        }
        i = i + 1;
    }
    assert(a@ =~= b@);
    true
}

/// `names` holds `name`.
pub open spec fn has_name(names: Seq<Vec<u8>>, name: Seq<u8>) -> bool {
    exists|j: int| 0 <= j < names.len() && (#[trigger] names[j])@ == name
}

/// Tells whether `names` holds `name`; used for extension and layer names.
pub fn contains_name(names: &Vec<Vec<u8>>, name: &Vec<u8>) -> (r: bool)
    ensures
        r == has_name(names@, name@),
{
    let mut i: usize = 0;
    while i < names.len()
        invariant
            0 <= i <= names@.len(),
            forall|j: int| 0 <= j < i ==> (#[trigger] names@[j])@ != name@,
        decreases names@.len() - i,
    {
        if names_equal(&names[i], name) {
            return true;
        }
        i = i + 1;
    }
    false
}

/// Tells whether every required extension is among those the device offers.
pub fn device_extension_support(available: &Vec<Vec<u8>>, required: &Vec<Vec<u8>>) -> (r: bool)
    ensures
        r == forall|i: int| 0 <= i < required@.len() ==> has_name(available@, #[trigger] required@[i]@),
{
    let mut i: usize = 0;
    while i < required.len()
        invariant
            0 <= i <= required@.len(),
            forall|k: int| 0 <= k < i ==> has_name(available@, #[trigger] required@[k]@),
        decreases required@.len() - i,
    {
        if !contains_name(available, &required[i]) {
            return false;
        }
        i = i + 1;
    }
    true
}

/// Picks the first device that was found suitable; `None` when there is none.
pub fn pick_physical_device(suitable: &Vec<bool>) -> (r: Option<usize>)
    ensures
        r matches Some(i) ==> i < suitable@.len() && suitable@[i as int] && forall|j: int|
            0 <= j < i ==> !suitable@[j],
        r is None ==> forall|j: int| 0 <= j < suitable@.len() ==> !suitable@[j],
{
    let mut i: usize = 0;
    while i < suitable.len()
        invariant
            0 <= i <= suitable@.len(),
            forall|j: int| 0 <= j < i ==> !suitable@[j],
        decreases suitable@.len() - i,
    {
        if suitable[i] {
            return Some(i);
        }
        i = i + 1;
    }
    None
}

/// The distinct queue families that the logical device needs one queue from: the
/// graphics family, then the present family when it is another one.
pub fn unique_queue_families(queue_families: &QueueFamilyIndices) -> (r: Vec<u32>)
    requires
        queue_families.is_completed_spec(),
    ensures
        ({
            let g = queue_families.graphics_family->Some_0;
            let p = queue_families.present_family->Some_0;
            r@ == if g == p {
                seq![g]
            } else {
                seq![g, p]
            }
        }),
{
    let graphics = match queue_families.graphics_family {
        Some(g) => g,
        None => 0,
    };
    let present = match queue_families.present_family {
        Some(p) => p,
        None => 0,
    };
    if graphics == present {
        vec![graphics]
    } else {
        vec![graphics, present]
    }
}

} // verus!
