use vstd::prelude::*;

verus! {

/// The bytes of a fixed-size, NUL-terminated name field up to its first NUL, or all of
/// them when it holds none.
pub fn name_bytes(raw: &Vec<u8>) -> (r: Vec<u8>)
    ensures
        r@.len() <= raw@.len(),
        r@ == raw@.subrange(0, r@.len() as int),
        forall|i: int| 0 <= i < r@.len() ==> r@[i] != 0,
        r@.len() < raw@.len() ==> raw@[r@.len() as int] == 0,
{
    let mut r: Vec<u8> = Vec::new();
    let mut i: usize = 0;
    while i < raw.len()
        invariant
            0 <= i <= raw@.len(),
            r@ == raw@.subrange(0, i as int),
            forall|k: int| 0 <= k < i ==> raw@[k] != 0,
        decreases raw@.len() - i,
    {
        if raw[i] == 0 {
            return r;
        }
        r.push(raw[i]);
        i = i + 1;
    }
    r
}

} // verus!
