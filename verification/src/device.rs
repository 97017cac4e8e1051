//! Capture device resolution: a requested interface name must match one of
//! the enumerated device names exactly; the first such device is the one to
//! open.

use vstd::prelude::*;

verus! {

/// Find the first device whose name equals the requested interface name
/// exactly. `None` means the requested interface is not in the list, which
/// is fatal at startup.
pub fn find_device(names: &Vec<String>, requested: &String) -> (r: Option<usize>)
    ensures
        r matches Some(i) ==> i < names@.len() && names@[i as int]@ == requested@ && (forall|
            j: int,
        |
            0 <= j < i ==> names@[j]@ != requested@),
        r is None ==> forall|j: int| 0 <= j < names@.len() ==> names@[j]@ != requested@,
{
    let n = names.len();
    let mut i: usize = 0;
    while i < n
        invariant
            0 <= i <= n,
            n == names@.len(),
            forall|j: int| 0 <= j < i ==> names@[j]@ != requested@,
        decreases n - i,
    {
        if names[i].eq(requested) {
            return Some(i);
        }
        i = i + 1;
    }
    None
}

} // verus!
