//! Picking a render driver by name from the list the windowing system
//! offers.

use vstd::prelude::*;

verus! {

/// Whether `names[i]` is called `wanted` and no earlier name is.
pub open spec fn is_first_named(names: Seq<String>, wanted: Seq<char>, i: int) -> bool {
    &&& 0 <= i < names.len()
    &&& names[i]@ == wanted
    &&& forall|j: int| 0 <= j < i ==> names[j]@ != wanted
}

/// The index of the first driver called `wanted`, or `None` when there is no
/// driver of that name.
pub fn find_driver(names: &Vec<String>, wanted: &str) -> (found: Option<usize>)
    ensures
        match found {
            Some(i) => is_first_named(names@, wanted@, i as int),
            None => forall|j: int| 0 <= j < names.len() ==> names[j]@ != wanted@,
        },
{
    let target = wanted.to_owned();
    let mut index: usize = 0;
    while index < names.len()
        invariant
            index <= names.len(),
            target@ == wanted@,
            forall|j: int| 0 <= j < index ==> names[j]@ != wanted@,
        decreases names.len() - index,
    {
        if names[index] == target {
            return Some(index);
        }
        index = index + 1;
    }
    None
}

} // verus!
