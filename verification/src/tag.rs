//! Tags: the categories that items are filed under.

use vstd::prelude::*;

verus! {

/// A category; an item names its tag by `id`.
#[derive(Debug, PartialEq, Eq)]
pub struct Tag {
    pub id: u64,
    pub name: String,
}

/// Whether `name` is one of `names`.
pub open spec fn named(names: Seq<String>, name: Seq<char>) -> bool {
    exists|i: int| 0 <= i < names.len() && (#[trigger] names[i])@ == name
}

/// Whether `name` is one of `names`.
pub fn has_name(names: &Vec<String>, name: &String) -> (has: bool)
    ensures
        has == named(names@, name@),
{
    let mut i: usize = 0;
    while i < names.len()
        invariant
            i <= names.len(),
            forall|k: int| 0 <= k < i ==> (#[trigger] names@[k])@ != name@,
        decreases names.len() - i,
    {
        if names[i] == *name {
            return true;
        }
        i = i + 1;
    }
    false
}

} // verus!
