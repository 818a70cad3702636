use vstd::prelude::*;
use crate::text::{decimal, decimal_of, from_chars};

verus! {

/// One entry of the stash list.
#[derive(Debug, Clone)]
pub struct StashEntry {
    pub index: usize,
    pub name: String,
    pub hash: String,
}

/// `stash@{<index>}`.
pub open spec fn stash_ref(index: usize) -> Seq<char> {
    "stash@{"@ + decimal(index as nat) + "}"@
}

/// The reference naming the stash entry at `index`.
pub fn stash_ref_of(index: usize) -> (r: String)
    ensures
        r@ == stash_ref(index),
{
    let mut r = String::from_str("stash@{");
    let d = from_chars(decimal_of(index).as_slice());
    r.append(d.as_str());
    r.append("}");
    r
}

impl StashEntry {
    /// `stash@{<index>}` for this entry.
    pub fn ref_name(&self) -> (r: String)
        ensures
            r@ == stash_ref(self.index),
    {
        stash_ref_of(self.index)
    }
}

} // verus!
