use vstd::prelude::*;

verus! {

/// Where a commit stands relative to the upstream.
#[derive(Debug, Clone, Copy, PartialEq, Eq, Structural)]
pub enum CommitStatus {
    Unset,
    Unpushed,
    Pushed,
    Merged,
    Rebasing,
    Conflicted,
    Reflog,
}

/// Side of a divergence view a commit belongs to.
#[derive(Debug, Clone, Copy, PartialEq, Eq, Structural)]
pub enum Divergence {
    Neither,
    Left,
    Right,
}

/// A commit as the log lists it.
#[derive(Debug, Clone)]
pub struct Commit {
    pub hash: String,
    pub name: String,
    pub status: CommitStatus,
    pub action: String,
    pub tags: Vec<String>,
    pub extra_info: String,
    pub author_name: String,
    pub author_email: String,
    pub unix_timestamp: i64,
    pub parents: Vec<String>,
    pub divergence: Divergence,
}

/// The first seven characters of a hash (all of it when shorter).
pub open spec fn short_hash_spec(h: Seq<char>) -> Seq<char> {
    if h.len() <= 7 {
        h
    } else {
        h.take(7)
    }
}

impl Commit {
    /// Abbreviated hash for display.
    pub fn short_hash(&self) -> (r: String)
        ensures
            r@ == short_hash_spec(self.hash@),
    {
        let v = crate::text::to_chars(self.hash.as_str());
        if v.len() <= 7 {
            assert(v@ =~= short_hash_spec(self.hash@));
            crate::text::from_chars(v.as_slice())
        } else {
            let p = crate::text::slice_vec(&v, 0, 7);
            assert(p@ =~= short_hash_spec(self.hash@));
            crate::text::from_chars(p.as_slice())
        }
    }
}

} // verus!
