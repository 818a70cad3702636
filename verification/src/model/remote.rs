use vstd::prelude::*;

verus! {

/// A configured remote and the branches it holds.
#[derive(Debug, Clone)]
pub struct Remote {
    pub name: String,
    pub urls: Vec<String>,
    pub branches: Vec<RemoteBranch>,
}

/// A branch of a remote.
#[derive(Debug, Clone)]
pub struct RemoteBranch {
    pub name: String,
    pub remote_name: String,
    pub hash: String,
}

impl RemoteBranch {
    /// `<remote>/<branch>`.
    pub fn full_name(&self) -> (r: String)
        ensures
            r@ == self.remote_name@ + "/"@ + self.name@,
    {
        let mut r = self.remote_name.clone();
        r.append("/");
        r.append(self.name.as_str());
        r
    }
}

} // verus!
