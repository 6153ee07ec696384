//! The repository a session works in.

use vstd::prelude::*;

verus! {

pub struct GitManager {
    repo_path: String,
}

impl GitManager {
    pub closed spec fn view(&self) -> Seq<char> {
        self.repo_path@
    }

    pub fn new(path: &str) -> (r: GitManager)
        ensures
            r.view() == path@,
    {
        GitManager { repo_path: String::from_str(path) }
    }

    /// The repository's path.
    pub fn repo_path(&self) -> (r: &str)
        ensures
            r@ == self.view(),
    {
        self.repo_path.as_str()
    }
}

} // verus!
