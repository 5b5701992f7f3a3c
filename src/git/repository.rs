use vstd::prelude::*;

verus! {

/// The repository handle that the command-line front end drives; the work
/// on disk is done there.
#[derive(Debug)]
pub struct GitRepository;

impl GitRepository {
    pub fn new() -> (r: Self) {
        GitRepository
    }
}

} // verus!
