//! Deleting a provisioned project — the operation behind the cleanup
//! guarantee.

use vstd::prelude::*;

use crate::error::Error;

verus! {

/// The project-deletion operation of the platform.
pub struct Project;

impl Project {
    /// The deletion rule: the platform answers a delete request with a
    /// boolean, and `false` is a failure, surfaced as a cleanup error
    /// carrying the project id.
    pub fn interpret_delete(project_id: String, deleted: bool) -> (r: Result<(), Error>)
        ensures
            deleted ==> r is Ok,
            !deleted ==> r == Err::<(), Error>(Error::ProjectDelete(project_id)),
    {
        if deleted {
            Ok(())
        } else {
            Err(Error::ProjectDelete(project_id))
        }
    }
}

} // verus!
