//! The static resource directory, served beside the blog.  Serving files is
//! pure I/O and stays with the embedding application; this module only
//! supplies the handle under which the application installs that route.

use vstd::prelude::*;

verus! {

/// Handle under which the embedding application installs the static
/// resource route.
pub struct ResourcesFairing;

/// The static resource component, ready to attach.
pub fn fairing() -> (r: ResourcesFairing)
    ensures
        r == ResourcesFairing,
{
    ResourcesFairing
}

} // verus!
