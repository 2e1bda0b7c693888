//! The HTTP methods a preview request can be made with.

use vstd::prelude::*;

verus! {

/// The method of the request that is replayed against the preview.
#[derive(Clone, Copy, Debug, PartialEq, Eq, Structural)]
pub enum HTTPMethod {
    Get,
    Post,
}

} // verus!
