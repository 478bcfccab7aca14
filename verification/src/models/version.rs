use vstd::prelude::*;

verus! {

#[derive(Debug)]
pub struct VersionResponse {
    version: String,
}

} // verus!
