//! Paths to files, carried and never looked into.
use std::path::PathBuf;
use vstd::prelude::*;

verus! {

/// An owned path of the standard library.
#[verifier::external_type_specification]
#[verifier::external_body]
pub struct ExPathBuf(PathBuf);

} // verus!
