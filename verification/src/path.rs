//! Filesystem paths, carried through the library as opaque values.

use vstd::prelude::*;

verus! {

/// `std::path::PathBuf`, carried as an opaque value; nothing is claimed of it.
#[verifier::external_type_specification]
#[verifier::external_body]
pub struct ExPathBuf(std::path::PathBuf);

/// `PathBuf::clone`, which copies a path; nothing is stated of the copy.
pub assume_specification[ <std::path::PathBuf as Clone>::clone ](p: &std::path::PathBuf) -> std::path::PathBuf;

} // verus!
