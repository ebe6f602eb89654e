//! Object ids.
use vstd::prelude::*;

verus! {

/// `git2::Oid`, the id of a git object. The handlers carry ids from what is
/// selected to the command that acts on it and never look inside one, so the
/// type stays opaque.
#[verifier::external_type_specification]
#[verifier::external_body]
pub struct ExOid(git2::Oid);

} // verus!
