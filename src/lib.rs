//! The credential and trust boundary of a healthcare-monitoring backend:
//! password hashing, session tokens, the signup / login / token workflows,
//! and the validation of untrusted request text.
use vstd::prelude::*;

verus! {

} // verus!

pub mod text;
pub mod validation;
pub mod ml;
pub mod password;
pub mod tokens;
pub mod auth;
