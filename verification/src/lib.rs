//! The logic of a program-rental loader: where the API lives, which calls it
//! takes and how its answers are read, the stable machine identifier, the
//! catalogue of program profiles, and the state of a login session.
use vstd::prelude::*;

pub mod api;
pub mod config;
pub mod hwid;
pub mod loader;
pub mod loader_text;
pub mod models;
pub mod program_profiles;
pub mod session;
pub mod text;

verus! {

} // verus!
