//! arliamp: a launcher that prepares a multi-pane terminal music session.
//!
//! The library holds the launcher's logic: input resolution, the search-path
//! walk, workspace naming, the shader toggle state machine, the emulator
//! config rewrite, and the generation of every runtime artifact. All
//! filesystem and process work stays outside, in the thin binary shell.
#![verifier::loop_isolation(false)]
use vstd::prelude::*;

pub mod artifacts;
pub mod errors;
pub mod launch;
pub mod locate;
pub mod resolver;
pub mod rewrite;
pub mod session;
pub mod text;
pub mod toggle;
pub mod workspace;

verus! {

} // verus!
