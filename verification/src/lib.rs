//! A command-recording bridge between a caller holding opaque numeric handles
//! and a retained-mode GPU command-submission backend.
//!
//! The registry in [`table`] maps handles to live resources and enforces
//! handle lifetime: handles are never reused, and a destructive take kills a
//! handle forever. The pure functions in [`translate`] map loosely-typed wire
//! descriptors onto the exhaustively-variant backend records of [`backend`],
//! resolving optional fields to the backend's "unspecified" defaults and
//! carrying clear values bit-exactly. The operations in [`encoder`] and
//! [`pass`] drive an encoder through its one-way record, sub-pass, finish
//! lifecycle; every operation resolves all its handles before it mutates
//! anything, appends exactly one translated command on success, and surfaces
//! exactly one discriminated error otherwise.
//!
//! Every operation's contract states, over the registry's map model, when it
//! succeeds, which command it appends, and that a failed call leaves the
//! registry untouched.

use vstd::prelude::*;

pub mod backend;
pub mod encoder;
pub mod error;
pub mod pass;
pub mod table;
pub mod translate;
pub mod wire;

verus! {

} // verus!
