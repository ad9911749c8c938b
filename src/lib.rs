//! Typed side-channel context for failures.
//!
//! - `tag`: markers, each standing for one payload type, in three families
//!   (`Ref`, `RefMut`, `Value`) over a closed set of payload kinds.
//! - `any`: the request, a slot bound to one marker that providers fill.
//! - `error`: the failure capability, with typed context, a cause chain and
//!   the full return trace along it.
//! - `result`, `track`: the ok-or-failure carrier and the recording of call
//!   sites as a failure is passed on.
//! - `traced`: a failure that keeps its own trace and may wrap another.
use vstd::prelude::*;

pub mod site;
pub mod tag;
pub mod any;
pub mod error;
pub mod result;
pub mod track;
pub mod traced;
