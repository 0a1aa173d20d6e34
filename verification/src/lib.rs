//! A generic record browser core: it resolves connection settings from a
//! line-oriented key/value configuration, maps dynamically-typed rows from a
//! relational store into uniform string records, holds them in an ordered
//! store, and exposes a bounded sequential cursor over them.
//!
//! Transport (query execution) and presentation (rendering) are external
//! collaborators: the fetch orchestration is a verified state machine that an
//! unverified driver feeds with query results.

pub mod config;
pub mod cursor;
pub mod fetch;
pub mod numeral;
pub mod record;
pub mod text;

use vstd::prelude::*;

verus! {

} // verus!
