//! A product catalogue served in three rendering modes: the catalogue data,
//! category and product lookup, search, links and request routing.
use vstd::prelude::*;

pub mod catalog;
pub mod laws;
pub mod links;
pub mod mode;
pub mod page;
pub mod search;
pub mod text;

verus! {
} // verus!
