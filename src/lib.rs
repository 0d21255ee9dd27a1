//! Bibliographic citation records and their rendering into citation strings.
use vstd::prelude::*;

pub mod citations;
pub mod dates;
pub mod formats;
pub mod laws;

verus! {

} // verus!
