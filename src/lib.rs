//! A browser explorer of a catalog of talks: the record type, the list and
//! detail renders as plain data, and the view state that ties the one-time
//! catalog load and the row selection to what the page shows.
use vstd::prelude::*;

pub mod explorer;
pub mod laws;
pub mod render;
pub mod video;

verus! {

} // verus!
