//! Native side of a desktop GIF maker: reading and saving files for the
//! front-end, recognising the content type of what was read, and the
//! application menu with the actions its entries trigger.
use vstd::prelude::*;

pub mod files;
pub mod menu;
pub mod mime;

verus! {

/// The view of an optional string slice.
pub open spec fn opt_str_view(s: Option<&str>) -> Option<Seq<char>> {
    match s {
        Some(t) => Some(t@),
        None => None,
    }
}

} // verus!
