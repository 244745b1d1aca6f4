//! A wishlist: items with an identity, a quantity, a priority, an optional
//! link and free-text notes, with their tab-delimited text forms.
//!
//! An item is made by a builder, which fills in what it is not given, or is
//! read from a record of five fields. A record with another number of
//! fields is refused; what a field holds never is. A collection is written
//! as one record on each line and read back line by line. Every function
//! carries a contract over the plain values that items and texts stand for,
//! and each module proves what its functions have in common: that reading
//! undoes writing, and where it does not.

use vstd::prelude::*;

pub mod decimal;
pub mod identifier;
pub mod item;
pub mod item_parsing_error;
pub mod link;
pub mod priority;
pub mod priority_parse_error;
pub mod save_vec;
pub mod text;

pub use item::{Item, ItemBuilder};
pub use item_parsing_error::ItemParsingError;
pub use link::Link;
pub use priority::Priority;
pub use priority_parse_error::PriorityParseError;
pub use save_vec::Save;

verus! {

/// The sum of two numbers that fits in 64 bits.
pub fn add(left: u64, right: u64) -> (sum: u64)
    requires
        left + right <= u64::MAX,
    ensures
        sum == left + right,
{
    left + right
}

} // verus!
