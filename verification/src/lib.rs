//! A single-selection cursor over an ordered list of items.
//!
//! [`StatefulList`] pairs an immutable-length sequence of items with an
//! optional selection index and offers circular forward/backward navigation
//! plus explicit deselection. The behaviour of the three operations is
//! captured by the spec functions in [`selection`], and the laws they obey
//! are proved there.

pub mod list;
pub mod selection;

pub use crate::list::StatefulList;
