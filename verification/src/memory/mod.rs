//! Addresses, alignment arithmetic and pages.

pub mod addr;
pub mod paging;
pub mod utils;
