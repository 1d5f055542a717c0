//! Paging: the page sizes of the processor and the pages themselves.

pub mod page;
