//! Own-borrow types, that let you use both borrowed and owned values
//! interchangeably. They differ from a clone-on-write reference mainly in
//! that they borrow mutably, and don't convert the borrowed value into an
//! owned one on write.

pub mod borrowned;
pub mod borrowned_box;
pub mod ob;
pub mod obox;

pub use borrowned::Borrowned;
pub use borrowned_box::BorrownedBox;
pub use ob::Ob;
pub use obox::OBox;
