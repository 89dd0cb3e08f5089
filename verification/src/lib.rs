//! A generic singly-linked sequence container with constant-time head
//! insertion and removal, linear-time positional insertion and removal,
//! read-only and owning traversals, and a textual renderer for lists of
//! integers.

pub mod laws;
pub mod list;
pub mod render;

pub use list::IntoIter;
pub use list::Iter;
pub use list::SinglyList;
