//! A singly linked, forward-only list whose behaviour is stated over a
//! mathematical sequence and proved by Verus.

pub mod laws;
pub mod linklist;

pub use linklist::LinkList;
