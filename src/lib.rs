//! A bridge to the operating system's own file index: the query builders,
//! the decisions of the two native search protocols, and their resource
//! accounting.
pub mod utf16;
pub mod spotlight;
pub mod ledger;
pub mod oledb;
