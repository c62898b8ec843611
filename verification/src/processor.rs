//! The operations of the protocol, one function each.
//!
//! Every operation works on the records and account summaries that it is
//! handed, and either succeeds, leaving them as its contract says, or fails and
//! leaves them untouched. Balances move only between the accounts handed in.

pub mod admin;
pub mod perp;
pub mod pool;
pub mod spot;
pub mod token;
