//! Decision logic of a wallet's recovery workflow: which timelocked recovery
//! paths are spendable now and for how much, how the user's destination and
//! feerate entries are validated, which path is selected, and whether the
//! workflow may proceed to drafting the sweep transaction.

pub mod aliases;
pub mod catalog;
pub mod types;
pub mod validate;
pub mod workflow;
