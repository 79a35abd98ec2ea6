//! The instructions of the program, each a transition of the accounts that it
//! touches, with the transfers and events that it asks for.

pub mod buy;
pub mod sell;
pub mod change;
pub mod withdrawal;
pub mod initialize;
