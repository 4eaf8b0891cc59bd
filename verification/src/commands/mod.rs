//! The three commands: the interactive account list, adding an account, and
//! running git as one of the accounts.

pub mod add;
pub mod edit;
pub mod frame;
pub mod git;
pub mod list;
pub mod switch;
