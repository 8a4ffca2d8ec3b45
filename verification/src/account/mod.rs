//! Accounts: the settings of the service, the forms of its users, their
//! passwords, and the tokens that name them.

pub mod access;
pub mod config;
pub mod forms;
pub mod password;
pub mod token;
