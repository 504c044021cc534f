//! The command tree and what it is made of.

pub mod action;
pub mod arg;
pub mod command;
pub mod dispatch;
pub mod flag;
pub mod help;
