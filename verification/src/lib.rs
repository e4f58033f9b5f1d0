//! The core of a birthday bot for a group chat. Once a day it announces the
//! birthdays of the day, and it answers the commands that members of the
//! chat address to it with `!bd`.
//!
//! The library decides and composes; it performs no I/O. Whoever drives it
//! queries the store of birthdays and posts to the chat webhook, as the state
//! machines of [`flow`] ask for.

pub mod command;
pub mod dates;
pub mod dispatch;
pub mod event;
pub mod fault;
pub mod flow;
pub mod messaging;
pub mod records;
pub mod text;
