//! One module per command of the tool. A command is a function from what is
//! known so far to what is to be done next: the caller does it, adds what
//! came of it to the facts, and asks again, until the step is a final one.

pub mod doctor;
pub mod download;
pub mod info;
pub mod list;
pub mod remove;
pub mod run;
pub mod runtime;
pub mod setup;
