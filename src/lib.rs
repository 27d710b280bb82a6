//! An interactive task manager's core: task records, the status set, the
//! menu and edit workflows as state machines, the rows a task table shows,
//! and an in-memory model of the store's statements.
pub mod date;
pub mod task;
pub mod render;
pub mod matching;
pub mod store;
pub mod flow;
pub mod laws;
