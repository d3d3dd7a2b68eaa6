//! Opening projects on remote machines.
//!
//! A remote project is opened in a workspace that is already open on it, or else over a new
//! connection. Everything on the way that takes windows, prompts, connections or a remote machine
//! is left to the caller. The library decides what is to be done: it hands out one step at a time,
//! and takes in how the step went as an [`events::Event`].
//!
//! - [`open`] opens a project from start to finish, [`prepare`] and [`connect`] are its two halves
//!   when there is no open workspace, and [`existing`] is about one that there is.
//! - [`resolve`], [`probe`] and [`navigate`] deal with positions in paths, such as `file.txt:3`.
//! - [`attempt`] is about cancelling a connection that is being made, and [`locks`] about not
//!   opening the same project twice at the same time.
//! - [`connection`] and [`settings`] tell how to connect.
//! - [`guarantees`] holds what is true of opening a project, however it goes, [`answers`] what each
//!   report leads to, and [`models`] that the models of all this leave nothing out.

pub mod answers;
pub mod attempt;
pub mod connect;
pub mod connection;
pub mod events;
pub mod existing;
pub mod guarantees;
pub mod locks;
pub mod models;
pub mod navigate;
pub mod open;
pub mod paths;
pub mod prepare;
pub mod probe;
pub mod resolve;
pub mod settings;
pub mod workspace;
