//! An interactive symbol finder. It keeps a catalogue of the declarations
//! of a project, ranks the catalogue against a query as the user types, and
//! takes a running editor to the record that the user picks.
//!
//! - `item`: declarations, and the label and place of each;
//! - `symbol`: the catalogue and how it is built;
//! - `rank`: the ranking of the catalogue against a query;
//! - `keys` and `app`: the keyboard and the session;
//! - `nvim`: the conversation with the editor, call by call;
//! - `editor`: what that conversation does to an editor;
//! - `cli` and `error`: the command line and the failures.

pub mod app;
pub mod cli;
pub mod editor;
pub mod error;
pub mod item;
pub mod keys;
pub mod nvim;
pub mod rank;
pub mod symbol;
