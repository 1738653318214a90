//! Finds the executable of the LTeX+ language server for an editor: a binary
//! configured by the user, one on the search path, one downloaded earlier, or
//! the latest upstream release, fetched, unpacked and cached. The decisions are
//! a state machine, `resolver::Resolver`; its host performs the actions that it
//! asks for and reports back.

pub mod platform;
pub mod naming;
pub mod release;
pub mod cleanup;
pub mod resolver;
pub mod laws;
