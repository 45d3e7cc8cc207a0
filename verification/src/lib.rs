//! Command grammar, path resolution and dispatch for a hardware sequencer's
//! project tree, together with the tagged value model the commands are made
//! of and the assembler that collects device bytes into complete frames.
//!
//! A command arrives as an operation and a list of loosely typed values.
//! [`parse`] reads the values into typed tokens, [`api`] resolves the tokens
//! to the one access to the tree they ask for and makes the reply once the
//! access has been carried out, and [`fields`] holds the closed sets of
//! names both rely on. [`frame`] stands apart: it turns the bytes a device
//! sends into whole messages.
//!
//! The tree itself belongs to a collaborator and is never touched here.
//! Every function is verified against a contract that says what it returns
//! for every input; none of them panics.

pub mod api;
pub mod error;
pub mod fields;
pub mod float;
pub mod frame;
pub mod parse;
pub mod save;
pub mod text;
pub mod types;
pub mod value;
