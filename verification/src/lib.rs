//! Keeps a collection of game mods on local disk, stages them for the game, and
//! browses a remote catalog for more.
//!
//! The library holds the rules: which mods the collection holds, when a mod counts
//! as staged, how a search of the catalog is worded, how its answers are read, and
//! what each key does. It touches neither disk nor network: what has to happen there
//! is handed out as a plan, and its outcome is handed back in.

pub mod cli;
pub mod error;
pub mod files;
pub mod gamebanana;
pub mod modz;
pub mod text;
pub mod tui;
