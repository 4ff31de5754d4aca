//! Command-dispatch layer for a tiling window manager.
//!
//! External clients drive one shared window tree through named operations
//! whose arguments arrive as wire-native strings, integers and booleans.
//! This crate holds the verified core of that layer: pure argument parsing
//! (identifiers, directions, split axes, resize-edge sets), resolution of an
//! omitted target against the currently active container, a reader/writer
//! lock broker around the tree, a categorized registry with a directory of
//! connected clients, and the dispatcher that ties them together and
//! translates every failure into one uniform fault type.

pub mod errors;
pub mod strutil;
pub mod ident;
pub mod args;
pub mod tree;
pub mod locks;
pub mod registry;
pub mod dispatch;
