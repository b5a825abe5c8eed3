//! A single-command responder for a game-server host: `/rules` answers the
//! invoking player with the text of a rules file.
//!
//! The library holds every decision the plugin makes and proves what each one
//! yields. It performs no input or output itself: the surrounding program reads
//! and writes the file, talks to the host, and hands the library plain values.

use vstd::prelude::*;

pub mod loader;
pub mod model;
pub mod registration;
pub mod responder;
pub mod text;

verus! {

/// The plugin itself. It carries no state: everything it needs is either fixed
/// text or handed to it by the host while it loads.
#[derive(Clone, Copy, Debug, PartialEq, Eq, Structural)]
pub struct RulezPlugin;

impl RulezPlugin {
    /// Creates the plugin.
    pub fn new() -> (plugin: Self)
        ensures
            plugin == RulezPlugin,
    {
        Self
    }
}

impl Default for RulezPlugin {
    fn default() -> (plugin: Self)
        ensures
            plugin == RulezPlugin,
    {
        Self::new()
    }
}

} // verus!
