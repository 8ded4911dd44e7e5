//! Verified core of a desktop WebView host that is driven from Python.
//!
//! The library holds the decisions of the host: the life cycle of each
//! application instance, the shared runtime thread and its queue of window
//! requests, the table of open windows and the answer to every event of the
//! event loop, the per-instance event queue and handler registry, the
//! resource protocol that serves the front end, and the small pieces of text
//! handling those decisions rest on.

use vstd::prelude::*;

pub mod text;
pub mod instance;
pub mod runtime;
pub mod windows;
pub mod resources;
pub mod events;
pub mod icon;

verus! {

/// The page mode of a window: the built-in test page, or a front end served
/// from a resource root.
#[derive(Clone, Copy, Debug, PartialEq, Eq, Structural)]
pub enum Mode {
    Test,
    Normal,
}

/// Hands out instance identifiers, starting from 1.
pub struct AppIds {
    next: u64,
}

impl AppIds {
    /// The identifier the next call of `next_app_id` returns.
    pub closed spec fn upcoming(&self) -> u64 {
        self.next
    }

    /// A fresh counter whose first identifier is 1.
    pub fn new() -> (ids: Self)
        ensures
            ids.upcoming() == 1,
    {
        AppIds { next: 1 }
    }

    /// Returns the current identifier and advances the counter by one,
    /// wrapping around at `u64::MAX` as an atomic `fetch_add` does.
    pub fn next_app_id(&mut self) -> (id: u64)
        ensures
            id == old(self).upcoming(),
            final(self).upcoming() == (if id == u64::MAX { 0 } else { (id + 1) as u64 }),
    {
        let id = self.next;
        self.next = id.wrapping_add(1);
        id
    }
}

/// Whether a mode reloads the Python module of a handler before each call.
pub fn reloads_modules(mode: Mode) -> (reload: bool)
    ensures
        reload == (mode == Mode::Test),
{
    mode == Mode::Test
}

} // verus!
