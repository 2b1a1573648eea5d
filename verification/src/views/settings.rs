//! The settings page; its choices live in the interface toolkit and the
//! message catalogue, so the page keeps no state of its own.
use vstd::prelude::*;

verus! {

/// The settings page.
#[derive(Debug)]
pub struct SettingsView;

impl Default for SettingsView {
    fn default() -> (r: SettingsView)
        ensures
            r == SettingsView,
    {
        SettingsView
    }
}

} // verus!
