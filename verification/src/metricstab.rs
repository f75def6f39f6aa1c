//! The metrics tab: a placeholder pane that handles nothing yet.
use vstd::prelude::*;
use crate::keyevent::KeyInput;

verus! {

/// The metrics tab. It shows a fixed frame and consumes no keys.
pub struct MetricsTab {}

impl MetricsTab {
    /// A fresh metrics tab.
    pub fn new() -> MetricsTab {
        MetricsTab {  }
    }

    /// No key concerns this tab: everything bubbles up.
    pub fn handle_event(&mut self, _key: KeyInput) -> (r: bool)
        ensures
            !r,
    {
        false
    }
}

} // verus!
