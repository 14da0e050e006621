//! A flag shared between threads telling whether the dashboard owns the
//! terminal (log output to stderr is held back while it does).

use vstd::prelude::*;
use std::sync::Arc;
use std::sync::atomic::AtomicBool;
use std::sync::atomic::Ordering;

verus! {

/// Shared on/off flag; clones observe the same value.
#[derive(Debug, Clone)]
pub struct TuiActiveFlag {
    flag: Arc<AtomicBool>,
}

impl TuiActiveFlag {
    /// A new flag, initially off.
    pub fn new() -> Self {
        TuiActiveFlag { flag: Arc::new(AtomicBool::new(false)) }
    }

    /// Turns the flag on or off for every clone.
    pub fn set_active(&self, active: bool) {
        self.flag.store(active, Ordering::SeqCst);
    }

    /// The flag's current value; another clone may change it at any time,
    /// so nothing is promised of it.
    pub fn is_active(&self) -> bool {
        self.flag.load(Ordering::SeqCst)
    }
}

} // verus!
