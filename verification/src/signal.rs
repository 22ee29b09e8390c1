//! The flags through which button lines report their edges.
//!
//! A line raises its flag from wherever its signal arrives, an interrupt
//! handler included; the poller takes the flags at each poll. A flag only
//! says that at least one edge has come in since it was last taken.

use std::sync::atomic::AtomicBool;
use std::sync::atomic::Ordering;
use vstd::prelude::*;
use crate::keyevent::{Key, PendingEdges};

verus! {

/// One flag for each button.
pub struct EdgeFlags {
    up: AtomicBool,
    down: AtomicBool,
    left: AtomicBool,
    right: AtomicBool,
    center: AtomicBool,
}

impl EdgeFlags {
    /// Flags with none raised.
    pub fn new() -> EdgeFlags {
        EdgeFlags {
            up: AtomicBool::new(false),
            down: AtomicBool::new(false),
            left: AtomicBool::new(false),
            right: AtomicBool::new(false),
            center: AtomicBool::new(false),
        }
    }

    /// Reports an edge of `key`. It never waits, and raising a flag that
    /// is raised already changes nothing.
    pub fn on_edge_signal(&self, key: Key) {
        match key {
            Key::Up => self.up.store(true, Ordering::Relaxed),
            Key::Down => self.down.store(true, Ordering::Relaxed),
            Key::Left => self.left.store(true, Ordering::Relaxed),
            Key::Right => self.right.store(true, Ordering::Relaxed),
            Key::Center => self.center.store(true, Ordering::Relaxed),
        }
    }

    /// Takes the flags: says which were raised and lowers them. What it
    /// returns depends on the edges that other contexts have reported, so
    /// nothing is promised of it.
    pub fn take(&self) -> PendingEdges {
        PendingEdges {
            up: self.up.swap(false, Ordering::Relaxed),
            down: self.down.swap(false, Ordering::Relaxed),
            left: self.left.swap(false, Ordering::Relaxed),
            right: self.right.swap(false, Ordering::Relaxed),
            center: self.center.swap(false, Ordering::Relaxed),
        }
    }
}

} // verus!
