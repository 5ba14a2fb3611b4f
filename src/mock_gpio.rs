use std::sync::atomic::{AtomicBool, Ordering};
use std::sync::Arc;
use vstd::prelude::*;

verus! {

/// A simulated digital input. Clones share one level, so a simulator can
/// drive the pin that the control loop reads. Because any clone may change
/// the level at any time, nothing relates one read to an earlier write.
#[derive(Clone)]
pub struct MockInputPin {
    state: Arc<AtomicBool>,
}

/// A simulated digital output. Clones share one level, so a simulator can
/// observe what the control loop writes.
#[derive(Clone)]
pub struct MockOutputPin {
    state: Arc<AtomicBool>,
}

/// The error type of the simulated pins, which never fail.
#[derive(Clone, Copy, Debug, PartialEq, Eq, Structural)]
pub struct PinError;

impl MockInputPin {
    /// A new input pin reading `initial_state` until changed.
    pub fn new(initial_state: bool) -> (r: MockInputPin) {
        MockInputPin { state: Arc::new(AtomicBool::new(initial_state)) }
    }

    /// Sets the level seen by every clone of this pin.
    pub fn set_state(&self, state: bool) {
        self.state.store(state, Ordering::SeqCst);
    }

    /// Whether the pin currently reads high.
    pub fn is_high(&self) -> bool {
        self.state.load(Ordering::SeqCst)
    }

    /// Whether the pin currently reads low.
    pub fn is_low(&self) -> bool {
        !self.state.load(Ordering::SeqCst)
    }
}

impl MockOutputPin {
    /// A new output pin, driven low.
    pub fn new() -> (r: MockOutputPin) {
        MockOutputPin { state: Arc::new(AtomicBool::new(false)) }
    }

    /// Whether the pin is currently driven high.
    pub fn is_set_high(&self) -> bool {
        self.state.load(Ordering::SeqCst)
    }

    /// Drives the pin high for every clone.
    pub fn set_high(&self) {
        self.state.store(true, Ordering::SeqCst);
    }

    /// Drives the pin low for every clone.
    pub fn set_low(&self) {
        self.state.store(false, Ordering::SeqCst);
    }
}

} // verus!
