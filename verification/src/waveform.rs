//! The closed set of waveforms and the cell that holds the one in use.

use crossbeam::atomic::AtomicCell;
use vstd::prelude::*;

verus! {

/// A periodic waveform.
#[derive(Clone, Copy, Debug, PartialEq, Eq, Structural)]
pub enum Waveform {
    Sine,
    Square,
    Triangle,
}

/// The waveform in use, swapped by the control thread and read by the
/// render thread at each sample.
pub struct WaveformSelector {
    cell: AtomicCell<Waveform>,
}

impl WaveformSelector {
    /// A selector that starts out on the sine.
    pub fn new() -> Self {
        WaveformSelector { cell: AtomicCell::new(Waveform::Sine) }
    }

    /// Makes `kind` the waveform in use.
    pub fn select(&self, kind: Waveform) {
        self.cell.store(kind)
    }

    /// The waveform in use at some moment of the call.
    pub fn current(&self) -> Waveform {
        self.cell.load()
    }
}

} // verus!
