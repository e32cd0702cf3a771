//! Render settings: image size, sample count and recursion budget.

use vstd::prelude::*;

verus! {

/// What the accumulation driver consumes: image size, samples per pixel,
/// and the bounce depth budget.
#[derive(Clone, Copy, Debug, PartialEq, Eq, Structural)]
pub struct Settings {
    pub width: usize,
    pub height: usize,
    pub samples: usize,
    pub depth: usize,
}

/// A quick low-resolution preview setting.
pub fn low() -> (s: Settings)
    ensures
        s == (Settings { width: 200usize, height: 100usize, samples: 100usize, depth: 50usize }),
{
    Settings { width: 200, height: 100, samples: 100, depth: 50 }
}

/// A full-size render setting.
pub fn high() -> (s: Settings)
    ensures
        s == (Settings { width: 1280usize, height: 720usize, samples: 100usize, depth: 50usize }),
{
    Settings { width: 1280, height: 720, samples: 100, depth: 50 }
}

} // verus!
