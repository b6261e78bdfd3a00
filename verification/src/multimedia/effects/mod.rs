//! Effects: their kinds, and the video effects.

pub mod video;

use vstd::prelude::*;

verus! {

#[derive(Debug, Clone, Copy, PartialEq, Eq, Structural)]
pub enum EffectType {
    AudioFilter,
    VideoFilter,
    AudioGenerator,
    VideoGenerator,
    Transition,
}

} // verus!
