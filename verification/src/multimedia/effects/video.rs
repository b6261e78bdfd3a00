//! Video effects.

use vstd::prelude::*;
use crate::multimedia::effects::EffectType;

verus! {

#[derive(Debug, Clone, Copy, PartialEq, Eq, Structural)]
enum ResizeAlgorithm {
    NearestNeighbor,
    Bilinear,
    Bicubic,
}

/// Scales pictures to a target size.
pub struct Resize {
    target_width: u32,
    target_height: u32,
    algorithm: ResizeAlgorithm,
}

impl Resize {
    /// The target size.
    pub closed spec fn target(&self) -> (u32, u32) {
        (self.target_width, self.target_height)
    }

    /// Whether the scaling is bilinear.
    pub closed spec fn is_bilinear(&self) -> bool {
        self.algorithm == ResizeAlgorithm::Bilinear
    }

    /// A bilinear resize to `width` x `height`.
    pub fn new(width: u32, height: u32) -> (r: Self)
        ensures
            r.target() == (width, height),
            r.is_bilinear(),
    {
        Self { target_width: width, target_height: height, algorithm: ResizeAlgorithm::Bilinear }
    }

    /// The effect's name.
    pub fn name(&self) -> (r: &'static str)
        ensures
            r@ == "Resize"@,
    {
        "Resize"
    }

    /// A resize filters video.
    pub fn effect_type(&self) -> (r: EffectType)
        ensures
            r == EffectType::VideoFilter,
    {
        EffectType::VideoFilter
    }

    /// Back to 1920 x 1080.
    pub fn reset(&mut self)
        ensures
            final(self).target() == (1920u32, 1080u32),
            final(self).is_bilinear() == old(self).is_bilinear(),
    {
        self.target_width = 1920;
        self.target_height = 1080;
    }

    /// The target width.
    pub fn target_width(&self) -> (r: u32)
        ensures
            r == self.target().0,
    {
        self.target_width
    }

    /// The target height.
    pub fn target_height(&self) -> (r: u32)
        ensures
            r == self.target().1,
    {
        self.target_height
    }

    /// Sets the target size.
    pub fn set_target(&mut self, width: u32, height: u32)
        ensures
            final(self).target() == (width, height),
            final(self).is_bilinear() == old(self).is_bilinear(),
    {
        self.target_width = width;
        self.target_height = height;
    }
}

} // verus!
