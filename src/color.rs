use vstd::prelude::*;

verus! {

/// The largest level of a quantised colour channel.
pub const CHANNEL_MAX: i32 = 255;

/// A colour whose channels are quantised to the levels `0..=CHANNEL_MAX`.
#[derive(Clone, Copy, Debug, PartialEq, Eq, Structural)]
pub struct Color3 {
    pub r: i32,
    pub g: i32,
    pub b: i32,
}

impl Color3 {
    /// Every channel is a valid level.
    pub open spec fn wf(&self) -> bool {
        &&& 0 <= self.r <= CHANNEL_MAX
        &&& 0 <= self.g <= CHANNEL_MAX
        &&& 0 <= self.b <= CHANNEL_MAX
    }

    /// Full intensity on every channel.
    pub open spec fn white() -> Color3 {
        Color3 { r: CHANNEL_MAX, g: CHANNEL_MAX, b: CHANNEL_MAX }
    }
}

/// Which side of a surface a ray struck: `FrontFace` when the outward
/// normal already opposes the ray, `BackFace` when it had to be flipped.
#[derive(Clone, Copy, Debug, PartialEq, Eq, Structural)]
pub enum Face {
    FrontFace,
    BackFace,
}

} // verus!
