use vstd::prelude::*;
use crate::color::{Color3, CHANNEL_MAX};

verus! {

/// A pure emitter: it replaces whatever colour reaches it by its own and
/// ends the path, scattering nothing.
#[derive(Clone, Copy, Debug)]
pub struct LightSource {
    color: Color3,
}

impl LightSource {
    /// The colour this source emits.
    pub closed spec fn emitted(&self) -> Color3 {
        self.color
    }

    /// A white light source.
    pub fn construct() -> (l: LightSource)
        ensures
            l.emitted() == Color3::white(),
            l.emitted().wf(),
    {
        LightSource { color: Color3 { r: CHANNEL_MAX, g: CHANNEL_MAX, b: CHANNEL_MAX } }
    }

    /// Ignores the incoming colour and returns the emitted one.
    pub fn attenuate(&self, color: Color3) -> (r: Color3)
        ensures
            r == self.emitted(),
    {
        self.color
    }

    /// A light source terminates the path: no ray leaves it, whatever
    /// ray and hit record it is given.
    pub fn scatter<R, H>(&self, ray: &R, hit: &H) -> (r: Option<R>)
        ensures
            r.is_none(),
    {
        None
    }
}

} // verus!
