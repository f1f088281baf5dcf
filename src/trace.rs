use vstd::prelude::*;
use crate::color::Color3;

verus! {

/// What one bounce of a path observed.
#[derive(Clone, Copy, Debug, PartialEq, Eq, Structural)]
pub enum Bounce {
    /// The ray met no object.
    Miss,
    /// The ray hit a terminal material, which attenuated the colour to this
    /// value and sent out no ray.
    Absorbed(Color3),
    /// The ray hit a material that attenuated the colour to this value and
    /// sent out a new ray.
    Scattered(Color3),
}

/// The state of the shading loop of one primary ray.
///
/// The colour starts as the background seen along the primary ray. Each
/// bounce that hits an object replaces it by that object's attenuation of
/// it; the loop stops on a miss, on a terminal material, or once
/// `scatter_depth` bounces have been spent.
#[derive(Clone, Copy, Debug)]
pub struct Trace {
    pub color: Color3,
    pub bounces_left: u32,
    pub finished: bool,
}

impl Trace {
    /// A running trace still has a bounce to spend.
    pub open spec fn wf(&self) -> bool {
        !self.finished ==> self.bounces_left > 0
    }

    /// The trace of a ray whose background colour is `background`, allowed
    /// at most `scatter_depth` bounces. With no bounce allowed it is
    /// finished at once and keeps the background.
    pub fn start(background: Color3, scatter_depth: u32) -> (t: Trace)
        ensures
            t.wf(),
            t.color == background,
            t.bounces_left == scatter_depth,
            t.finished == (scatter_depth == 0),
    {
        Trace { color: background, bounces_left: scatter_depth, finished: scatter_depth == 0 }
    }

    /// Records one bounce of a running trace.
    ///
    /// A miss finishes the trace and keeps its colour. A hit spends one
    /// bounce and takes the attenuated colour; the trace then finishes if the
    /// material was terminal or no bounce is left.
    pub fn advance(&mut self, bounce: Bounce)
        requires
            old(self).wf(),
            !old(self).finished,
        ensures
            final(self).wf(),
            match bounce {
                Bounce::Miss => {
                    &&& final(self).finished
                    &&& final(self).color == old(self).color
                    &&& final(self).bounces_left == old(self).bounces_left
                },
                Bounce::Absorbed(c) => {
                    &&& final(self).finished
                    &&& final(self).color == c
                    &&& final(self).bounces_left == old(self).bounces_left - 1
                },
                Bounce::Scattered(c) => {
                    &&& final(self).finished == (old(self).bounces_left == 1)
                    &&& final(self).color == c
                    &&& final(self).bounces_left == old(self).bounces_left - 1
                },
            },
    {
        match bounce {
            Bounce::Miss => {
                self.finished = true;
            },
            Bounce::Absorbed(c) => {
                self.color = c;
                self.bounces_left = self.bounces_left - 1;
                self.finished = true;
            },
            Bounce::Scattered(c) => {
                self.color = c;
                self.bounces_left = self.bounces_left - 1;
                self.finished = self.bounces_left == 0;
            },
        }
    }
}

} // verus!
