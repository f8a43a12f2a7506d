//! The render context's surface bookkeeping: the one piece of its behaviour
//! that is a rule rather than a GPU call is how a resize request changes the
//! configured surface size.

use vstd::prelude::*;

verus! {

/// The size a presentation surface is configured to.
#[derive(Debug, Clone, Copy, PartialEq, Eq, Structural)]
pub struct SurfaceConfig {
    pub width: u32,
    pub height: u32,
}

impl SurfaceConfig {
    /// Apply a resize request: a request with a zero dimension is ignored,
    /// any other takes effect whole.
    pub fn resize(&mut self, width: u32, height: u32)
        ensures
            width > 0 && height > 0 ==> *final(self) == (SurfaceConfig { width, height }),
            !(width > 0 && height > 0) ==> *final(self) == *old(self),
    {
        if width > 0 && height > 0 {
            self.width = width;
            self.height = height;
        }
    }
}

} // verus!
