use vstd::prelude::*;

verus! {

/// The size in pixels of the surface the viewer draws into. The projection's
/// aspect ratio is `width / height`.
#[derive(Clone, Copy, Debug, PartialEq, Eq, Structural)]
pub struct Viewport {
    pub width: u32,
    pub height: u32,
}

impl Viewport {
    pub fn new(width: u32, height: u32) -> (r: Self)
        ensures
            r == (Viewport { width, height }),
    {
        Viewport { width, height }
    }

    /// Takes a new size, unless one of its sides is zero (a minimised
    /// window), in which case the old size stays. Returns whether the size
    /// was taken, that is whether the surface and the projection have to be
    /// configured anew.
    pub fn resize(&mut self, width: u32, height: u32) -> (changed: bool)
        ensures
            changed == (width > 0 && height > 0),
            changed ==> *final(self) == (Viewport { width, height }),
            !changed ==> *final(self) == *old(self),
    {
        if width > 0 && height > 0 {
            self.width = width;
            self.height = height;
            true
        } else {
            false
        }
    }
}

} // verus!
