use vstd::prelude::*;

verus! {

/// Width and height, in pixels, of the fixed simulation surface.
#[derive(Clone, Copy, Debug, PartialEq, Eq, Structural)]
pub struct Resolution {
    pub width: u32,
    pub height: u32,
}

impl Resolution {
    /// Both sides of a surface are positive.
    pub open spec fn wf(self) -> bool {
        self.width > 0 && self.height > 0
    }

    /// A resolution of the given size, or `None` where a side is zero.
    pub fn new(width: u32, height: u32) -> (r: Option<Resolution>)
        ensures
            r.is_some() <==> (width > 0 && height > 0),
            r matches Some(res) ==> res.width == width && res.height == height && res.wf(),
    {
        if width > 0 && height > 0 {
            Some(Resolution { width, height })
        } else {
            None
        }
    }
}

/// Size of the display window, in pixels.
#[derive(Clone, Copy, Debug, PartialEq, Eq, Structural)]
pub struct WindowSize {
    pub width: u32,
    pub height: u32,
}

} // verus!
