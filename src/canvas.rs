use crate::arith::lemma_mul_le_iff_le_div;
use crate::resolution::{Resolution, WindowSize};
use vstd::prelude::*;

verus! {

/// A surface magnified `k` times fits inside the window on both axes.
pub open spec fn fits(res: Resolution, window: WindowSize, k: int) -> bool {
    k * res.width <= window.width && k * res.height <= window.height
}

/// `floor(min(window.width / res.width, window.height / res.height))`.
pub open spec fn spec_scale_factor(res: Resolution, window: WindowSize) -> nat
    recommends
        res.wf(),
{
    let sx = window.width as nat / res.width as nat;
    let sy = window.height as nat / res.height as nat;
    if sx <= sy {
        sx
    } else {
        sy
    }
}

/// The integer magnification of the surface for a window: the largest `k`
/// such that the magnified surface fits the window on both axes. Zero when
/// the window is smaller than the surface on either axis.
pub fn scale_factor(res: Resolution, window: WindowSize) -> (k: u32)
    requires
        res.wf(),
    ensures
        k == spec_scale_factor(res, window),
        fits(res, window, k as int),
        !fits(res, window, k + 1),
{
    let sx = window.width / res.width;
    let sy = window.height / res.height;
    let k = if sx <= sy {
        sx
    } else {
        sy
    };
    proof {
        lemma_scale_factor_is_largest_fit(res, window);
    }
    k
}

/// The scale factor is the largest magnification that fits.
pub proof fn lemma_scale_factor_is_largest_fit(res: Resolution, window: WindowSize)
    requires
        res.wf(),
    ensures
        fits(res, window, spec_scale_factor(res, window) as int),
        !fits(res, window, spec_scale_factor(res, window) + 1int),
{
    let k = spec_scale_factor(res, window) as int;
    lemma_mul_le_iff_le_div(window.width as int, res.width as int, k);
    lemma_mul_le_iff_le_div(window.height as int, res.height as int, k);
    lemma_mul_le_iff_le_div(window.width as int, res.width as int, k + 1);
    lemma_mul_le_iff_le_div(window.height as int, res.height as int, k + 1);
}

/// A window smaller than the surface on some axis gives scale factor zero.
pub proof fn lemma_small_window_scales_to_zero(res: Resolution, window: WindowSize)
    requires
        res.wf(),
        window.width < res.width || window.height < res.height,
    ensures
        spec_scale_factor(res, window) == 0,
{
    lemma_mul_le_iff_le_div(window.width as int, res.width as int, 1);
    lemma_mul_le_iff_le_div(window.height as int, res.height as int, 1);
}

/// A count, held at `u64::MAX` once it gets there.
pub open spec fn saturated(n: int) -> int {
    if n < u64::MAX {
        n
    } else {
        u64::MAX as int
    }
}

/// The on-screen quad that shows the simulation surface, magnified by an
/// integer factor. Its scale changes only when the window is resized.
#[derive(Clone, Copy, Debug)]
pub struct CanvasPresenter {
    pub resolution: Resolution,
    pub scale: u32,
    /// How many times the scale has been recomputed, held at `u64::MAX` once
    /// it gets there.
    pub recomputations: u64,
}

impl CanvasPresenter {
    /// A presenter for the surface, shown at its native size until the
    /// first resize.
    pub fn new(resolution: Resolution) -> (r: CanvasPresenter)
        requires
            resolution.wf(),
        ensures
            r.resolution == resolution,
            r.scale == 1,
            r.recomputations == 0,
    {
        CanvasPresenter { resolution, scale: 1, recomputations: 0 }
    }

    /// Handles one frame's resize events, in order: the scale is recomputed
    /// once for each event and ends at the factor for the last one. A frame
    /// without events leaves the presenter as it was.
    pub fn fit(&mut self, resizes: &Vec<WindowSize>)
        requires
            old(self).resolution.wf(),
        ensures
            final(self).resolution == old(self).resolution,
            final(self).recomputations == saturated(old(self).recomputations + resizes@.len()),
            resizes@.len() == 0 ==> final(self).scale == old(self).scale,
            resizes@.len() > 0 ==> final(self).scale == spec_scale_factor(
                old(self).resolution,
                resizes@.last(),
            ),
    {
        let mut i: usize = 0;
        while i < resizes.len()
            invariant
                0 <= i <= resizes@.len(),
                self.resolution == old(self).resolution,
                self.resolution.wf(),
                self.recomputations == saturated(old(self).recomputations + i),
                i == 0 ==> self.scale == old(self).scale,
                i > 0 ==> self.scale == spec_scale_factor(self.resolution, resizes@[i - 1]),
            decreases resizes@.len() - i,
        {
            self.scale = scale_factor(self.resolution, resizes[i]);
            if self.recomputations < u64::MAX {
                self.recomputations = self.recomputations + 1;
            }
            i = i + 1;
        }
    }

    /// Size in window pixels of the magnified surface.
    pub fn presented_size(&self) -> (r: (u64, u64))
        ensures
            r.0 == self.resolution.width * self.scale,
            r.1 == self.resolution.height * self.scale,
    {
        let w = self.resolution.width as u64;
        let h = self.resolution.height as u64;
        let k = self.scale as u64;
        proof {
            lemma_u32_product_fits(w, k);
            lemma_u32_product_fits(h, k);
        }
        (w * k, h * k)
    }
}

proof fn lemma_u32_product_fits(a: u64, b: u64)
    requires
        a <= u32::MAX,
        b <= u32::MAX,
    ensures
        a * b <= u64::MAX,
{
    assert(a * b <= u32::MAX * u32::MAX) by (nonlinear_arith)
        requires
            a <= u32::MAX,
            b <= u32::MAX,
    ;
}

} // verus!
