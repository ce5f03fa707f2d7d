use crate::error::ConfigurationError;
use vstd::prelude::*;

verus! {

/// Added to every depth, so that every sprite stays above a background at depth 0.
pub const BASE_OFFSET: u64 = 1;

/// A bound on the numerator of any depth that `Viewport::depth` computes.
pub const DEPTH_NUM_BOUND: i128 = 0x1_0000_0000_0000_0000;

/// The plugin that recomputes sprite depths every frame.
#[derive(Debug, Clone, Copy, PartialEq, Eq, Structural)]
pub struct DrawOrderPlugin;

/// A sprite's draw layer: a higher layer is drawn on top of a lower one,
/// wherever the two sprites stand.
#[derive(Debug, Clone, Copy, PartialEq, Eq, Structural)]
pub struct DrawLayer {
    pub layer: u16,
}

impl DrawLayer {
    pub fn new(layer: u16) -> (r: Self)
        ensures
            r.layer == layer,
    {
        DrawLayer { layer }
    }
}

/// `h` times the depth `BASE_OFFSET + layer - y / h` of a sprite on layer
/// `layer` whose projected viewport coordinate is `y`, in a viewport of
/// height `h`.
pub open spec fn depth_num(layer: int, y: int, h: int) -> int {
    (BASE_OFFSET + layer) * h - y
}

/// A depth, held as the exact fraction `num / den`. A greater depth is drawn
/// in front of a smaller one.
#[derive(Debug, Clone, Copy, PartialEq, Eq, Structural)]
pub struct Depth {
    pub num: i128,
    pub den: u32,
}

impl Depth {
    /// The denominator is positive and the numerator within the range that
    /// the depth formula can reach.
    pub open spec fn wf(self) -> bool {
        &&& self.den > 0
        &&& -DEPTH_NUM_BOUND < self.num < DEPTH_NUM_BOUND
    }

    /// The value of `self` is smaller than that of `other`.
    pub open spec fn lt(self, other: Depth) -> bool {
        self.num * other.den < other.num * self.den
    }

    /// The value of `self` is the integer `k`.
    pub open spec fn equals_int(self, k: int) -> bool {
        self.num == k * self.den
    }

    /// Whether `self` is drawn behind `other`: its value is strictly smaller.
    pub fn less_than(&self, other: &Depth) -> (r: bool)
        requires
            self.wf(),
            other.wf(),
        ensures
            r == self.lt(*other),
    {
        proof {
            lemma_product_bound(self.num as int, other.den as int);
            lemma_product_bound(other.num as int, self.den as int);
        }
        self.num * (other.den as i128) < other.num * (self.den as i128)
    }
}

proof fn lemma_product_bound(n: int, d: int)
    requires
        -DEPTH_NUM_BOUND < n < DEPTH_NUM_BOUND,
        0 < d <= u32::MAX,
    ensures
        -DEPTH_NUM_BOUND * 0x1_0000_0000 < n * d < DEPTH_NUM_BOUND * 0x1_0000_0000,
{
    assert(-DEPTH_NUM_BOUND * 0x1_0000_0000 < n * d < DEPTH_NUM_BOUND * 0x1_0000_0000)
        by (nonlinear_arith)
        requires
            -DEPTH_NUM_BOUND < n < DEPTH_NUM_BOUND,
            0 < d <= u32::MAX,
    ;
}

/// The render surface of a frame, in the unit that projected coordinates use.
#[derive(Debug, Clone, Copy, PartialEq, Eq, Structural)]
pub struct Viewport {
    pub height: u32,
}

impl Viewport {
    /// The height is positive, so that depths are never divided by zero.
    pub open spec fn wf(self) -> bool {
        self.height > 0
    }

    /// The depth of a sprite on `layer` whose projected coordinate is `y`.
    pub open spec fn depth_at(self, layer: DrawLayer, y: i64) -> Depth {
        Depth { num: depth_num(layer.layer as int, y as int, self.height as int) as i128, den: self.height }
    }

    /// A viewport of the given height; a zero height is a configuration error.
    pub fn new(height: u32) -> (r: Result<Viewport, ConfigurationError>)
        ensures
            height == 0 <==> r == Err::<Viewport, ConfigurationError>(
                ConfigurationError::ZeroViewportHeight,
            ),
            height > 0 <==> r == Ok::<Viewport, ConfigurationError>(Viewport { height }),
    {
        if height == 0 {
            Err(ConfigurationError::ZeroViewportHeight)
        } else {
            Ok(Viewport { height })
        }
    }

    /// The depth of a sprite on `layer` whose projected viewport coordinate
    /// is `projected_y`: `BASE_OFFSET + layer - projected_y / height`.
    pub fn depth(&self, layer: DrawLayer, projected_y: i64) -> (d: Depth)
        requires
            self.wf(),
        ensures
            d == self.depth_at(layer, projected_y),
            d.wf(),
            d.num == depth_num(layer.layer as int, projected_y as int, self.height as int),
    {
        let h = self.height as i128;
        let steps = BASE_OFFSET as i128 + layer.layer as i128;
        assert(steps * h <= 0x1_0000 * 0x1_0000_0000) by (nonlinear_arith)
            requires
                0 < steps <= 0x1_0000,
                0 < h <= u32::MAX,
        ;
        assert(steps * h > 0) by (nonlinear_arith)
            requires
                0 < steps,
                0 < h,
        ;
        let num = steps * h - projected_y as i128;
        Depth { num, den: self.height }
    }
}

} // verus!
