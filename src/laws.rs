use crate::depth::{depth_num, Depth, DrawLayer, Viewport};
use crate::normalise::{normalised, target_depth, DepthTarget};
use vstd::prelude::*;

verus! {

proof fn lemma_depth_fits(viewport: Viewport, layer: DrawLayer, y: i64)
    requires
        viewport.wf(),
    ensures
        viewport.depth_at(layer, y).num == depth_num(layer.layer as int, y as int, viewport.height as int),
        viewport.depth_at(layer, y).wf(),
{
    let h = viewport.height as int;
    let steps = 1 + layer.layer as int;
    assert(0 < steps * h <= 0x1_0000 * 0x1_0000_0000) by (nonlinear_arith)
        requires
            0 < steps <= 0x1_0000,
            0 < h <= u32::MAX,
    ;
}

proof fn lemma_same_den_lt(a: Depth, b: Depth)
    requires
        a.den == b.den,
        a.den > 0,
    ensures
        a.lt(b) <==> a.num < b.num,
{
    let h = a.den as int;
    assert(a.num < b.num <==> a.num * h < b.num * h) by (nonlinear_arith)
        requires
            h > 0,
    ;
}

/// A sprite on a higher layer is never drawn behind one on a lower layer
/// while both stand within the viewport (`0 <= y <= height`); it is drawn
/// strictly in front, except where the layers differ by one and the upper
/// sprite is at `y == height` while the lower is at `y == 0`, where the two
/// depths are equal.
pub proof fn cross_layer_order(
    viewport: Viewport,
    upper: DrawLayer,
    lower: DrawLayer,
    y_upper: i64,
    y_lower: i64,
)
    requires
        viewport.wf(),
        upper.layer > lower.layer,
        0 <= y_upper <= viewport.height,
        0 <= y_lower <= viewport.height,
    ensures
        !viewport.depth_at(upper, y_upper).lt(viewport.depth_at(lower, y_lower)),
        !(upper.layer == lower.layer + 1 && y_upper == viewport.height && y_lower == 0)
            ==> viewport.depth_at(lower, y_lower).lt(viewport.depth_at(upper, y_upper)),
{
    let a = viewport.depth_at(upper, y_upper);
    let b = viewport.depth_at(lower, y_lower);
    lemma_depth_fits(viewport, upper, y_upper);
    lemma_depth_fits(viewport, lower, y_lower);
    lemma_same_den_lt(a, b);
    lemma_same_den_lt(b, a);
    let h = viewport.height as int;
    let gap = upper.layer as int - lower.layer as int;
    assert(a.num - b.num == gap * h - (y_upper - y_lower)) by (nonlinear_arith)
        requires
            a.num == (1 + upper.layer as int) * h - y_upper,
            b.num == (1 + lower.layer as int) * h - y_lower,
            gap == upper.layer as int - lower.layer as int,
    ;
    assert(gap * h >= h) by (nonlinear_arith)
        requires
            gap >= 1,
            h > 0,
    ;
    if gap >= 2 {
        assert(gap * h >= 2 * h) by (nonlinear_arith)
            requires
                gap >= 2,
                h > 0,
        ;
    }
}

/// Of two sprites on one layer, the one with the smaller projected
/// coordinate is drawn strictly in front of the other, wherever they stand.
pub proof fn within_layer_order(viewport: Viewport, layer: DrawLayer, y_front: i64, y_back: i64)
    requires
        viewport.wf(),
        y_front < y_back,
    ensures
        viewport.depth_at(layer, y_back).lt(viewport.depth_at(layer, y_front)),
{
    lemma_depth_fits(viewport, layer, y_front);
    lemma_depth_fits(viewport, layer, y_back);
    lemma_same_den_lt(viewport.depth_at(layer, y_back), viewport.depth_at(layer, y_front));
}

/// At the top edge of the viewport (`y == 0`) a sprite's depth is
/// `BASE_OFFSET + layer`, and at the bottom edge (`y == height`) it is
/// `BASE_OFFSET + layer - 1`.
pub proof fn boundary_depths(viewport: Viewport, layer: DrawLayer)
    requires
        viewport.wf(),
    ensures
        viewport.depth_at(layer, 0).equals_int(1 + layer.layer as int),
        viewport.depth_at(layer, viewport.height as i64).equals_int(layer.layer as int),
{
    lemma_depth_fits(viewport, layer, 0);
    lemma_depth_fits(viewport, layer, viewport.height as i64);
    let h = viewport.height as int;
    assert((1 + layer.layer as int) * h - h == layer.layer as int * h) by (nonlinear_arith);
}

/// The pass keeps no hidden state: two runs on the same viewport and the same
/// targets give the same depths.
pub proof fn normalise_deterministic(
    viewport: Viewport,
    targets: Seq<DepthTarget>,
    first: Seq<Option<Depth>>,
    second: Seq<Option<Depth>>,
)
    requires
        normalised(viewport, targets, first),
        normalised(viewport, targets, second),
    ensures
        first == second,
{
    assert forall|i: int| 0 <= i < first.len() implies first[i] == second[i] by {
        assert(first[i] == target_depth(viewport, targets[i]));
    }
    assert(first =~= second);
}

} // verus!
