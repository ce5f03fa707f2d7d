use crate::depth::{Depth, DrawLayer, Viewport};
use crate::error::ConfigurationError;
use vstd::prelude::*;

verus! {

/// What the depth pass reads of one sprite: its layer and, where the camera
/// could project its world position, its projected viewport coordinate.
#[derive(Debug, Clone, Copy, PartialEq, Eq, Structural)]
pub struct DepthTarget {
    pub layer: DrawLayer,
    pub projected_y: Option<i64>,
}

/// The depth that the pass assigns to `t`; none where its projection failed,
/// so that the sprite keeps its depth for this frame.
pub open spec fn target_depth(viewport: Viewport, t: DepthTarget) -> Option<Depth> {
    match t.projected_y {
        Some(y) => Some(viewport.depth_at(t.layer, y)),
        None => None,
    }
}

/// `out` holds, in order, the depth that the pass assigns to each target.
pub open spec fn normalised(viewport: Viewport, targets: Seq<DepthTarget>, out: Seq<Option<Depth>>) -> bool {
    &&& out.len() == targets.len()
    &&& forall|i: int| 0 <= i < targets.len() ==> #[trigger] out[i] == target_depth(viewport, targets[i])
}

/// The one active camera among `cameras`, or the configuration error that
/// none or several are present.
pub fn single_camera<C>(cameras: Vec<C>) -> (r: Result<C, ConfigurationError>)
    ensures
        cameras@.len() == 0 <==> r == Err::<C, ConfigurationError>(ConfigurationError::NoCamera),
        cameras@.len() > 1 <==> r == Err::<C, ConfigurationError>(ConfigurationError::MultipleCameras),
        cameras@.len() == 1 <==> r == Ok::<C, ConfigurationError>(cameras@[0]),
{
    if cameras.len() == 0 {
        Err(ConfigurationError::NoCamera)
    } else if cameras.len() > 1 {
        Err(ConfigurationError::MultipleCameras)
    } else {
        let mut cameras = cameras;
        match cameras.pop() {
            Some(c) => Ok(c),
            None => Err(ConfigurationError::NoCamera),
        }
    }
}

/// The depth of every target in one frame, each computed on its own from its
/// layer and projected coordinate; a target whose projection failed gets none.
pub fn normalise_z_values(viewport: &Viewport, targets: &Vec<DepthTarget>) -> (r: Vec<Option<Depth>>)
    requires
        viewport.wf(),
    ensures
        normalised(*viewport, targets@, r@),
{
    let mut out: Vec<Option<Depth>> = Vec::with_capacity(targets.len());
    let mut i: usize = 0;
    while i < targets.len()
        invariant
            viewport.wf(),
            i <= targets@.len(),
            out@.len() == i,
            forall|j: int| 0 <= j < i ==> #[trigger] out@[j] == target_depth(*viewport, targets@[j]),
        decreases targets@.len() - i,
    {
        let t = targets[i];
        let d = match t.projected_y {
            Some(y) => Some(viewport.depth(t.layer, y)),
            None => None,
        };
        out.push(d);
        i = i + 1;
    }
    out
}

} // verus!
