//! Properties of slice lowering, stated over the lowering's specification.
use crate::code::{fragment_text, BoundView, FragmentView, RangeView};
use crate::scope::SlotView;
use crate::slice::{
    end_at, is_vector, listed_below, lists_axis, lowering, normalized, slice_error, start_at,
    SliceError, SliceNode, SliceParam,
};
use crate::types::Type;
use vstd::prelude::*;

verus! {

/// With static starts and ends on a tensor, each axis below the shorter of
/// the two lists (and the rank) gets the literal range `start..end`, and
/// every other axis stays whole.
pub proof fn lemma_static_bounds_literal(n: SliceNode, s: Seq<SlotView>, pos: usize)
    requires
        n.input is Tensor,
        !(n.output is Shape),
        n.starts is Static,
        n.ends is Static,
    ensures
        slice_error(n) is None,
        ({
            let starts = n.starts->Static_0@;
            let ends = n.ends->Static_0@;
            lowering(n, s, pos).0 matches FragmentView::Tensor { ranges, reads_dims, .. }
                && !reads_dims && ranges.len() == n.input->Tensor_0.rank && forall|i: int|
                0 <= i < ranges.len() ==> #[trigger] ranges[i] == if i < starts.len() && i
                < ends.len() {
                    RangeView::Span(BoundView::Literal(starts[i]), BoundView::Literal(ends[i]))
                } else {
                    RangeView::Full
                }
        }),
{
}

/// A shape sliced from static `-1` to `i64::MAX`, into a one-entry shape,
/// is its last entry alone.
pub proof fn lemma_shape_last_entry(n: SliceNode, s: Seq<SlotView>, pos: usize)
    requires
        n.input is Shape,
        n.output matches Type::Shape(o) && o.rank == 1,
        n.starts matches SliceParam::Static(a) && a@ == seq![-1i64],
        n.ends matches SliceParam::Static(b) && b@ == seq![i64::MAX],
    ensures
        slice_error(n) is None,
        lowering(n, s, pos).0 == (FragmentView::ShapeLast {
            output: n.output->Shape_0.name@,
            shape: n.input->Shape_0.name@,
        }),
        fragment_text(lowering(n, s, pos).0) == "let "@ + n.output->Shape_0.name@ + ": [i64; 1] = ["@
            + n.input->Shape_0.name@ + "["@ + n.input->Shape_0.name@ + ".len() - 1]];"@,
{
}

/// A shape sliced with a negative static bound: each negative bound `b`
/// becomes `max(len + b, 0)`, the others stay, and the node lowers exactly
/// when the declared output length is the length of the normalized range.
pub proof fn lemma_shape_negative_static(n: SliceNode, s: Seq<SlotView>, pos: usize)
    requires
        n.input is Shape,
        n.output is Shape,
        n.starts matches SliceParam::Static(a) && a@.len() == 1,
        n.ends matches SliceParam::Static(b) && b@.len() == 1,
        n.starts->Static_0@[0] < 0 || n.ends->Static_0@[0] < 0,
        !(n.starts->Static_0@[0] == -1 && (n.ends->Static_0@[0] == i64::MAX
            || n.ends->Static_0@[0] >= n.input->Shape_0.rank)),
    ensures
        ({
            let len = n.input->Shape_0.rank as int;
            let st = n.starts->Static_0@[0] as int;
            let en = n.ends->Static_0@[0] as int;
            let ns = if st < 0 { vstd::math::max(len + st, 0) } else { st };
            let ne = if en < 0 { vstd::math::max(len + en, 0) } else { en };
            &&& lowering(n, s, pos).0 matches FragmentView::ShapeFixed { start, end, len: out, .. }
                && start as int == ns && end as int == ne && out == n.output->Shape_0.rank
            &&& slice_error(n) is None <==> ne - ns == n.output->Shape_0.rank
            &&& slice_error(n) is Some ==> slice_error(n) == Some(SliceError::OutputShapeMismatch)
        }),
{
    let len = n.input->Shape_0.rank as int;
    let st = n.starts->Static_0@[0] as int;
    let en = n.ends->Static_0@[0] as int;
    assert(normalized(st, len) == if st < 0 { vstd::math::max(len + st, 0) } else { st });
    assert(normalized(en, len) == if en < 0 { vstd::math::max(len + en, 0) } else { en });
}

/// A shape sliced with runtime scalars: the fragment evaluates both bounds
/// at run time and normalizes them against the statically known length of
/// the shape.
pub proof fn lemma_shape_runtime_scalars(n: SliceNode, s: Seq<SlotView>, pos: usize)
    requires
        n.input is Shape,
        n.output is Shape,
        n.starts matches SliceParam::Runtime(Type::Scalar(_)),
        n.ends matches SliceParam::Runtime(Type::Scalar(_)),
    ensures
        slice_error(n) is None,
        lowering(n, s, pos).0 == (FragmentView::ShapeRuntime {
            output: n.output->Shape_0.name@,
            shape: n.input->Shape_0.name@,
            start_expr: BoundView::Scalar(n.starts->Runtime_0->Scalar_0.name@),
            end_expr: BoundView::Scalar(n.ends->Runtime_0->Scalar_0.name@),
            shape_len: n.input->Shape_0.rank,
            len: n.output->Shape_0.rank,
        }),
{
}

/// A tensor sliced with static starts and a rank-1 runtime end tensor, with
/// no axis list: axis `i` starts at the `i`-th static start, or at 0 past the
/// list, and ends at entry `i` of the runtime ends, or at the axis's runtime
/// extent past them.
pub proof fn lemma_vector_ends_defaults(n: SliceNode, s: Seq<SlotView>, pos: usize)
    requires
        n.input is Tensor,
        !(n.output is Shape),
        n.starts is Static,
        is_vector(n.ends),
        n.axes is None,
    ensures
        slice_error(n) is None,
        ({
            let starts = n.starts->Static_0@;
            lowering(n, s, pos).0 matches FragmentView::Tensor { ranges, reads_dims, .. }
                && reads_dims && ranges.len() == n.input->Tensor_0.rank && forall|i: int|
                0 <= i < ranges.len() ==> #[trigger] ranges[i] == RangeView::Span(
                    if i < starts.len() {
                        BoundView::Cast(starts[i])
                    } else {
                        BoundView::StartLookup(Some(starts), i as usize)
                    },
                    BoundView::EndLookup(None, i as usize, i as usize),
                )
        }),
{
}

/// With an axis list and a rank-1 runtime bound tensor, exactly the listed
/// axes are narrowed; a listed axis takes the next entries of the bound
/// lists, counted over the listed axes below it.
pub proof fn lemma_axis_subset(n: SliceNode, s: Seq<SlotView>, pos: usize)
    requires
        n.input is Tensor,
        !(n.output is Shape),
        is_vector(n.starts) || is_vector(n.ends),
        n.starts is Static || is_vector(n.starts),
        n.ends is Static || is_vector(n.ends),
        n.axes matches Some(SliceParam::Static(_)),
    ensures
        slice_error(n) is None,
        ({
            let axes = n.axes->Some_0->Static_0@;
            lowering(n, s, pos).0 matches FragmentView::Tensor { ranges, .. } && ranges.len()
                == n.input->Tensor_0.rank && forall|i: int|
                0 <= i < ranges.len() ==> if lists_axis(axes, i) {
                    #[trigger] ranges[i] == RangeView::Span(
                        start_at(n.starts, listed_below(axes, i)),
                        end_at(n.ends, listed_below(axes, i), i),
                    )
                } else {
                    ranges[i] == RangeView::Full
                }
        }),
{
}

/// Lowering is a function of the node, the scope's table and the position:
/// two lowerings from the same table emit the same fragment and leave the
/// same table.
pub proof fn lemma_lowering_repeatable(
    n: SliceNode,
    s1: Seq<SlotView>,
    s2: Seq<SlotView>,
    pos: usize,
)
    requires
        s1 == s2,
    ensures
        lowering(n, s1, pos) == lowering(n, s2, pos),
        fragment_text(lowering(n, s1, pos).0) == fragment_text(lowering(n, s2, pos).0),
{
}

} // verus!
