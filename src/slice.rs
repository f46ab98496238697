//! The `Slice` operator and its lowering into generated code.
use crate::code::{
    fragment_text, AxisRange, Bound, BoundRead, BoundView, Fragment, FragmentView, RangeView, Side,
    ValueUse,
};
use crate::scope::{consume_spec, AccessMode, Scope, SlotView};
use crate::types::{ShapeType, TensorType, Type, TypeView};
use vstd::prelude::*;

verus! {

/// A list of slice bounds (starts, ends or axes).
#[derive(Debug)]
pub enum SliceParam {
    /// Known when lowering: one value per constrained axis.
    Static(Vec<i64>),
    /// Produced at run time by another node: a scalar, a shape or a rank-1
    /// integer tensor.
    Runtime(Type),
}

/// One `Slice` operator of the graph.
#[derive(Debug)]
pub struct SliceNode {
    pub input: Type,
    pub output: Type,
    pub starts: SliceParam,
    pub ends: SliceParam,
    pub axes: Option<SliceParam>,
}

/// Why a slice node cannot be lowered.
#[derive(Debug, Clone, Copy, PartialEq, Eq, Structural)]
pub enum SliceError {
    /// The input is neither a tensor nor a shape.
    UnsupportedInputKind,
    /// The bounds (or axes) have a form that this input cannot be sliced with.
    UnsupportedParameterCombination,
    /// The output descriptor does not fit the input, or its rank is not the
    /// statically known length of the result.
    OutputShapeMismatch,
}

// Classification of bound lists.

/// A rank-1 runtime tensor: bounds read from a buffer at run time.
pub open spec fn is_vector(p: SliceParam) -> bool {
    match p {
        SliceParam::Runtime(Type::Tensor(t)) => t.rank == 1,
        _ => false,
    }
}

/// Bounds known per axis: a static list, or a shape value indexed by axis.
pub open spec fn per_axis(p: SliceParam) -> bool {
    match p {
        SliceParam::Static(_) => true,
        SliceParam::Runtime(Type::Shape(_)) => true,
        _ => false,
    }
}

/// How many axes a per-axis list constrains.
pub open spec fn axis_count(p: SliceParam) -> int {
    match p {
        SliceParam::Static(v) => v@.len() as int,
        SliceParam::Runtime(Type::Shape(s)) => s.rank as int,
        _ => 0,
    }
}

/// The bound that a per-axis list gives for axis `i`.
pub open spec fn axis_bound(p: SliceParam, i: int) -> BoundView {
    match p {
        SliceParam::Static(v) => BoundView::Literal(v@[i]),
        SliceParam::Runtime(Type::Shape(s)) => BoundView::ShapeElem(s.name@, i as usize),
        _ => BoundView::Literal(0),
    }
}

/// Whether the list yields a single bound: a non-empty static list (its
/// first value), a scalar, or a shape (its first entry).
pub open spec fn has_scalar_bound(p: SliceParam) -> bool {
    match p {
        SliceParam::Static(v) => v@.len() > 0,
        SliceParam::Runtime(Type::Scalar(_)) => true,
        SliceParam::Runtime(Type::Shape(_)) => true,
        _ => false,
    }
}

pub open spec fn scalar_bound(p: SliceParam) -> BoundView {
    match p {
        SliceParam::Static(v) => BoundView::Literal(v@[0]),
        SliceParam::Runtime(Type::Scalar(s)) => BoundView::Scalar(s.name@),
        SliceParam::Runtime(Type::Shape(s)) => BoundView::ShapeElem(s.name@, 0),
        _ => BoundView::Literal(0),
    }
}

/// A bound counted from the end (negative) made absolute against `len`, and
/// clamped at zero.
pub open spec fn normalized(b: int, len: int) -> int {
    if b < 0 {
        if len + b < 0 {
            0
        } else {
            len + b
        }
    } else {
        b
    }
}

/// `s..e` on a shape of length `len` takes its last entry alone.
pub open spec fn takes_last(s: i64, e: i64, len: usize) -> bool {
    s == -1 && (e == i64::MAX || e >= len)
}

/// Both bounds static, one value each.
pub open spec fn single_static(n: SliceNode) -> bool {
    match (n.starts, n.ends) {
        (SliceParam::Static(a), SliceParam::Static(b)) => a@.len() == 1 && b@.len() == 1,
        _ => false,
    }
}

pub open spec fn first_static(p: SliceParam) -> i64 {
    match p {
        SliceParam::Static(a) => a@[0],
        _ => 0,
    }
}

/// The length of `s..e` on a shape of length `len`, both bounds
/// non-negative, an end of `i64::MAX` standing for `len`.
pub open spec fn span_len(s: i64, e: i64, len: usize) -> int {
    let end = if e == i64::MAX { len as int } else { e as int };
    if end < s {
        0
    } else {
        end - s
    }
}

/// The length of the result of a static slice of a shape.
pub open spec fn static_shape_len(s: i64, e: i64, len: usize) -> int {
    if takes_last(s, e, len) {
        1
    } else if s < 0 || e < 0 {
        normalized(e as int, len as int) - normalized(s as int, len as int)
    } else {
        span_len(s, e, len)
    }
}

/// Why the node cannot be lowered, if it cannot.
pub open spec fn slice_error(n: SliceNode) -> Option<SliceError> {
    match n.input {
        Type::Tensor(t) => {
            if n.output is Shape {
                Some(SliceError::OutputShapeMismatch)
            } else if is_vector(n.starts) || is_vector(n.ends) {
                if !(n.starts is Static || is_vector(n.starts)) || !(n.ends is Static || is_vector(
                    n.ends,
                )) || (n.axes matches Some(SliceParam::Runtime(_))) {
                    Some(SliceError::UnsupportedParameterCombination)
                } else {
                    None
                }
            } else if per_axis(n.starts) && per_axis(n.ends) {
                None
            } else if t.rank > 0 && has_scalar_bound(n.starts) && has_scalar_bound(n.ends) {
                None
            } else {
                Some(SliceError::UnsupportedParameterCombination)
            }
        },
        Type::Shape(sh) => match n.output {
            Type::Shape(o) => {
                if single_static(n) {
                    if static_shape_len(first_static(n.starts), first_static(n.ends), sh.rank)
                        == o.rank {
                        None
                    } else {
                        Some(SliceError::OutputShapeMismatch)
                    }
                } else if has_scalar_bound(n.starts) && has_scalar_bound(n.ends) {
                    None
                } else {
                    Some(SliceError::UnsupportedParameterCombination)
                }
            },
            _ => Some(SliceError::OutputShapeMismatch),
        },
        Type::Scalar(_) => Some(SliceError::UnsupportedInputKind),
    }
}

// The ranges of a tensor slice.

/// The range along axis `i` when no bound is a rank-1 tensor.
pub open spec fn plain_range(n: SliceNode, i: int) -> RangeView {
    if per_axis(n.starts) && per_axis(n.ends) {
        if i < axis_count(n.starts) && i < axis_count(n.ends) {
            RangeView::Span(axis_bound(n.starts, i), axis_bound(n.ends, i))
        } else {
            RangeView::Full
        }
    } else if i == 0 {
        RangeView::Span(scalar_bound(n.starts), scalar_bound(n.ends))
    } else {
        RangeView::Full
    }
}

pub open spec fn plain_ranges(n: SliceNode, rank: usize) -> Seq<RangeView> {
    Seq::new(rank as nat, |i: int| plain_range(n, i))
}

/// Whether axis `i` is listed.
pub open spec fn lists_axis(axes: Seq<i64>, i: int) -> bool {
    exists|k: int| 0 <= k < axes.len() && axes[k] as int == i
}

/// How many of the axes below `i` are listed.
pub open spec fn listed_below(axes: Seq<i64>, i: int) -> int
    decreases i,
{
    if i <= 0 {
        0
    } else {
        listed_below(axes, i - 1) + if lists_axis(axes, i - 1) {
            1int
        } else {
            0int
        }
    }
}

/// Entry `k` of the start list: a literal where a static list has one,
/// otherwise a lookup that falls back to 0.
pub open spec fn start_at(p: SliceParam, k: int) -> BoundView {
    match p {
        SliceParam::Static(a) => if k < a@.len() {
            BoundView::Cast(a@[k])
        } else {
            BoundView::StartLookup(Some(a@), k as usize)
        },
        _ => BoundView::StartLookup(None, k as usize),
    }
}

/// Entry `k` of the end list, for axis `i`: a literal where a static list
/// has one, otherwise a lookup that falls back to the extent of axis `i`.
pub open spec fn end_at(p: SliceParam, k: int, i: int) -> BoundView {
    match p {
        SliceParam::Static(b) => if k < b@.len() {
            BoundView::Cast(b@[k])
        } else {
            BoundView::EndLookup(Some(b@), k as usize, i as usize)
        },
        _ => BoundView::EndLookup(None, k as usize, i as usize),
    }
}

/// The range along axis `i` when a bound is a rank-1 tensor: with an axis
/// list, the listed axes take the bound entries in turn and the others stay
/// whole; without one, axis `i` takes entry `i`.
pub open spec fn vector_range(n: SliceNode, i: int) -> RangeView {
    match n.axes {
        Some(SliceParam::Static(axes)) => if lists_axis(axes@, i) {
            RangeView::Span(
                start_at(n.starts, listed_below(axes@, i)),
                end_at(n.ends, listed_below(axes@, i), i),
            )
        } else {
            RangeView::Full
        },
        _ => RangeView::Span(start_at(n.starts, i), end_at(n.ends, i, i)),
    }
}

pub open spec fn vector_ranges(n: SliceNode, rank: usize) -> Seq<RangeView> {
    Seq::new(rank as nat, |i: int| vector_range(n, i))
}

pub open spec fn param_name(p: SliceParam) -> Seq<char> {
    match p {
        SliceParam::Runtime(t) => t@.name(),
        _ => Seq::empty(),
    }
}

/// The read of a rank-1 bound tensor, if `p` is one, with the scope after it.
pub open spec fn read_of(p: SliceParam, side: Side, s: Seq<SlotView>, pos: usize) -> (
    Seq<SlotView>,
    Seq<(Side, (Seq<char>, AccessMode))>,
) {
    if is_vector(p) {
        let (next, mode) = consume_spec(s, param_name(p), pos);
        (next, seq![(side, (param_name(p), mode))])
    } else {
        (s, Seq::empty())
    }
}

/// The fragment that lowering the node emits from the scope `s` at
/// position `pos`, and the scope afterwards (for a node that lowers).
pub open spec fn lowering(n: SliceNode, s: Seq<SlotView>, pos: usize) -> (FragmentView, Seq<SlotView>) {
    match n.input {
        Type::Tensor(t) => {
            let (s1, mode) = consume_spec(s, t.name@, pos);
            let input = (t.name@, mode);
            if is_vector(n.starts) || is_vector(n.ends) {
                let (s2, first) = read_of(n.starts, Side::Start, s1, pos);
                let (s3, second) = read_of(n.ends, Side::End, s2, pos);
                (
                    FragmentView::Tensor {
                        output: n.output@.name(),
                        input,
                        reads_dims: true,
                        reads: first + second,
                        ranges: vector_ranges(n, t.rank),
                    },
                    s3,
                )
            } else {
                (
                    FragmentView::Tensor {
                        output: n.output@.name(),
                        input,
                        reads_dims: false,
                        reads: Seq::empty(),
                        ranges: plain_ranges(n, t.rank),
                    },
                    s1,
                )
            }
        },
        Type::Shape(sh) => (shape_lowering(n, sh.name@, sh.rank), s),
        // A scalar input does not lower (see `slice_error`).
        Type::Scalar(_) => (FragmentView::ShapeLast { output: Seq::empty(), shape: Seq::empty() }, s),
    }
}

pub open spec fn output_rank(n: SliceNode) -> usize {
    match n.output {
        Type::Shape(o) => o.rank,
        _ => 0,
    }
}

/// The fragment for a shape input named `shape` of length `len`.
pub open spec fn shape_lowering(n: SliceNode, shape: Seq<char>, len: usize) -> FragmentView {
    let output = n.output@.name();
    if single_static(n) {
        let s = first_static(n.starts);
        let e = first_static(n.ends);
        if takes_last(s, e, len) {
            FragmentView::ShapeLast { output, shape }
        } else if s < 0 || e < 0 {
            FragmentView::ShapeFixed {
                output,
                shape,
                start: normalized(s as int, len as int) as u64,
                end: normalized(e as int, len as int) as u64,
                len: output_rank(n),
            }
        } else {
            FragmentView::ShapeSpan {
                output,
                shape,
                start: s as u64,
                end: (if e == i64::MAX { len as int } else { e as int }) as u64,
                shape_len: len,
                len: output_rank(n),
            }
        }
    } else {
        FragmentView::ShapeRuntime {
            output,
            shape,
            start_expr: scalar_bound(n.starts),
            end_expr: scalar_bound(n.ends),
            shape_len: len,
            len: output_rank(n),
        }
    }
}

// Executable classification.

fn is_vector_param(p: &SliceParam) -> (r: bool)
    ensures
        r == is_vector(*p),
{
    match p {
        SliceParam::Runtime(Type::Tensor(t)) => t.rank == 1,
        _ => false,
    }
}

fn is_per_axis(p: &SliceParam) -> (r: bool)
    ensures
        r == per_axis(*p),
{
    match p {
        SliceParam::Static(_) => true,
        SliceParam::Runtime(Type::Shape(_)) => true,
        _ => false,
    }
}

fn has_scalar(p: &SliceParam) -> (r: bool)
    ensures
        r == has_scalar_bound(*p),
{
    match p {
        SliceParam::Static(v) => v.len() > 0,
        SliceParam::Runtime(Type::Scalar(_)) => true,
        SliceParam::Runtime(Type::Shape(_)) => true,
        _ => false,
    }
}

fn count_axes(p: &SliceParam) -> (r: usize)
    requires
        per_axis(*p),
    ensures
        r as int == axis_count(*p),
{
    match p {
        SliceParam::Static(v) => v.len(),
        SliceParam::Runtime(Type::Shape(s)) => s.rank,
        _ => 0,
    }
}

fn axis_bound_of(p: &SliceParam, i: usize) -> (r: Bound)
    requires
        per_axis(*p),
        i < axis_count(*p),
    ensures
        r@ == axis_bound(*p, i as int),
{
    match p {
        SliceParam::Static(v) => Bound::Literal(v[i]),
        SliceParam::Runtime(Type::Shape(s)) => Bound::ShapeElem(s.name.clone(), i),
        _ => Bound::Literal(0),
    }
}

/// The single bound that a list yields: the first static value, a scalar
/// by name, or the first entry of a shape.
fn get_scalar_expr(p: &SliceParam) -> (r: Bound)
    requires
        has_scalar_bound(*p),
    ensures
        r@ == scalar_bound(*p),
{
    match p {
        SliceParam::Static(v) => Bound::Literal(v[0]),
        SliceParam::Runtime(Type::Scalar(s)) => Bound::Scalar(s.name.clone()),
        SliceParam::Runtime(Type::Shape(s)) => Bound::ShapeElem(s.name.clone(), 0),
        _ => Bound::Literal(0),
    }
}

fn copy_list(v: &Vec<i64>) -> (r: Vec<i64>)
    ensures
        r@ == v@,
{
    let r = v.clone();
    assert(r@ =~= v@);
    r
}

fn start_at_of(p: &SliceParam, k: usize) -> (r: Bound)
    ensures
        r@ == start_at(*p, k as int),
{
    match p {
        SliceParam::Static(a) => if k < a.len() {
            Bound::Cast(a[k])
        } else {
            Bound::StartLookup(Some(copy_list(a)), k)
        },
        _ => Bound::StartLookup(None, k),
    }
}

fn end_at_of(p: &SliceParam, k: usize, i: usize) -> (r: Bound)
    ensures
        r@ == end_at(*p, k as int, i as int),
{
    match p {
        SliceParam::Static(b) => if k < b.len() {
            Bound::Cast(b[k])
        } else {
            Bound::EndLookup(Some(copy_list(b)), k, i)
        },
        _ => Bound::EndLookup(None, k, i),
    }
}

fn contains_axis(axes: &Vec<i64>, i: usize) -> (r: bool)
    ensures
        r == lists_axis(axes@, i as int),
{
    let mut k: usize = 0;
    while k < axes.len()
        invariant
            k <= axes@.len(),
            forall|j: int| 0 <= j < k ==> axes@[j] as int != i as int,
        decreases axes@.len() - k,
    {
        if axes[k] as i128 == i as i128 {
            return true;
        }
        k = k + 1;
    }
    false
}

fn normalize(b: i64, len: usize) -> (r: u64)
    ensures
        r as int == normalized(b as int, len as int),
{
    if b < 0 {
        let v: i128 = len as i128 + b as i128;
        if v < 0 {
            0
        } else {
            v as u64
        }
    } else {
        b as u64
    }
}

fn is_last(s: i64, e: i64, len: usize) -> (r: bool)
    ensures
        r == takes_last(s, e, len),
{
    s == -1 && (e == i64::MAX || e as i128 >= len as i128)
}

fn static_len(s: i64, e: i64, len: usize) -> (r: i128)
    ensures
        r as int == static_shape_len(s, e, len),
{
    if is_last(s, e, len) {
        1
    } else if s < 0 || e < 0 {
        normalize(e, len) as i128 - normalize(s, len) as i128
    } else {
        let end: i128 = if e == i64::MAX {
            len as i128
        } else {
            e as i128
        };
        if end < s as i128 {
            0
        } else {
            end - s as i128
        }
    }
}

impl SliceNode {
    pub fn new(input: Type, output: Type, starts: SliceParam, ends: SliceParam) -> (r: SliceNode)
        ensures
            r.input == input,
            r.output == output,
            r.starts == starts,
            r.ends == ends,
            r.axes is None,
    {
        SliceNode { input, output, starts, ends, axes: None }
    }

    pub fn with_axes(self, axes: SliceParam) -> (r: SliceNode)
        ensures
            r.input == self.input,
            r.output == self.output,
            r.starts == self.starts,
            r.ends == self.ends,
            r.axes == Some(axes),
    {
        let mut node = self;
        node.axes = Some(axes);
        node
    }

    fn is_single_static(&self) -> (r: bool)
        ensures
            r == single_static(*self),
    {
        match (&self.starts, &self.ends) {
            (SliceParam::Static(a), SliceParam::Static(b)) => a.len() == 1 && b.len() == 1,
            _ => false,
        }
    }

    /// Why the node cannot be lowered, if it cannot.
    pub fn validate(&self) -> (r: Option<SliceError>)
        ensures
            r == slice_error(*self),
    {
        match &self.input {
            Type::Tensor(t) => {
                if matches!(self.output, Type::Shape(_)) {
                    Some(SliceError::OutputShapeMismatch)
                } else if is_vector_param(&self.starts) || is_vector_param(&self.ends) {
                    let runtime_axes = match &self.axes {
                        Some(SliceParam::Runtime(_)) => true,
                        _ => false,
                    };
                    let starts_ok = matches!(self.starts, SliceParam::Static(_)) || is_vector_param(
                        &self.starts,
                    );
                    let ends_ok = matches!(self.ends, SliceParam::Static(_)) || is_vector_param(
                        &self.ends,
                    );
                    if !starts_ok || !ends_ok || runtime_axes {
                        Some(SliceError::UnsupportedParameterCombination)
                    } else {
                        None
                    }
                } else if is_per_axis(&self.starts) && is_per_axis(&self.ends) {
                    None
                } else if t.rank > 0 && has_scalar(&self.starts) && has_scalar(&self.ends) {
                    None
                } else {
                    Some(SliceError::UnsupportedParameterCombination)
                }
            },
            Type::Shape(sh) => match &self.output {
                Type::Shape(o) => {
                    if self.is_single_static() {
                        let (s, e) = match (&self.starts, &self.ends) {
                            (SliceParam::Static(a), SliceParam::Static(b)) => (a[0], b[0]),
                            _ => (0, 0),
                        };
                        if static_len(s, e, sh.rank) == o.rank as i128 {
                            None
                        } else {
                            Some(SliceError::OutputShapeMismatch)
                        }
                    } else if has_scalar(&self.starts) && has_scalar(&self.ends) {
                        None
                    } else {
                        Some(SliceError::UnsupportedParameterCombination)
                    }
                },
                _ => Some(SliceError::OutputShapeMismatch),
            },
            Type::Scalar(_) => Some(SliceError::UnsupportedInputKind),
        }
    }

    /// The two bounds of a slice along axis 0 alone.
    fn get_slice_range_expressions(&self) -> (r: (Bound, Bound))
        requires
            has_scalar_bound(self.starts),
            has_scalar_bound(self.ends),
        ensures
            r.0@ == scalar_bound(self.starts),
            r.1@ == scalar_bound(self.ends),
    {
        (get_scalar_expr(&self.starts), get_scalar_expr(&self.ends))
    }

    fn plain_range_at(&self, i: usize) -> (r: AxisRange)
        requires
            self.input is Tensor,
            slice_error(*self) is None,
            !is_vector(self.starts),
            !is_vector(self.ends),
        ensures
            r@ == plain_range(*self, i as int),
    {
        if is_per_axis(&self.starts) && is_per_axis(&self.ends) {
            if i < count_axes(&self.starts) && i < count_axes(&self.ends) {
                AxisRange::Span(axis_bound_of(&self.starts, i), axis_bound_of(&self.ends, i))
            } else {
                AxisRange::Full
            }
        } else if i == 0 {
            let (a, b) = self.get_slice_range_expressions();
            AxisRange::Span(a, b)
        } else {
            AxisRange::Full
        }
    }

    fn generate_tensor_slice(&self, tensor: &TensorType, scope: &mut Scope, node_position: usize) -> (r: Fragment)
        requires
            old(scope).wf(),
            self.input is Tensor,
            self.input->Tensor_0 == *tensor,
            slice_error(*self) is None,
        ensures
            final(scope).wf(),
            (r@, final(scope)@) == lowering(*self, old(scope)@, node_position),
    {
        let mode = scope.consume(&tensor.name, node_position);
        let input = ValueUse { name: tensor.name.clone(), mode };
        if is_vector_param(&self.starts) || is_vector_param(&self.ends) {
            return self.generate_1d_tensor_slice(input, scope, node_position, tensor.rank);
        }
        let mut ranges: Vec<AxisRange> = Vec::new();
        let mut i: usize = 0;
        while i < tensor.rank
            invariant
                self.input is Tensor,
                slice_error(*self) is None,
                !is_vector(self.starts),
                !is_vector(self.ends),
                i <= tensor.rank,
                ranges@.len() == i,
                forall|j: int| 0 <= j < i ==> ranges@[j]@ == plain_range(*self, j),
            decreases tensor.rank - i,
        {
            ranges.push(self.plain_range_at(i));
            i = i + 1;
        }
        let reads: Vec<BoundRead> = Vec::new();
        assert(ranges@.map_values(|r: AxisRange| r@) =~= plain_ranges(*self, tensor.rank));
        assert(reads@.map_values(|r: BoundRead| r@) =~= Seq::<(Side, (Seq<char>, AccessMode))>::empty());
        Fragment::Tensor { output: self.output.name().clone(), input, reads_dims: false, reads, ranges }
    }

    /// The read of a rank-1 bound tensor, when `p` is one.
    fn read_bound(p: &SliceParam, side: Side, scope: &mut Scope, node_position: usize, reads: &mut Vec<BoundRead>)
        requires
            old(scope).wf(),
        ensures
            final(scope).wf(),
            ({
                let (next, added) = read_of(*p, side, old(scope)@, node_position);
                final(scope)@ == next && final(reads)@.map_values(|r: BoundRead| r@)
                    == old(reads)@.map_values(|r: BoundRead| r@) + added
            }),
    {
        if let SliceParam::Runtime(Type::Tensor(t)) = p {
            if t.rank == 1 {
                let mode = scope.consume(&t.name, node_position);
                reads.push(BoundRead { side, tensor: ValueUse { name: t.name.clone(), mode } });
                assert(reads@.map_values(|r: BoundRead| r@) =~= old(reads)@.map_values(
                    |r: BoundRead| r@,
                ) + seq![(side, (t.name@, mode))]);
                return;
            }
        }
        assert(reads@.map_values(|r: BoundRead| r@) =~= old(reads)@.map_values(|r: BoundRead| r@)
            + Seq::<(Side, (Seq<char>, AccessMode))>::empty());
    }

    fn vector_range_list(&self, rank: usize) -> (r: Vec<AxisRange>)
        ensures
            r@.map_values(|r: AxisRange| r@) == vector_ranges(*self, rank),
    {
        let mut ranges: Vec<AxisRange> = Vec::new();
        let mut i: usize = 0;
        match &self.axes {
            Some(SliceParam::Static(axes)) => {
                let mut cursor: usize = 0;
                while i < rank
                    invariant
                        self.axes == Some(SliceParam::Static(*axes)),
                        i <= rank,
                        cursor <= i,
                        cursor as int == listed_below(axes@, i as int),
                        ranges@.len() == i,
                        forall|j: int| 0 <= j < i ==> ranges@[j]@ == vector_range(*self, j),
                    decreases rank - i,
                {
                    if contains_axis(axes, i) {
                        ranges.push(
                            AxisRange::Span(
                                start_at_of(&self.starts, cursor),
                                end_at_of(&self.ends, cursor, i),
                            ),
                        );
                        cursor = cursor + 1;
                    } else {
                        ranges.push(AxisRange::Full);
                    }
                    i = i + 1;
                }
            },
            _ => {
                while i < rank
                    invariant
                        !(self.axes matches Some(SliceParam::Static(_))),
                        i <= rank,
                        ranges@.len() == i,
                        forall|j: int| 0 <= j < i ==> ranges@[j]@ == vector_range(*self, j),
                    decreases rank - i,
                {
                    ranges.push(AxisRange::Span(start_at_of(&self.starts, i), end_at_of(&self.ends, i, i)));
                    i = i + 1;
                }
            },
        }
        assert(ranges@.map_values(|r: AxisRange| r@) =~= vector_ranges(*self, rank));
        ranges
    }

    fn generate_1d_tensor_slice(&self, input: ValueUse, scope: &mut Scope, node_position: usize, rank: usize) -> (r: Fragment)
        requires
            old(scope).wf(),
        ensures
            final(scope).wf(),
            ({
                let (s2, first) = read_of(self.starts, Side::Start, old(scope)@, node_position);
                let (s3, second) = read_of(self.ends, Side::End, s2, node_position);
                final(scope)@ == s3 && r@ == FragmentView::Tensor {
                    output: self.output@.name(),
                    input: input@,
                    reads_dims: true,
                    reads: first + second,
                    ranges: vector_ranges(*self, rank),
                }
            }),
    {
        let mut reads: Vec<BoundRead> = Vec::new();
        assert(reads@.map_values(|r: BoundRead| r@) =~= Seq::<(Side, (Seq<char>, AccessMode))>::empty());
        Self::read_bound(&self.starts, Side::Start, scope, node_position, &mut reads);
        Self::read_bound(&self.ends, Side::End, scope, node_position, &mut reads);
        let ranges = self.vector_range_list(rank);
        Fragment::Tensor {
            output: self.output.name().clone(),
            input,
            reads_dims: true,
            reads,
            ranges,
        }
    }

    fn generate_shape_slice(&self, shape: &ShapeType) -> (r: Fragment)
        requires
            self.input is Shape,
            self.input->Shape_0 == *shape,
            slice_error(*self) is None,
        ensures
            r@ == shape_lowering(*self, shape.name@, shape.rank),
    {
        let output = self.output.name().clone();
        let len = match &self.output {
            Type::Shape(o) => o.rank,
            _ => 0,
        };
        match (&self.starts, &self.ends) {
            (SliceParam::Static(a), SliceParam::Static(b)) => {
                if a.len() == 1 && b.len() == 1 {
                    let s = a[0];
                    let e = b[0];
                    if is_last(s, e, shape.rank) {
                        return Fragment::ShapeLast { output, shape: shape.name.clone() };
                    } else if s < 0 || e < 0 {
                        return Fragment::ShapeFixed {
                            output,
                            shape: shape.name.clone(),
                            start: normalize(s, shape.rank),
                            end: normalize(e, shape.rank),
                            len,
                        };
                    } else {
                        let end: u64 = if e == i64::MAX {
                            shape.rank as u64
                        } else {
                            e as u64
                        };
                        return Fragment::ShapeSpan {
                            output,
                            shape: shape.name.clone(),
                            start: s as u64,
                            end,
                            shape_len: shape.rank,
                            len,
                        };
                    }
                }
            },
            _ => {},
        }
        let (start_expr, end_expr) = self.get_slice_range_expressions();
        Fragment::ShapeRuntime {
            output,
            shape: shape.name.clone(),
            start_expr,
            end_expr,
            shape_len: shape.rank,
            len,
        }
    }

    /// Lowers the node, as the node at `node_position`, into a code
    /// fragment. Each input tensor that the fragment uses is taken from
    /// `scope`: moved on its last use, cloned before. A node that cannot be
    /// lowered is reported, and `scope` is left as it was.
    pub fn generate_slice(&self, scope: &mut Scope, node_position: usize) -> (r: Result<Fragment, SliceError>)
        requires
            old(scope).wf(),
        ensures
            final(scope).wf(),
            match r {
                Ok(f) => slice_error(*self) is None && (f@, final(scope)@) == lowering(
                    *self,
                    old(scope)@,
                    node_position,
                ),
                Err(e) => slice_error(*self) == Some(e) && final(scope)@ == old(scope)@,
            },
    {
        if let Some(e) = self.validate() {
            return Err(e);
        }
        match &self.input {
            Type::Tensor(t) => Ok(self.generate_tensor_slice(t, scope, node_position)),
            Type::Shape(s) => Ok(self.generate_shape_slice(s)),
            Type::Scalar(_) => Err(SliceError::UnsupportedInputKind),
        }
    }

    /// Lowers the node into the text of Rust source; see `generate_slice`.
    pub fn forward(&self, scope: &mut Scope, node_position: usize) -> (r: Result<String, SliceError>)
        requires
            old(scope).wf(),
        ensures
            final(scope).wf(),
            match r {
                Ok(code) => slice_error(*self) is None && code@ == fragment_text(
                    lowering(*self, old(scope)@, node_position).0,
                ) && final(scope)@ == lowering(*self, old(scope)@, node_position).1,
                Err(e) => slice_error(*self) == Some(e) && final(scope)@ == old(scope)@,
            },
    {
        match self.generate_slice(scope, node_position) {
            Ok(f) => Ok(f.to_code()),
            Err(e) => Err(e),
        }
    }

    /// The values the node declares: its output.
    pub fn output_types(&self) -> (r: Vec<Type>)
        ensures
            r@.map_values(|t: Type| t@) == seq![self.output@],
    {
        let mut r: Vec<Type> = Vec::new();
        r.push(self.output.clone());
        assert(r@.map_values(|t: Type| t@) =~= seq![self.output@]);
        r
    }

    /// The values the node reads: its input, then the runtime start list,
    /// then the runtime end list.
    pub fn input_types(&self) -> (r: Vec<Type>)
        ensures
            r@.map_values(|t: Type| t@) == input_views(*self),
    {
        let mut r: Vec<Type> = Vec::new();
        r.push(self.input.clone());
        assert(r@.map_values(|t: Type| t@) =~= seq![self.input@]);
        if let SliceParam::Runtime(t) = &self.starts {
            r.push(t.clone());
        }
        assert(r@.map_values(|t: Type| t@) =~= seq![self.input@] + runtime_input(self.starts));
        if let SliceParam::Runtime(t) = &self.ends {
            r.push(t.clone());
        }
        assert(r@.map_values(|t: Type| t@) =~= input_views(*self));
        r
    }

    /// Appends the paths that the emitted code needs in scope.
    pub fn register_imports(&self, imports: &mut Vec<String>)
        ensures
            final(imports)@.map_values(|s: String| s@) == old(imports)@.map_values(|s: String| s@)
                + import_paths(*self),
    {
        let ghost before = imports@.map_values(|s: String| s@);
        imports.push("burn::tensor::s".to_owned());
        let ghost mid = imports@.map_values(|s: String| s@);
        assert(mid =~= before + seq!["burn::tensor::s"@]);
        if is_vector_param(&self.starts) || is_vector_param(&self.ends) {
            imports.push("burn::tensor::Int".to_owned());
        }
        let ghost mid2 = imports@.map_values(|s: String| s@);
        assert(mid2 =~= mid + (if is_vector(self.starts) || is_vector(self.ends) {
            seq!["burn::tensor::Int"@]
        } else {
            Seq::empty()
        }));
        if matches!(self.input, Type::Shape(_)) {
            imports.push("burn::tensor::RangesArg".to_owned());
        }
        assert(imports@.map_values(|s: String| s@) =~= mid2 + (if self.input is Shape {
            seq!["burn::tensor::RangesArg"@]
        } else {
            Seq::empty()
        }));
    }
}

pub open spec fn runtime_input(p: SliceParam) -> Seq<TypeView> {
    match p {
        SliceParam::Runtime(t) => seq![t@],
        _ => Seq::empty(),
    }
}

/// The input, then each runtime bound list.
pub open spec fn input_views(n: SliceNode) -> Seq<TypeView> {
    seq![n.input@] + runtime_input(n.starts) + runtime_input(n.ends)
}

/// The paths the emitted code needs: the slice macro always, the integer
/// tensor kind for runtime bound tensors, range conversion for shapes.
pub open spec fn import_paths(n: SliceNode) -> Seq<Seq<char>> {
    seq!["burn::tensor::s"@] + (if is_vector(n.starts) || is_vector(n.ends) {
        seq!["burn::tensor::Int"@]
    } else {
        Seq::empty()
    }) + (if n.input is Shape {
        seq!["burn::tensor::RangesArg"@]
    } else {
        Seq::empty()
    })
}

} // verus!
