//! The code that a lowering emits: a structured fragment, what its text is,
//! and the function that writes that text.
use crate::literal::{i64_suffixed, i64_unsuffixed, int_text, u64_unsuffixed, usize_unsuffixed};
use crate::scope::AccessMode;
use vstd::prelude::*;
use vstd::string::StringExecFns;

verus! {

/// An index expression of generated code.
#[derive(Debug)]
pub enum Bound {
    /// An integer literal: `3`.
    Literal(i64),
    /// A scalar value of the graph: `start`.
    Scalar(String),
    /// One entry of a shape value: `start_shape[0]`.
    ShapeElem(String, usize),
    /// A literal taken as an index: `3i64 as usize`.
    Cast(i64),
    /// Entry `k` of a start list, or `0` when the list is shorter:
    /// `start_vec.get(k).map(|&s| s as usize).unwrap_or(0)`. The list is the
    /// runtime `start_vec` (`None`) or a literal `alloc::vec![..]`.
    StartLookup(Option<Vec<i64>>, usize),
    /// Entry `k` of an end list, or the input's extent along axis `i` when
    /// the list is shorter:
    /// `end_vec.get(k).map(|&e| e as usize).unwrap_or(input_dims[i])`.
    EndLookup(Option<Vec<i64>>, usize, usize),
}

pub enum BoundView {
    Literal(i64),
    Scalar(Seq<char>),
    ShapeElem(Seq<char>, usize),
    Cast(i64),
    StartLookup(Option<Seq<i64>>, usize),
    EndLookup(Option<Seq<i64>>, usize, usize),
}

pub open spec fn list_view(l: Option<Vec<i64>>) -> Option<Seq<i64>> {
    match l {
        Some(v) => Some(v@),
        None => None,
    }
}

impl View for Bound {
    type V = BoundView;

    open spec fn view(&self) -> BoundView {
        match self {
            Bound::Literal(v) => BoundView::Literal(*v),
            Bound::Scalar(n) => BoundView::Scalar(n@),
            Bound::ShapeElem(n, i) => BoundView::ShapeElem(n@, *i),
            Bound::Cast(v) => BoundView::Cast(*v),
            Bound::StartLookup(l, k) => BoundView::StartLookup(list_view(*l), *k),
            Bound::EndLookup(l, k, i) => BoundView::EndLookup(list_view(*l), *k, *i),
        }
    }
}

/// The range taken along one axis.
#[derive(Debug)]
pub enum AxisRange {
    /// The whole axis: `..`.
    Full,
    /// `start..end`.
    Span(Bound, Bound),
}

pub enum RangeView {
    Full,
    Span(BoundView, BoundView),
}

impl View for AxisRange {
    type V = RangeView;

    open spec fn view(&self) -> RangeView {
        match self {
            AxisRange::Full => RangeView::Full,
            AxisRange::Span(a, b) => RangeView::Span(a@, b@),
        }
    }
}

/// A use of an input value: moved (`name`) or cloned (`name.clone()`).
#[derive(Debug)]
pub struct ValueUse {
    pub name: String,
    pub mode: AccessMode,
}

impl View for ValueUse {
    type V = (Seq<char>, AccessMode);

    open spec fn view(&self) -> (Seq<char>, AccessMode) {
        (self.name@, self.mode)
    }
}

/// Which bound list a runtime read fills.
#[derive(Debug, Clone, Copy, PartialEq, Eq, Structural)]
pub enum Side {
    Start,
    End,
}

/// Statements that read a rank-1 integer tensor into `start_vec` or
/// `end_vec`.
#[derive(Debug)]
pub struct BoundRead {
    pub side: Side,
    pub tensor: ValueUse,
}

impl View for BoundRead {
    type V = (Side, (Seq<char>, AccessMode));

    open spec fn view(&self) -> (Side, (Seq<char>, AccessMode)) {
        (self.side, self.tensor@)
    }
}

/// The code emitted for one slice node.
#[derive(Debug)]
pub enum Fragment {
    /// `let output = input.slice(s![ranges]);`, preceded, when `reads_dims`
    /// holds, by `let input_dims = input.dims();` and the bound reads.
    Tensor {
        output: String,
        input: ValueUse,
        reads_dims: bool,
        reads: Vec<BoundRead>,
        ranges: Vec<AxisRange>,
    },
    /// `let output: [i64; 1] = [shape[shape.len() - 1]];`
    ShapeLast { output: String, shape: String },
    /// `let output: [i64; len] = shape[start..end].try_into().unwrap();`
    ShapeFixed { output: String, shape: String, start: u64, end: u64, len: usize },
    /// `let output: [i64; len] =
    /// shape[s![start..end].into_ranges([shape_len].into())[0].clone()].try_into().unwrap();`
    ShapeSpan {
        output: String,
        shape: String,
        start: u64,
        end: u64,
        shape_len: usize,
        len: usize,
    },
    /// Both bounds evaluated at run time, each negative one counted from
    /// `shape_len` and clamped at zero, then
    /// `let output: [i64; len] = shape[_start.._end].try_into().unwrap();`
    ShapeRuntime {
        output: String,
        shape: String,
        start_expr: Bound,
        end_expr: Bound,
        shape_len: usize,
        len: usize,
    },
}

pub enum FragmentView {
    Tensor {
        output: Seq<char>,
        input: (Seq<char>, AccessMode),
        reads_dims: bool,
        reads: Seq<(Side, (Seq<char>, AccessMode))>,
        ranges: Seq<RangeView>,
    },
    ShapeLast { output: Seq<char>, shape: Seq<char> },
    ShapeFixed { output: Seq<char>, shape: Seq<char>, start: u64, end: u64, len: usize },
    ShapeSpan {
        output: Seq<char>,
        shape: Seq<char>,
        start: u64,
        end: u64,
        shape_len: usize,
        len: usize,
    },
    ShapeRuntime {
        output: Seq<char>,
        shape: Seq<char>,
        start_expr: BoundView,
        end_expr: BoundView,
        shape_len: usize,
        len: usize,
    },
}

impl View for Fragment {
    type V = FragmentView;

    open spec fn view(&self) -> FragmentView {
        match self {
            Fragment::Tensor { output, input, reads_dims, reads, ranges } => FragmentView::Tensor {
                output: output@,
                input: input@,
                reads_dims: *reads_dims,
                reads: reads@.map_values(|r: BoundRead| r@),
                ranges: ranges@.map_values(|r: AxisRange| r@),
            },
            Fragment::ShapeLast { output, shape } => FragmentView::ShapeLast {
                output: output@,
                shape: shape@,
            },
            Fragment::ShapeFixed { output, shape, start, end, len } => FragmentView::ShapeFixed {
                output: output@,
                shape: shape@,
                start: *start,
                end: *end,
                len: *len,
            },
            Fragment::ShapeSpan { output, shape, start, end, shape_len, len } =>
                FragmentView::ShapeSpan {
                output: output@,
                shape: shape@,
                start: *start,
                end: *end,
                shape_len: *shape_len,
                len: *len,
            },
            Fragment::ShapeRuntime { output, shape, start_expr, end_expr, shape_len, len } =>
                FragmentView::ShapeRuntime {
                output: output@,
                shape: shape@,
                start_expr: start_expr@,
                end_expr: end_expr@,
                shape_len: *shape_len,
                len: *len,
            },
        }
    }
}

// The text of each piece.

pub open spec fn use_text(u: (Seq<char>, AccessMode)) -> Seq<char> {
    match u.1 {
        AccessMode::ByValue => u.0,
        AccessMode::ByReference => u.0 + ".clone()"@,
    }
}

/// `a0i64, a1i64, ...`
pub open spec fn items_text(l: Seq<i64>) -> Seq<char>
    decreases l.len(),
{
    if l.len() == 0 {
        Seq::empty()
    } else if l.len() == 1 {
        int_text(l[0] as int) + "i64"@
    } else {
        items_text(l.drop_last()) + ", "@ + int_text(l.last() as int) + "i64"@
    }
}

pub open spec fn list_text(l: Option<Seq<i64>>, runtime: Seq<char>) -> Seq<char> {
    match l {
        Some(items) => "alloc::vec!["@ + items_text(items) + "]"@,
        None => runtime,
    }
}

pub open spec fn bound_text(b: BoundView) -> Seq<char> {
    match b {
        BoundView::Literal(v) => int_text(v as int),
        BoundView::Scalar(n) => n,
        BoundView::ShapeElem(n, i) => n + "["@ + int_text(i as int) + "]"@,
        BoundView::Cast(v) => int_text(v as int) + "i64 as usize"@,
        BoundView::StartLookup(l, k) => list_text(l, "start_vec"@) + ".get("@ + int_text(k as int)
            + ").map(|&s| s as usize).unwrap_or(0)"@,
        BoundView::EndLookup(l, k, i) => list_text(l, "end_vec"@) + ".get("@ + int_text(k as int)
            + ").map(|&e| e as usize).unwrap_or(input_dims["@ + int_text(i as int) + "])"@,
    }
}

pub open spec fn range_text(r: RangeView) -> Seq<char> {
    match r {
        RangeView::Full => ".."@,
        RangeView::Span(a, b) => bound_text(a) + ".."@ + bound_text(b),
    }
}

/// The ranges, separated by commas.
pub open spec fn ranges_text(rs: Seq<RangeView>) -> Seq<char>
    decreases rs.len(),
{
    if rs.len() == 0 {
        Seq::empty()
    } else if rs.len() == 1 {
        range_text(rs[0])
    } else {
        ranges_text(rs.drop_last()) + ", "@ + range_text(rs.last())
    }
}

pub open spec fn read_text(r: (Side, (Seq<char>, AccessMode))) -> Seq<char> {
    match r.0 {
        Side::Start => "let start_data = "@ + use_text(r.1)
            + ".to_data(); let start_vec: alloc::vec::Vec<i64> = start_data.iter::<i64>().collect(); "@,
        Side::End => "let end_data = "@ + use_text(r.1)
            + ".to_data(); let end_vec: alloc::vec::Vec<i64> = end_data.iter::<i64>().collect(); "@,
    }
}

pub open spec fn reads_text(rs: Seq<(Side, (Seq<char>, AccessMode))>) -> Seq<char>
    decreases rs.len(),
{
    if rs.len() == 0 {
        Seq::empty()
    } else {
        reads_text(rs.drop_last()) + read_text(rs.last())
    }
}

/// `let _start = if _start_val < 0 { (Ni64 + _start_val).max(0) as usize } else { _start_val as usize }; `
pub open spec fn normalize_text(var: Seq<char>, shape_len: usize) -> Seq<char> {
    "let "@ + var + " = if "@ + var + "_val < 0 { ("@ + int_text(shape_len as int) + "i64 + "@ + var
        + "_val).max(0) as usize } else { "@ + var + "_val as usize }; "@
}

pub open spec fn array_head(output: Seq<char>, len: usize) -> Seq<char> {
    "let "@ + output + ": [i64; "@ + int_text(len as int) + "] = "@
}

/// The text of a fragment.
pub open spec fn fragment_text(f: FragmentView) -> Seq<char> {
    match f {
        FragmentView::Tensor { output, input, reads_dims, reads, ranges } => (if reads_dims {
            "let input_dims = "@ + use_text(input) + ".dims(); "@
        } else {
            Seq::empty()
        }) + reads_text(reads) + "let "@ + output + " = "@ + use_text(input) + ".slice(s!["@
            + ranges_text(ranges) + "]);"@,
        FragmentView::ShapeLast { output, shape } => "let "@ + output + ": [i64; 1] = ["@ + shape
            + "["@ + shape + ".len() - 1]];"@,
        FragmentView::ShapeFixed { output, shape, start, end, len } => array_head(output, len)
            + shape + "["@ + int_text(start as int) + ".."@ + int_text(end as int)
            + "].try_into().unwrap();"@,
        FragmentView::ShapeSpan { output, shape, start, end, shape_len, len } => array_head(
            output,
            len,
        ) + shape + "[s!["@ + int_text(start as int) + ".."@ + int_text(end as int)
            + "].into_ranges(["@ + int_text(shape_len as int) + "].into())[0].clone()].try_into().unwrap();"@,
        FragmentView::ShapeRuntime { output, shape, start_expr, end_expr, shape_len, len } =>
            "let _start_val = "@ + bound_text(start_expr) + " as i64; let _end_val = "@
            + bound_text(end_expr) + " as i64; "@ + normalize_text("_start"@, shape_len)
            + normalize_text("_end"@, shape_len) + array_head(output, len) + shape
            + "[_start.._end].try_into().unwrap();"@,
    }
}

// Writing the text.

fn put(out: &mut String, s: &str)
    ensures
        final(out)@ == old(out)@ + s@,
{
    out.append(s);
}

fn put_string(out: &mut String, s: String)
    ensures
        final(out)@ == old(out)@ + s@,
{
    out.append(s.as_str());
}

fn write_use(out: &mut String, u: &ValueUse)
    ensures
        final(out)@ =~= old(out)@ + use_text(u@),
{
    put(out, u.name.as_str());
    match u.mode {
        AccessMode::ByValue => {},
        AccessMode::ByReference => put(out, ".clone()"),
    }
}

fn write_items(out: &mut String, l: &Vec<i64>)
    ensures
        final(out)@ =~= old(out)@ + items_text(l@),
{
    let ghost start = out@;
    let mut i: usize = 0;
    while i < l.len()
        invariant
            i <= l@.len(),
            out@ =~= start + items_text(l@.subrange(0, i as int)),
        decreases l@.len() - i,
    {
        let ghost before = out@;
        if i > 0 {
            put(out, ", ");
        }
        put_string(out, i64_suffixed(l[i]));
        let ghost next = l@.subrange(0, i + 1);
        assert(next.drop_last() =~= l@.subrange(0, i as int));
        assert(next.last() == l@[i as int]);
        if i == 0 {
            assert(next.len() == 1);
            assert(next[0] == l@[0]);
            assert(items_text(l@.subrange(0, 0)) =~= Seq::<char>::empty());
        }
        i = i + 1;
    }
    assert(l@.subrange(0, l@.len() as int) =~= l@);
}

fn write_list(out: &mut String, l: &Option<Vec<i64>>, runtime: &str)
    ensures
        final(out)@ =~= old(out)@ + list_text(list_view(*l), runtime@),
{
    match l {
        Some(items) => {
            put(out, "alloc::vec![");
            write_items(out, items);
            put(out, "]");
        },
        None => put(out, runtime),
    }
}

fn write_bound(out: &mut String, b: &Bound)
    ensures
        final(out)@ =~= old(out)@ + bound_text(b@),
{
    match b {
        Bound::Literal(v) => put_string(out, i64_unsuffixed(*v)),
        Bound::Scalar(n) => put(out, n.as_str()),
        Bound::ShapeElem(n, i) => {
            put(out, n.as_str());
            put(out, "[");
            put_string(out, usize_unsuffixed(*i));
            put(out, "]");
        },
        Bound::Cast(v) => {
            put_string(out, i64_unsuffixed(*v));
            put(out, "i64 as usize");
        },
        Bound::StartLookup(l, k) => {
            write_list(out, l, "start_vec");
            put(out, ".get(");
            put_string(out, usize_unsuffixed(*k));
            put(out, ").map(|&s| s as usize).unwrap_or(0)");
        },
        Bound::EndLookup(l, k, i) => {
            write_list(out, l, "end_vec");
            put(out, ".get(");
            put_string(out, usize_unsuffixed(*k));
            put(out, ").map(|&e| e as usize).unwrap_or(input_dims[");
            put_string(out, usize_unsuffixed(*i));
            put(out, "])");
        },
    }
}

fn write_range(out: &mut String, r: &AxisRange)
    ensures
        final(out)@ =~= old(out)@ + range_text(r@),
{
    match r {
        AxisRange::Full => put(out, ".."),
        AxisRange::Span(a, b) => {
            write_bound(out, a);
            put(out, "..");
            write_bound(out, b);
        },
    }
}

fn write_ranges(out: &mut String, rs: &Vec<AxisRange>)
    ensures
        final(out)@ =~= old(out)@ + ranges_text(rs@.map_values(|r: AxisRange| r@)),
{
    let ghost start = out@;
    let ghost all = rs@.map_values(|r: AxisRange| r@);
    let mut i: usize = 0;
    while i < rs.len()
        invariant
            i <= rs@.len(),
            all == rs@.map_values(|r: AxisRange| r@),
            out@ =~= start + ranges_text(all.subrange(0, i as int)),
        decreases rs@.len() - i,
    {
        if i > 0 {
            put(out, ", ");
        }
        write_range(out, &rs[i]);
        let ghost next = all.subrange(0, i + 1);
        assert(next.drop_last() =~= all.subrange(0, i as int));
        assert(next.last() == rs@[i as int]@);
        if i == 0 {
            assert(next.len() == 1);
            assert(next[0] == rs@[0]@);
            assert(ranges_text(all.subrange(0, 0)) =~= Seq::<char>::empty());
        }
        i = i + 1;
    }
    assert(all.subrange(0, rs@.len() as int) =~= all);
}

fn write_reads(out: &mut String, rs: &Vec<BoundRead>)
    ensures
        final(out)@ =~= old(out)@ + reads_text(rs@.map_values(|r: BoundRead| r@)),
{
    let ghost start = out@;
    let ghost all = rs@.map_values(|r: BoundRead| r@);
    let mut i: usize = 0;
    while i < rs.len()
        invariant
            i <= rs@.len(),
            all == rs@.map_values(|r: BoundRead| r@),
            out@ =~= start + reads_text(all.subrange(0, i as int)),
        decreases rs@.len() - i,
    {
        let r = &rs[i];
        match r.side {
            Side::Start => {
                put(out, "let start_data = ");
                write_use(out, &r.tensor);
                put(
                    out,
                    ".to_data(); let start_vec: alloc::vec::Vec<i64> = start_data.iter::<i64>().collect(); ",
                );
            },
            Side::End => {
                put(out, "let end_data = ");
                write_use(out, &r.tensor);
                put(
                    out,
                    ".to_data(); let end_vec: alloc::vec::Vec<i64> = end_data.iter::<i64>().collect(); ",
                );
            },
        }
        let ghost next = all.subrange(0, i + 1);
        assert(next.drop_last() =~= all.subrange(0, i as int));
        assert(next.last() == rs@[i as int]@);
        i = i + 1;
    }
    assert(all.subrange(0, rs@.len() as int) =~= all);
}

fn write_normalize(out: &mut String, var: &str, shape_len: usize)
    ensures
        final(out)@ =~= old(out)@ + normalize_text(var@, shape_len),
{
    put(out, "let ");
    put(out, var);
    put(out, " = if ");
    put(out, var);
    put(out, "_val < 0 { (");
    put_string(out, usize_unsuffixed(shape_len));
    put(out, "i64 + ");
    put(out, var);
    put(out, "_val).max(0) as usize } else { ");
    put(out, var);
    put(out, "_val as usize }; ");
}

fn write_array_head(out: &mut String, output: &String, len: usize)
    ensures
        final(out)@ =~= old(out)@ + array_head(output@, len),
{
    put(out, "let ");
    put(out, output.as_str());
    put(out, ": [i64; ");
    put_string(out, usize_unsuffixed(len));
    put(out, "] = ");
}

impl Fragment {
    /// The text of the fragment, as Rust source.
    pub fn to_code(&self) -> (r: String)
        ensures
            r@ =~= fragment_text(self@),
    {
        let mut out = String::new();
        match self {
            Fragment::Tensor { output, input, reads_dims, reads, ranges } => {
                if *reads_dims {
                    put(&mut out, "let input_dims = ");
                    write_use(&mut out, input);
                    put(&mut out, ".dims(); ");
                }
                write_reads(&mut out, reads);
                put(&mut out, "let ");
                put(&mut out, output.as_str());
                put(&mut out, " = ");
                write_use(&mut out, input);
                put(&mut out, ".slice(s![");
                write_ranges(&mut out, ranges);
                put(&mut out, "]);");
            },
            Fragment::ShapeLast { output, shape } => {
                put(&mut out, "let ");
                put(&mut out, output.as_str());
                put(&mut out, ": [i64; 1] = [");
                put(&mut out, shape.as_str());
                put(&mut out, "[");
                put(&mut out, shape.as_str());
                put(&mut out, ".len() - 1]];");
            },
            Fragment::ShapeFixed { output, shape, start, end, len } => {
                write_array_head(&mut out, output, *len);
                put(&mut out, shape.as_str());
                put(&mut out, "[");
                put_string(&mut out, u64_unsuffixed(*start));
                put(&mut out, "..");
                put_string(&mut out, u64_unsuffixed(*end));
                put(&mut out, "].try_into().unwrap();");
            },
            Fragment::ShapeSpan { output, shape, start, end, shape_len, len } => {
                write_array_head(&mut out, output, *len);
                put(&mut out, shape.as_str());
                put(&mut out, "[s![");
                put_string(&mut out, u64_unsuffixed(*start));
                put(&mut out, "..");
                put_string(&mut out, u64_unsuffixed(*end));
                put(&mut out, "].into_ranges([");
                put_string(&mut out, usize_unsuffixed(*shape_len));
                put(&mut out, "].into())[0].clone()].try_into().unwrap();");
            },
            Fragment::ShapeRuntime { output, shape, start_expr, end_expr, shape_len, len } => {
                put(&mut out, "let _start_val = ");
                write_bound(&mut out, start_expr);
                put(&mut out, " as i64; let _end_val = ");
                write_bound(&mut out, end_expr);
                put(&mut out, " as i64; ");
                write_normalize(&mut out, "_start", *shape_len);
                write_normalize(&mut out, "_end", *shape_len);
                write_array_head(&mut out, output, *len);
                put(&mut out, shape.as_str());
                put(&mut out, "[_start.._end].try_into().unwrap();");
            },
        }
        out
    }
}

} // verus!
