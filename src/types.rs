//! Descriptors of the named values that flow along the edges of a graph.
use vstd::prelude::*;

verus! {

/// Element kind of a tensor.
#[derive(Debug, Clone, Copy, PartialEq, Eq, Structural)]
pub enum TensorKind {
    Int,
    Float,
    Bool,
}

/// Element kind of a scalar.
#[derive(Debug, Clone, Copy, PartialEq, Eq, Structural)]
pub enum ScalarKind {
    Int32,
    Int64,
    Float32,
    Float64,
    Bool,
}

/// A tensor value: its name, its number of dimensions and its element kind.
#[derive(Debug)]
pub struct TensorType {
    pub name: String,
    pub rank: usize,
    pub kind: TensorKind,
}

/// A scalar value: its name and element kind.
#[derive(Debug)]
pub struct ScalarType {
    pub name: String,
    pub kind: ScalarKind,
}

/// A shape value: a fixed-length array of `rank` integers.
#[derive(Debug)]
pub struct ShapeType {
    pub name: String,
    pub rank: usize,
}

/// The descriptor of one named value of the graph.
#[derive(Debug)]
pub enum Type {
    Tensor(TensorType),
    Scalar(ScalarType),
    Shape(ShapeType),
}

/// What a descriptor says, with its name as a sequence of characters.
pub enum TypeView {
    Tensor { name: Seq<char>, rank: usize, kind: TensorKind },
    Scalar { name: Seq<char>, scalar_kind: ScalarKind },
    Shape { name: Seq<char>, rank: usize },
}

impl View for Type {
    type V = TypeView;

    open spec fn view(&self) -> TypeView {
        match self {
            Type::Tensor(t) => TypeView::Tensor { name: t.name@, rank: t.rank, kind: t.kind },
            Type::Scalar(s) => TypeView::Scalar { name: s.name@, scalar_kind: s.kind },
            Type::Shape(s) => TypeView::Shape { name: s.name@, rank: s.rank },
        }
    }
}

impl TensorType {
    pub fn new(name: &str, rank: usize, kind: TensorKind) -> (r: TensorType)
        ensures
            r.name@ == name@,
            r.rank == rank,
            r.kind == kind,
    {
        TensorType { name: name.to_owned(), rank, kind }
    }

    pub fn new_float(name: &str, rank: usize) -> (r: TensorType)
        ensures
            r.name@ == name@,
            r.rank == rank,
            r.kind == TensorKind::Float,
    {
        TensorType::new(name, rank, TensorKind::Float)
    }

    pub fn new_int(name: &str, rank: usize) -> (r: TensorType)
        ensures
            r.name@ == name@,
            r.rank == rank,
            r.kind == TensorKind::Int,
    {
        TensorType::new(name, rank, TensorKind::Int)
    }

    pub fn new_bool(name: &str, rank: usize) -> (r: TensorType)
        ensures
            r.name@ == name@,
            r.rank == rank,
            r.kind == TensorKind::Bool,
    {
        TensorType::new(name, rank, TensorKind::Bool)
    }
}

impl Clone for TensorType {
    fn clone(&self) -> (r: Self)
        ensures
            r.name@ == self.name@,
            r.rank == self.rank,
            r.kind == self.kind,
    {
        TensorType { name: self.name.clone(), rank: self.rank, kind: self.kind }
    }
}

impl ScalarType {
    pub fn new(name: &str, kind: ScalarKind) -> (r: ScalarType)
        ensures
            r.name@ == name@,
            r.kind == kind,
    {
        ScalarType { name: name.to_owned(), kind }
    }
}

impl Clone for ScalarType {
    fn clone(&self) -> (r: Self)
        ensures
            r.name@ == self.name@,
            r.kind == self.kind,
    {
        ScalarType { name: self.name.clone(), kind: self.kind }
    }
}

impl ShapeType {
    pub fn new(name: &str, rank: usize) -> (r: ShapeType)
        ensures
            r.name@ == name@,
            r.rank == rank,
    {
        ShapeType { name: name.to_owned(), rank }
    }
}

impl Clone for ShapeType {
    fn clone(&self) -> (r: Self)
        ensures
            r.name@ == self.name@,
            r.rank == self.rank,
    {
        ShapeType { name: self.name.clone(), rank: self.rank }
    }
}

impl Clone for Type {
    fn clone(&self) -> (r: Self)
        ensures
            r@ == self@,
    {
        match self {
            Type::Tensor(t) => Type::Tensor(t.clone()),
            Type::Scalar(s) => Type::Scalar(s.clone()),
            Type::Shape(s) => Type::Shape(s.clone()),
        }
    }
}

impl Type {
    /// The name of the value.
    pub fn name(&self) -> (r: &String)
        ensures
            r@ == self@.name(),
    {
        match self {
            Type::Tensor(t) => &t.name,
            Type::Scalar(s) => &s.name,
            Type::Shape(s) => &s.name,
        }
    }
}

impl TypeView {
    pub open spec fn name(self) -> Seq<char> {
        match self {
            TypeView::Tensor { name, .. } => name,
            TypeView::Scalar { name, .. } => name,
            TypeView::Shape { name, .. } => name,
        }
    }
}

} // verus!
