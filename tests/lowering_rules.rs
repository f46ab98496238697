use slice_lowering::{
    AccessMode, AxisRange, Bound, Fragment, ScalarKind, ScalarType, Scope, ShapeType, SliceError,
    SliceNode, SliceParam, TensorType, Type,
};

fn norm(code: &str) -> String {
    code.parse::<proc_macro2::TokenStream>().unwrap().to_string()
}

fn shape_node(len: usize, out: usize, starts: SliceParam, ends: SliceParam) -> SliceNode {
    SliceNode::new(
        Type::Shape(ShapeType::new("shape1", len)),
        Type::Shape(ShapeType::new("shape2", out)),
        starts,
        ends,
    )
}

fn tensor_node(rank: usize, starts: SliceParam, ends: SliceParam) -> SliceNode {
    SliceNode::new(
        Type::Tensor(TensorType::new_float("tensor1", rank)),
        Type::Tensor(TensorType::new_float("tensor2", rank)),
        starts,
        ends,
    )
}

fn runtime_vector(name: &str) -> SliceParam {
    SliceParam::Runtime(Type::Tensor(TensorType::new_int(name, 1)))
}

fn code_of(node: &SliceNode) -> String {
    let mut scope = Scope::new();
    norm(&node.forward(&mut scope, 1).unwrap())
}

fn error_of(node: &SliceNode) -> SliceError {
    let mut scope = Scope::new();
    node.forward(&mut scope, 1).unwrap_err()
}

#[test]
fn static_ranges_are_literal_and_rest_open() {
    let node = tensor_node(4, SliceParam::Static(vec![1, 0, 2]), SliceParam::Static(vec![3, 2]));
    assert_eq!(code_of(&node), norm("let tensor2 = tensor1.slice(s![1..3, 0..2, .., ..]);"));
}

#[test]
fn negative_static_literals_on_tensor() {
    let node = tensor_node(1, SliceParam::Static(vec![-3]), SliceParam::Static(vec![-1]));
    assert_eq!(code_of(&node), norm("let tensor2 = tensor1.slice(s![-3..-1]);"));
}

#[test]
fn shape_last_entry() {
    for len in [1usize, 3, 7] {
        let node = shape_node(len, 1, SliceParam::Static(vec![-1]), SliceParam::Static(vec![i64::MAX]));
        assert_eq!(code_of(&node), norm("let shape2: [i64; 1] = [shape1[shape1.len() - 1]];"));
    }
}

#[test]
fn shape_negative_bounds_normalized() {
    let node = shape_node(4, 2, SliceParam::Static(vec![-3]), SliceParam::Static(vec![-1]));
    let mut scope = Scope::new();
    match node.generate_slice(&mut scope, 1).unwrap() {
        Fragment::ShapeFixed { start, end, len, .. } => {
            assert_eq!((start, end, len), (1, 3, 2));
        }
        other => panic!("unexpected fragment {other:?}"),
    }
    assert_eq!(
        code_of(&node),
        norm("let shape2: [i64; 2] = shape1[1..3].try_into().unwrap();")
    );
}

#[test]
fn shape_negative_bound_clamped_at_zero() {
    let node = shape_node(4, 2, SliceParam::Static(vec![-9]), SliceParam::Static(vec![2]));
    assert_eq!(
        code_of(&node),
        norm("let shape2: [i64; 2] = shape1[0..2].try_into().unwrap();")
    );
}

#[test]
fn shape_open_end_uses_length() {
    let node = shape_node(5, 3, SliceParam::Static(vec![2]), SliceParam::Static(vec![i64::MAX]));
    assert_eq!(
        code_of(&node),
        norm("let shape2: [i64; 3] = shape1[s![2..5].into_ranges([5].into())[0].clone()].try_into().unwrap();")
    );
}

#[test]
fn shape_runtime_scalar_normalizes_with_length() {
    let node = shape_node(
        4,
        2,
        SliceParam::Runtime(Type::Scalar(ScalarType::new("start", ScalarKind::Int64))),
        SliceParam::Static(vec![4]),
    );
    let code = code_of(&node);
    assert!(code.contains(&norm(
        "let _start = if _start_val < 0 { (4i64 + _start_val).max(0) as usize } else { _start_val as usize };"
    )));
    assert!(code.contains(&norm("let _end_val = 4 as i64;")));
    // What the emitted normalization computes for a start of -2 on a length of 4.
    let start_val: i64 = -2;
    let start = if start_val < 0 { (4i64 + start_val).max(0) as usize } else { start_val as usize };
    assert_eq!(start, 2);
}

#[test]
fn vector_ends_with_short_static_starts() {
    let node = tensor_node(2, SliceParam::Static(vec![0, 1]), runtime_vector("ends"));
    let mut scope = Scope::new();
    match node.generate_slice(&mut scope, 1).unwrap() {
        Fragment::Tensor { ranges, reads, reads_dims, .. } => {
            assert!(reads_dims);
            assert_eq!(reads.len(), 1);
            assert_eq!(ranges.len(), 2);
            match &ranges[1] {
                AxisRange::Span(Bound::Cast(1), Bound::EndLookup(None, 1, 1)) => {}
                other => panic!("unexpected range {other:?}"),
            }
        }
        other => panic!("unexpected fragment {other:?}"),
    }
    let short = tensor_node(2, SliceParam::Static(vec![3]), runtime_vector("ends"));
    assert!(code_of(&short).contains(&norm(
        "alloc::vec![3i64].get(1).map(|&s| s as usize).unwrap_or(0)..end_vec.get(1).map(|&e| e as usize).unwrap_or(input_dims[1])"
    )));
}

#[test]
fn axis_subset_narrows_listed_axes_only() {
    let node = tensor_node(3, SliceParam::Static(vec![2, 5]), runtime_vector("ends"))
        .with_axes(SliceParam::Static(vec![0, 2]));
    assert_eq!(
        code_of(&node),
        norm(
            "let input_dims = tensor1.dims();
             let end_data = ends.to_data();
             let end_vec: alloc::vec::Vec<i64> = end_data.iter::<i64>().collect();
             let tensor2 = tensor1.slice(s![
                 2i64 as usize..end_vec.get(0).map(|&e| e as usize).unwrap_or(input_dims[0]),
                 ..,
                 5i64 as usize..end_vec.get(1).map(|&e| e as usize).unwrap_or(input_dims[2])
             ]);"
        )
    );
}

#[test]
fn lowering_twice_gives_the_same_code() {
    let node = tensor_node(2, runtime_vector("starts"), SliceParam::Static(vec![4, 4]));
    let mut scope = Scope::new();
    let name = "tensor1".to_string();
    scope.register_variable(&name, 0);
    scope.register_future_use(&name, 1);
    scope.register_future_use(&name, 2);
    let mut again = scope.clone();
    let first = node.forward(&mut scope, 1).unwrap();
    let second = node.forward(&mut again, 1).unwrap();
    assert_eq!(first, second);
    assert!(first.contains("tensor1.clone()"));
}

#[test]
fn scope_moves_on_last_use_only() {
    let mut scope = Scope::new();
    let name = "x".to_string();
    scope.register_variable(&name, 0);
    assert!(scope.register_future_use(&name, 1));
    assert!(scope.register_future_use(&name, 2));
    assert_eq!(scope.consume(&name, 1), AccessMode::ByReference);
    assert_eq!(scope.consume(&name, 2), AccessMode::ByValue);
    let unknown = "y".to_string();
    assert!(!scope.register_future_use(&unknown, 1));
    assert_eq!(scope.consume(&unknown, 1), AccessMode::ByValue);
}

#[test]
fn scope_uses_latest_declaration_before_position() {
    let mut scope = Scope::new();
    let name = "x".to_string();
    scope.register_variable(&name, 0);
    scope.register_variable(&name, 5);
    assert!(scope.register_future_use(&name, 3));
    assert!(scope.register_future_use(&name, 3));
    assert!(scope.register_future_use(&name, 6));
    assert_eq!(scope.consume(&name, 6), AccessMode::ByValue);
    assert_eq!(scope.consume(&name, 3), AccessMode::ByReference);
}

#[test]
fn error_unsupported_input_kind() {
    let node = SliceNode::new(
        Type::Scalar(ScalarType::new("x", ScalarKind::Int64)),
        Type::Scalar(ScalarType::new("y", ScalarKind::Int64)),
        SliceParam::Static(vec![0]),
        SliceParam::Static(vec![1]),
    );
    assert_eq!(error_of(&node), SliceError::UnsupportedInputKind);
}

#[test]
fn error_vector_bound_on_shape() {
    let node = shape_node(4, 2, runtime_vector("starts"), runtime_vector("ends"));
    assert_eq!(error_of(&node), SliceError::UnsupportedParameterCombination);
}

#[test]
fn error_higher_rank_tensor_bound() {
    let node = tensor_node(
        2,
        SliceParam::Runtime(Type::Tensor(TensorType::new_int("starts", 2))),
        SliceParam::Static(vec![1]),
    );
    assert_eq!(error_of(&node), SliceError::UnsupportedParameterCombination);
}

#[test]
fn error_runtime_axes_with_vector_bounds() {
    let node = tensor_node(2, runtime_vector("starts"), runtime_vector("ends"))
        .with_axes(SliceParam::Runtime(Type::Tensor(TensorType::new_int("axes", 1))));
    assert_eq!(error_of(&node), SliceError::UnsupportedParameterCombination);
}

#[test]
fn error_output_length_mismatch() {
    let node = shape_node(4, 3, SliceParam::Static(vec![1]), SliceParam::Static(vec![3]));
    assert_eq!(error_of(&node), SliceError::OutputShapeMismatch);
    let negative = shape_node(4, 1, SliceParam::Static(vec![-3]), SliceParam::Static(vec![-1]));
    assert_eq!(error_of(&negative), SliceError::OutputShapeMismatch);
}

#[test]
fn error_output_kind_mismatch() {
    let node = SliceNode::new(
        Type::Shape(ShapeType::new("shape1", 4)),
        Type::Tensor(TensorType::new_float("tensor2", 1)),
        SliceParam::Static(vec![1]),
        SliceParam::Static(vec![3]),
    );
    assert_eq!(error_of(&node), SliceError::OutputShapeMismatch);
    let tensor = SliceNode::new(
        Type::Tensor(TensorType::new_float("tensor1", 1)),
        Type::Shape(ShapeType::new("shape2", 1)),
        SliceParam::Static(vec![1]),
        SliceParam::Static(vec![3]),
    );
    assert_eq!(error_of(&tensor), SliceError::OutputShapeMismatch);
}

#[test]
fn error_leaves_scope_unchanged() {
    let node = tensor_node(2, SliceParam::Runtime(Type::Scalar(ScalarType::new("s", ScalarKind::Int64))), runtime_vector("ends"));
    let mut scope = Scope::new();
    let name = "tensor1".to_string();
    scope.register_variable(&name, 0);
    scope.register_future_use(&name, 1);
    scope.register_future_use(&name, 2);
    assert_eq!(node.forward(&mut scope, 1), Err(SliceError::UnsupportedParameterCombination));
    assert_eq!(scope.consume(&name, 1), AccessMode::ByReference);
}

#[test]
fn inputs_outputs_and_imports() {
    let node = tensor_node(2, SliceParam::Static(vec![0]), runtime_vector("ends"));
    let inputs: Vec<String> = node.input_types().iter().map(|t| t.name().clone()).collect();
    assert_eq!(inputs, vec!["tensor1".to_string(), "ends".to_string()]);
    let outputs: Vec<String> = node.output_types().iter().map(|t| t.name().clone()).collect();
    assert_eq!(outputs, vec!["tensor2".to_string()]);
    let mut imports = Vec::new();
    node.register_imports(&mut imports);
    assert_eq!(imports, vec!["burn::tensor::s".to_string(), "burn::tensor::Int".to_string()]);
    let shape = shape_node(4, 2, SliceParam::Static(vec![1]), SliceParam::Static(vec![3]));
    let mut imports = Vec::new();
    shape.register_imports(&mut imports);
    assert_eq!(imports, vec!["burn::tensor::s".to_string(), "burn::tensor::RangesArg".to_string()]);
}
