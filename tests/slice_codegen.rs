use slice_lowering::{
    ScalarKind, ScalarType, Scope, ShapeType, SliceNode, SliceParam,
    TensorType, Type,
};

fn tokens(code: &str) -> String {
    code.parse::<proc_macro2::TokenStream>().unwrap().to_string()
}

/// A scope in which each named value is produced at position 0 and used
/// once, by the node at position 1.
fn scope_with(names: &[&str]) -> Scope {
    let mut scope = Scope::new();
    for name in names {
        let name = name.to_string();
        scope.register_variable(&name, 0);
        assert!(scope.register_future_use(&name, 1));
    }
    scope
}

fn lower(node: &SliceNode, names: &[&str]) -> String {
    let mut scope = scope_with(names);
    node.forward(&mut scope, 1).unwrap()
}

fn assert_code(node: &SliceNode, names: &[&str], expected: &str) {
    assert_eq!(tokens(&lower(node, names)), tokens(expected));
}

fn scalar(name: &str) -> Type {
    Type::Scalar(ScalarType::new(name, ScalarKind::Int64))
}

#[test]
fn test_codegen_slice_tensor_static() {
    let node = SliceNode::new(
        Type::Tensor(TensorType::new_float("tensor1", 3)),
        Type::Tensor(TensorType::new_float("tensor2", 3)),
        SliceParam::Static(vec![0, 1, 2]),
        SliceParam::Static(vec![3, 4, 5]),
    );
    assert_code(&node, &["tensor1"], "let tensor2 = tensor1.slice(s![0..3, 1..4, 2..5]);");
}

#[test]
fn test_codegen_slice_tensor_runtime_scalars() {
    let node = SliceNode::new(
        Type::Tensor(TensorType::new_float("tensor1", 2)),
        Type::Tensor(TensorType::new_float("tensor2", 2)),
        SliceParam::Runtime(scalar("start")),
        SliceParam::Runtime(scalar("end")),
    );
    assert_code(&node, &["tensor1"], "let tensor2 = tensor1.slice(s![start..end, ..]);");
}

#[test]
fn test_codegen_slice_shape_static() {
    let node = SliceNode::new(
        Type::Shape(ShapeType::new("shape1", 4)),
        Type::Shape(ShapeType::new("shape2", 2)),
        SliceParam::Static(vec![1]),
        SliceParam::Static(vec![3]),
    );
    assert_code(
        &node,
        &[],
        "let shape2: [i64; 2] = shape1[s![1..3].into_ranges([4].into())[0].clone()].try_into().unwrap();",
    );
}

#[test]
fn test_codegen_slice_shape_runtime() {
    let node = SliceNode::new(
        Type::Shape(ShapeType::new("shape1", 4)),
        Type::Shape(ShapeType::new("shape2", 2)),
        SliceParam::Runtime(scalar("start")),
        SliceParam::Runtime(scalar("end")),
    );
    assert_code(
        &node,
        &[],
        "let _start_val = start as i64;
         let _end_val = end as i64;
         let _start = if _start_val < 0 { (4i64 + _start_val).max(0) as usize } else { _start_val as usize };
         let _end = if _end_val < 0 { (4i64 + _end_val).max(0) as usize } else { _end_val as usize };
         let shape2: [i64; 2] = shape1[_start.._end].try_into().unwrap();",
    );
}

#[test]
fn test_codegen_slice_tensor_runtime_shapes() {
    let node = SliceNode::new(
        Type::Tensor(TensorType::new_float("tensor1", 3)),
        Type::Tensor(TensorType::new_float("tensor2", 3)),
        SliceParam::Runtime(Type::Shape(ShapeType::new("start_shape", 1))),
        SliceParam::Runtime(Type::Shape(ShapeType::new("end_shape", 1))),
    );
    assert_code(
        &node,
        &["tensor1"],
        "let tensor2 = tensor1.slice(s![start_shape[0]..end_shape[0], .., ..]);",
    );
}

#[test]
fn test_codegen_slice_1d_tensor_params() {
    let node = SliceNode::new(
        Type::Tensor(TensorType::new_float("tensor1", 3)),
        Type::Tensor(TensorType::new_float("tensor2", 3)),
        SliceParam::Runtime(Type::Tensor(TensorType::new_int("starts", 1))),
        SliceParam::Runtime(Type::Tensor(TensorType::new_int("ends", 1))),
    );
    assert_code(
        &node,
        &["tensor1", "starts", "ends"],
        "let input_dims = tensor1.dims();
         let start_data = starts.to_data();
         let start_vec: alloc::vec::Vec<i64> = start_data.iter::<i64>().collect();
         let end_data = ends.to_data();
         let end_vec: alloc::vec::Vec<i64> = end_data.iter::<i64>().collect();
         let tensor2 = tensor1.slice(s![
             start_vec.get(0).map(|&s| s as usize).unwrap_or(0)..end_vec.get(0).map(|&e| e as usize).unwrap_or(input_dims[0]),
             start_vec.get(1).map(|&s| s as usize).unwrap_or(0)..end_vec.get(1).map(|&e| e as usize).unwrap_or(input_dims[1]),
             start_vec.get(2).map(|&s| s as usize).unwrap_or(0)..end_vec.get(2).map(|&e| e as usize).unwrap_or(input_dims[2])
         ]);",
    );
}

#[test]
fn test_codegen_slice_mixed_1d_tensor() {
    let node = SliceNode::new(
        Type::Tensor(TensorType::new_float("tensor1", 2)),
        Type::Tensor(TensorType::new_float("tensor2", 2)),
        SliceParam::Static(vec![0, 1]),
        SliceParam::Runtime(Type::Tensor(TensorType::new_int("ends", 1))),
    );
    assert_code(
        &node,
        &["tensor1", "ends"],
        "let input_dims = tensor1.dims();
         let end_data = ends.to_data();
         let end_vec: alloc::vec::Vec<i64> = end_data.iter::<i64>().collect();
         let tensor2 = tensor1.slice(s![
             0i64 as usize..end_vec.get(0).map(|&e| e as usize).unwrap_or(input_dims[0]),
             1i64 as usize..end_vec.get(1).map(|&e| e as usize).unwrap_or(input_dims[1])
         ]);",
    );
}
