use burn::backend::NdArray;
use burn::tensor::quantization::QuantScheme;
use burn::tensor::{Tensor, TensorData, Tolerance};

type TestBackend = NdArray<f32>;

#[test]
fn should_support_tanh_ops() {
    let data = TensorData::from([[0.0, 1.0, 2.0], [3.0, 4.0, 5.0]]);
    let tensor = Tensor::<TestBackend, 2>::from_data(data, &Default::default());

    let output = tensor.tanh();
    let expected = TensorData::from([[0.0, 0.761594, 0.964028], [0.995055, 0.999329, 0.999909]]);

    output
        .into_data()
        .assert_approx_eq::<f32>(&expected, Tolerance::default());
}

#[test]
fn should_support_sin_ops() {
    let tensor = Tensor::<TestBackend, 2>::from_floats(
        [[0.0, 1.0, 2.0], [3.0, 4.0, 5.0]],
        &Default::default(),
    )
    .quantize_dynamic(&QuantScheme::default());

    let output = tensor.sin();
    let expected = TensorData::from([[0.0, 0.8414, 0.9092], [0.1411, -0.7568, -0.9589]]);

    output
        .dequantize()
        .into_data()
        .assert_approx_eq::<f32>(&expected, Tolerance::absolute(1e-1));
}
