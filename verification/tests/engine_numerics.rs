// Tests of the numeric collaborators the library's callers lean on: the
// softmax normalization and the serialized weight format must behave as the
// library's contracts assume.

use easy_ml::linear_algebra;
use easy_ml::matrices::Matrix;
use mbti_net::network::OUTPUT_LAYER_SIZE;

#[test]
fn softmax_over_16_logits_is_a_probability_distribution() {
    let logits: Vec<f64> = vec![
        -3.0, 0.5, 2.25, -0.125, 1.0, 0.0, 4.5, -2.75, 0.75, 3.125, -1.5, 0.25, 2.0, -0.5, 1.75,
        0.125,
    ];
    assert_eq!(logits.len(), OUTPUT_LAYER_SIZE);
    let probabilities = linear_algebra::softmax(logits.into_iter());
    assert_eq!(probabilities.len(), OUTPUT_LAYER_SIZE);
    let sum: f64 = probabilities.iter().sum();
    assert!((sum - 1.0).abs() < 1e-9);
    for &p in probabilities.iter() {
        assert!((0.0..=1.0).contains(&p));
    }
}

#[test]
fn softmax_of_uniform_logits_is_uniform() {
    let probabilities = linear_algebra::softmax(vec![0.0f64; 16].into_iter());
    for &p in probabilities.iter() {
        assert!((p - 1.0 / 16.0).abs() < 1e-12);
    }
}

#[test]
fn serialized_weights_round_trip_bit_for_bit() {
    let matrices: Vec<Matrix<f64>> = vec![
        Matrix::from_flat_row_major((2, 3), vec![0.1, -0.2, 0.3, 1.0e-300, -1.5, 0.0]),
        Matrix::from_flat_row_major((1, 4), vec![f64::MIN_POSITIVE, 0.96875, -0.32, 2.5]),
    ];
    let json = serde_json::to_string(&matrices).unwrap();
    let back: Vec<Matrix<f64>> = serde_json::from_str(&json).unwrap();
    assert_eq!(back.len(), matrices.len());
    for (a, b) in matrices.iter().zip(back.iter()) {
        assert_eq!(a.size(), b.size());
        for (x, y) in a.row_major_iter().zip(b.row_major_iter()) {
            assert_eq!(x.to_bits(), y.to_bits());
        }
    }
}

#[test]
fn malformed_serialized_weights_fail_to_parse() {
    let broken = "{\"data\":[1.0,2.0],\"rows\":2}";
    assert!(serde_json::from_str::<Matrix<f64>>(broken).is_err());
}
