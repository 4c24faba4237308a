use mbti_net::label::MBTI;
use mbti_net::network::{
    count_correct, label_for_scores, LayerWeights, NeuralNetwork, ShapeError,
    FIRST_HIDDEN_LAYER_SIZE, OUTPUT_LAYER_SIZE, SECOND_HIDDEN_LAYER_SIZE,
};
use mbti_net::IMAGE_SIZE;

fn zero_weights() -> Vec<LayerWeights> {
    vec![
        LayerWeights {
            rows: IMAGE_SIZE,
            cols: FIRST_HIDDEN_LAYER_SIZE,
            bits: vec![0u64; IMAGE_SIZE * FIRST_HIDDEN_LAYER_SIZE],
        },
        LayerWeights {
            rows: FIRST_HIDDEN_LAYER_SIZE,
            cols: SECOND_HIDDEN_LAYER_SIZE,
            bits: vec![0u64; FIRST_HIDDEN_LAYER_SIZE * SECOND_HIDDEN_LAYER_SIZE],
        },
        LayerWeights {
            rows: SECOND_HIDDEN_LAYER_SIZE,
            cols: OUTPUT_LAYER_SIZE,
            bits: vec![0u64; SECOND_HIDDEN_LAYER_SIZE * OUTPUT_LAYER_SIZE],
        },
    ]
}

#[test]
fn valid_weights_build_a_configuration() {
    let Ok(network) = NeuralNetwork::with_weights(zero_weights(), 4) else {
        panic!("three well-shaped layers must be accepted");
    };
    assert_eq!(network.layers(), 3);
    assert_eq!(network.epochs(), 4);
    assert_eq!(network.layer(0).rows, IMAGE_SIZE);
    assert_eq!(network.layer(2).cols, OUTPUT_LAYER_SIZE);
}

#[test]
fn misshapen_weights_are_rejected() {
    assert!(matches!(
        NeuralNetwork::with_weights(Vec::new(), 0),
        Err(ShapeError)
    ));
    let mut wrong = zero_weights();
    wrong[1].bits.pop();
    assert!(matches!(NeuralNetwork::with_weights(wrong, 0), Err(ShapeError)));
    let mut swapped = zero_weights();
    swapped[0].rows = FIRST_HIDDEN_LAYER_SIZE;
    swapped[0].cols = IMAGE_SIZE;
    assert!(matches!(NeuralNetwork::with_weights(swapped, 0), Err(ShapeError)));
}

#[test]
fn finishing_an_epoch_adds_exactly_one_and_replaces_weights() {
    let Ok(mut network) = NeuralNetwork::with_weights(zero_weights(), 0) else {
        panic!("three well-shaped layers must be accepted");
    };
    let mut learned = zero_weights();
    learned[0].bits[0] = 0x3FE0000000000000;
    network.finish_epoch(learned);
    assert_eq!(network.epochs(), 1);
    assert_eq!(network.layer(0).bits[0], 0x3FE0000000000000);
    network.finish_epoch(zero_weights());
    assert_eq!(network.epochs(), 2);
}

#[test]
fn restore_keeps_a_positive_epoch_count() {
    let Ok(restored) = NeuralNetwork::with_weights(zero_weights(), 7) else {
        panic!("three well-shaped layers must be accepted");
    };
    let Ok(fresh) = NeuralNetwork::with_weights(zero_weights(), 0) else {
        panic!("three well-shaped layers must be accepted");
    };
    let chosen = NeuralNetwork::choose_initial(Some(restored), fresh);
    assert_eq!(chosen.epochs(), 7);
}

#[test]
fn restore_without_completed_epochs_starts_fresh() {
    let mut fresh_weights = zero_weights();
    fresh_weights[2].bits[5] = 42;
    let Ok(stale) = NeuralNetwork::with_weights(zero_weights(), 0) else {
        panic!("three well-shaped layers must be accepted");
    };
    let Ok(fresh) = NeuralNetwork::with_weights(fresh_weights, 0) else {
        panic!("three well-shaped layers must be accepted");
    };
    let chosen = NeuralNetwork::choose_initial(Some(stale), fresh);
    assert_eq!(chosen.layer(2).bits[5], 42);

    let Ok(fresh_again) = NeuralNetwork::with_weights(zero_weights(), 0) else {
        panic!("three well-shaped layers must be accepted");
    };
    let chosen = NeuralNetwork::choose_initial(None, fresh_again);
    assert_eq!(chosen.epochs(), 0);
}

#[test]
fn argmax_picks_the_largest_score() {
    let mut scores = vec![0u64; 16];
    scores[11] = 1000;
    scores[4] = 999;
    assert_eq!(label_for_scores(&scores), MBTI::INTJ);
}

#[test]
fn argmax_breaks_ties_by_first_occurrence() {
    let uniform = vec![17u64; 16];
    assert_eq!(label_for_scores(&uniform), MBTI::ENFP);
    let mut scores = vec![0u64; 16];
    scores[3] = 5;
    scores[9] = 5;
    assert_eq!(label_for_scores(&scores), MBTI::ENTJ);
}

#[test]
fn classification_is_deterministic() {
    let scores: Vec<u64> = (0..16u64).map(|i| (i * 7919) % 1000).collect();
    let first = label_for_scores(&scores);
    for _ in 0..10 {
        assert_eq!(label_for_scores(&scores), first);
    }
}

#[test]
fn argmax_on_probability_bit_patterns_matches_the_floats() {
    // Softmax outputs are non-negative, so comparing their bit patterns is
    // comparing the probabilities themselves.
    let probabilities: Vec<f64> = vec![
        0.05, 0.01, 0.02, 0.3, 0.02, 0.05, 0.01, 0.04, 0.1, 0.05, 0.05, 0.05, 0.05, 0.1, 0.05,
        0.05,
    ];
    let scores: Vec<u64> = probabilities.iter().map(|p| p.to_bits()).collect();
    assert_eq!(label_for_scores(&scores).to_index(), 3);
}

#[test]
fn correct_count_never_exceeds_the_dataset_size() {
    let predicted = vec![MBTI::ENFP, MBTI::INTJ, MBTI::ISTJ, MBTI::ENFP];
    let truth = vec![MBTI::ENFP, MBTI::INTJ, MBTI::ENFJ, MBTI::ISTP];
    let correct = count_correct(&predicted, &truth);
    assert_eq!(correct, 2);
    assert!(correct <= predicted.len());
    assert_eq!(count_correct(&Vec::new(), &Vec::new()), 0);
    let all_right = vec![MBTI::ISFJ; 9];
    assert_eq!(count_correct(&all_right, &all_right), 9);
}
