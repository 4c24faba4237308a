use mbti_net::schedule::{epoch_plan, shuffled_order, BATCH_SIZE, FIRST_WINDOW_SPAN, REPORT_PERIOD};

#[test]
fn one_full_batch_reports_progress_once_and_no_window_loss() {
    // A dataset of exactly one batch: progress fires before batch 0 with
    // zero samples consumed; the loss window would first be reported after
    // the sixth batch, so no loss report happens.
    let plan = epoch_plan(32);
    assert_eq!(plan.len(), 1);
    assert_eq!(plan[0].start, 0);
    assert_eq!(plan[0].end, 32);
    assert!(plan[0].report_progress);
    assert_eq!(plan[0].loss_divisor, None);
}

#[test]
fn partial_final_batch_makes_two_equally_weighted_batches() {
    // 33 samples: a full batch of 32 and a final batch of 1; the epoch mean
    // divides by the batch count, 2, weighting both batches equally.
    let plan = epoch_plan(33);
    assert_eq!(plan.len(), 2);
    assert_eq!(plan[0].end - plan[0].start, 32);
    assert_eq!(plan[1].start, 32);
    assert_eq!(plan[1].end, 33);
    assert_eq!(plan[1].end - plan[1].start, 1);
    assert!(!plan[1].report_progress);
    assert_eq!(plan[1].loss_divisor, None);
}

#[test]
fn first_loss_window_divides_by_six() {
    // Seven batches: progress before batches 0 and 5; the first loss report
    // follows batch 5 and spans six batches (batch 0 plus the next five).
    let plan = epoch_plan(200);
    assert_eq!(plan.len(), 7);
    for (b, step) in plan.iter().enumerate() {
        assert_eq!(step.report_progress, b % REPORT_PERIOD == 0);
        if b == 5 {
            assert_eq!(step.loss_divisor, Some(FIRST_WINDOW_SPAN));
        } else {
            assert_eq!(step.loss_divisor, None);
        }
    }
    assert_eq!(plan[6].end, 200);
}

#[test]
fn later_loss_windows_divide_by_five() {
    let plan = epoch_plan(11 * 32);
    assert_eq!(plan.len(), 11);
    assert_eq!(plan[5].loss_divisor, Some(6));
    assert_eq!(plan[10].loss_divisor, Some(5));
    assert!(plan[10].report_progress);
    assert_eq!(plan[10].start, 10 * BATCH_SIZE);
}

#[test]
fn batches_partition_the_training_order() {
    let plan = epoch_plan(5186);
    assert_eq!(plan.len(), (5186 + 31) / 32);
    assert_eq!(plan[0].start, 0);
    for b in 1..plan.len() {
        assert_eq!(plan[b].start, plan[b - 1].end);
        assert_eq!(plan[b - 1].end - plan[b - 1].start, 32);
    }
    assert_eq!(plan[plan.len() - 1].end, 5186);
}

#[test]
fn shuffle_sorts_indices_by_their_draws() {
    let keys: Vec<u64> = vec![5, 3, 9, 1];
    assert_eq!(shuffled_order(&keys), vec![3, 1, 0, 2]);
}

#[test]
fn shuffle_is_a_permutation_of_all_indices() {
    let keys: Vec<u64> = vec![7, 7, 0, 42, 3, 3, 3, 99, 1, 0];
    let order = shuffled_order(&keys);
    assert_eq!(order.len(), keys.len());
    let mut seen = vec![false; keys.len()];
    for &i in order.iter() {
        assert!(i < keys.len());
        assert!(!seen[i]);
        seen[i] = true;
    }
    assert!(seen.iter().all(|&s| s));
    for w in order.windows(2) {
        assert!(keys[w[0]] <= keys[w[1]]);
    }
}

#[test]
fn shuffle_of_empty_keys_is_empty() {
    let keys: Vec<u64> = vec![];
    assert_eq!(shuffled_order(&keys), Vec::<usize>::new());
}

#[test]
fn bit_pattern_keys_order_like_the_floating_point_draws() {
    // Draws in [0, 1) are non-negative, so their bit patterns compare as
    // the numbers themselves do.
    let draws: Vec<f64> = vec![0.75, 0.125, 0.5, 0.0, 0.99999];
    let keys: Vec<u64> = draws.iter().map(|d| d.to_bits()).collect();
    let order = shuffled_order(&keys);
    assert_eq!(order, vec![3, 1, 2, 0, 4]);
    for w in order.windows(2) {
        assert!(draws[w[0]] <= draws[w[1]]);
    }
}

#[test]
fn the_smallest_dataset_makes_one_batch_of_one() {
    let plan = epoch_plan(1);
    assert_eq!(plan.len(), 1);
    assert_eq!(plan[0].start, 0);
    assert_eq!(plan[0].end, 1);
    assert!(plan[0].report_progress);
    assert_eq!(plan[0].loss_divisor, None);
    assert_eq!(shuffled_order(&vec![99u64]), vec![0]);
}

#[test]
fn equal_draws_keep_index_order() {
    let keys: Vec<u64> = vec![2, 2, 1, 2, 0];
    assert_eq!(shuffled_order(&keys), vec![4, 2, 0, 1, 3]);
}
