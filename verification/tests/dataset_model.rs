use mbti_net::dataset::{Dataset, Image};
use mbti_net::label::MBTI;
use mbti_net::IMAGE_SIZE;

#[test]
fn an_image_fills_pixel_by_pixel() {
    let mut image = Image::new();
    assert_eq!(image.len(), 0);
    for i in 0..IMAGE_SIZE {
        image.push_pixel(i as u64);
    }
    assert_eq!(image.len(), IMAGE_SIZE);
    assert_eq!(image.pixel(0), 0);
    assert_eq!(image.pixel(255), 255);
}

#[test]
fn an_image_builds_from_a_filled_buffer() {
    let bits: Vec<u64> = (0..IMAGE_SIZE as u64).map(|i| i * 3).collect();
    let image = Image::from_bits(bits);
    assert_eq!(image.len(), IMAGE_SIZE);
    assert_eq!(image.pixel(10), 30);
}

#[test]
fn pixel_bit_patterns_carry_intensities_exactly() {
    let mut bits = vec![0u64; IMAGE_SIZE];
    bits[7] = (0.625f64).to_bits();
    let image = Image::from_bits(bits);
    assert_eq!(f64::from_bits(image.pixel(7)), 0.625);
}

#[test]
fn datasets_keep_images_and_labels_parallel() {
    let mut training = Dataset::new_training();
    assert_eq!(training.len(), 0);
    let blank = vec![0u64; IMAGE_SIZE];
    training.add(Image::from_bits(blank.clone()), 11);
    training.add(Image::from_bits(blank.clone()), 0);
    training.add(Image::from_bits(blank), 15);
    assert_eq!(training.len(), 3);
    assert_eq!(training.label(0), MBTI::INTJ);
    assert_eq!(training.label(1), MBTI::ENFP);
    assert_eq!(training.label(2), MBTI::ISTJ);
    assert_eq!(training.image(1).len(), IMAGE_SIZE);

    let testing = Dataset::new_testing();
    assert_eq!(testing.len(), 0);
}
