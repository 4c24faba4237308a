use mbti_net::label::{LabelError, MBType, MBTI};

fn all_labels() -> Vec<MBTI> {
    vec![
        MBTI::ENFP,
        MBTI::ENFJ,
        MBTI::ENTP,
        MBTI::ENTJ,
        MBTI::ESFP,
        MBTI::ESFJ,
        MBTI::ESTP,
        MBTI::ESTJ,
        MBTI::INFP,
        MBTI::INFJ,
        MBTI::INTP,
        MBTI::INTJ,
        MBTI::ISFP,
        MBTI::ISFJ,
        MBTI::ISTP,
        MBTI::ISTJ,
    ]
}

#[test]
fn bit_codes_round_trip_for_all_16_labels() {
    for &label in all_labels().iter() {
        assert_eq!(MBTI::try_from_bits(label.code()), Ok(label));
    }
}

#[test]
fn exactly_16_bit_patterns_decode() {
    let mut valid: usize = 0;
    for bits in 0..=255u8 {
        match MBTI::try_from_bits(bits) {
            Ok(label) => {
                assert_eq!(label.code(), bits);
                valid += 1;
            }
            Err(e) => assert_eq!(e, LabelError),
        }
    }
    assert_eq!(valid, 16);
}

#[test]
fn dense_indices_round_trip_for_all_16_labels() {
    for (i, &label) in all_labels().iter().enumerate() {
        assert_eq!(label.to_index(), i);
        assert_eq!(MBTI::from_index(i), Ok(label));
    }
}

#[test]
fn out_of_range_indices_are_rejected() {
    assert_eq!(MBTI::from_index(16), Err(LabelError));
    assert_eq!(MBTI::from_index(17), Err(LabelError));
    assert_eq!(MBTI::from_index(usize::MAX), Err(LabelError));
}

#[test]
fn names_round_trip_for_all_16_labels() {
    for &label in all_labels().iter() {
        assert_eq!(MBTI::from_name(label.name()), Ok(label));
    }
    assert_eq!(MBTI::ENFP.name(), "ENFP");
    assert_eq!(MBTI::ISTJ.name(), "ISTJ");
}

#[test]
fn invalid_names_are_rejected() {
    assert_eq!(MBTI::from_name(""), Err(LabelError));
    assert_eq!(MBTI::from_name("ENF"), Err(LabelError));
    assert_eq!(MBTI::from_name("ENFPX"), Err(LabelError));
    assert_eq!(MBTI::from_name("enfp"), Err(LabelError));
    assert_eq!(MBTI::from_name("XXXX"), Err(LabelError));
    assert_eq!(MBTI::from_name("PFNE"), Err(LabelError));
}

#[test]
fn codes_are_composed_of_letter_flags() {
    assert_eq!(
        MBTI::ENFP.code(),
        MBType::E.flag() | MBType::N.flag() | MBType::F.flag() | MBType::P.flag()
    );
    assert_eq!(
        MBTI::ISTJ.code(),
        MBType::I.flag() | MBType::S.flag() | MBType::T.flag() | MBType::J.flag()
    );
    assert_eq!(MBType::I.flag(), 0b10000000);
    assert_eq!(MBType::P.flag(), 0b00000001);
}

#[test]
fn label_error_carries_a_message() {
    assert_eq!(LabelError.message(), "Invalid MBTI type");
}
