use rhema::score::Score;
use rhema::search::fts_similarity;

fn score(x: f64) -> Score {
    Score { bits: x.to_bits() }
}

#[test]
fn scores_compare_as_floats() {
    let xs = [
        0.0, -0.0, 1.0, -1.0, 0.5, 0.51, 0.75, 0.7500000000000001, -0.75, f64::MIN_POSITIVE, 5e-324, -5e-324,
        f64::MAX, f64::MIN, f64::INFINITY, f64::NEG_INFINITY, f64::NAN, -f64::NAN,
    ];
    for a in xs {
        assert_eq!(score(a).is_nan(), a.is_nan());
        for b in xs {
            assert_eq!(score(a).is_below(&score(b)), a < b, "{a} {b}");
        }
    }
}

#[test]
fn hundredths_are_the_nearest_floats() {
    for h in 50u64..100 {
        let exact: f64 = format!("0.{h}").parse().unwrap();
        assert_eq!(Score::of_hundredths(h).bits, exact.to_bits());
    }
}

#[test]
fn hundredths_keep_their_order() {
    for h in 50u64..99 {
        assert!(Score::of_hundredths(h).is_below(&Score::of_hundredths(h + 1)));
    }
}

#[test]
fn fts_similarity_falls_with_rank() {
    for rank in 0usize..40 {
        let similarity = 0.75 - (rank as f64 * 0.04);
        let expected = if similarity < 0.50 { None } else { Some(similarity.to_bits()) };
        assert_eq!(fts_similarity(rank).map(|s| s.bits), expected);
    }
    assert_eq!(fts_similarity(0).unwrap().bits, 0.75f64.to_bits());
    assert_eq!(fts_similarity(6).unwrap().bits, 0.51f64.to_bits());
    assert!(fts_similarity(7).is_none());
    assert!(fts_similarity(usize::MAX).is_none());
}
