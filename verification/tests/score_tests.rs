use oogaxi::score::{reset_score, score_deliveries, Score};

#[test]
fn score_starts_at_zero() {
    assert_eq!(Score::default(), Score(0));
    let mut s = Score(42);
    reset_score(&mut s);
    assert_eq!(s, Score(0));
}

#[test]
fn deliveries_add_their_fares() {
    let mut s = Score(0);
    score_deliveries(&mut s, &vec![100, 250, 7]);
    assert_eq!(s, Score(357));
    score_deliveries(&mut s, &vec![]);
    assert_eq!(s, Score(357));
}

#[test]
fn score_batches_add_up() {
    let mut a = Score(5);
    score_deliveries(&mut a, &vec![1, 2]);
    score_deliveries(&mut a, &vec![3]);
    let mut b = Score(5);
    score_deliveries(&mut b, &vec![1, 2, 3]);
    assert_eq!(a, b);
}

#[test]
fn score_reaches_the_top() {
    let mut s = Score(u32::MAX - 10);
    score_deliveries(&mut s, &vec![10]);
    assert_eq!(s, Score(u32::MAX));
}
