use benchbot::switching::{should_switch_directions, BenchRound, TransferDirection};

#[test]
fn test_switch_directions() {
    assert_eq!(should_switch_directions(20, 0), false);
    assert_eq!(should_switch_directions(20, 1), false);
    assert_eq!(should_switch_directions(20, 14), false);
    assert_eq!(should_switch_directions(20, 15), true);
    assert_eq!(should_switch_directions(20, 16), false);
    assert_eq!(should_switch_directions(20, 19), false);
    assert_eq!(should_switch_directions(20, 20), true);
    assert_eq!(should_switch_directions(20, 21), false);
    assert_eq!(should_switch_directions(20, 99), false);
    assert_eq!(should_switch_directions(20, 100), true);
    assert_eq!(should_switch_directions(20, 101), false);
}

#[test]
fn switch_uses_truncating_division_for_negative_counts() {
    // quarter of -20 is -5, three quarters of -20 is -15
    assert_eq!(should_switch_directions(-20, -15), true);
    assert_eq!(should_switch_directions(-20, -20), false);
    assert_eq!(should_switch_directions(-20, 0), true);
    assert_eq!(should_switch_directions(-20, -14), false);
}

#[test]
fn switch_with_uneven_quarter() {
    // 22 / 4 == 5, 66 / 4 == 16
    assert_eq!(should_switch_directions(22, 15), false);
    assert_eq!(should_switch_directions(22, 20), true);
    assert_eq!(should_switch_directions(22, 25), true);
}

#[test]
fn rounds_reverse_every_quarter_after_three_quarters() {
    let mut round = BenchRound::new(0);
    assert_eq!(round.direction(), TransferDirection::FromSource);
    let mut flips = Vec::new();
    for _ in 0..40 {
        let before = round.reclaim;
        round.advance(20);
        if round.reclaim != before {
            flips.push(round.round);
        }
    }
    assert_eq!(round.round, 40);
    assert_eq!(flips, vec![15, 20, 25, 30, 35, 40]);
    assert_eq!(round.direction(), TransferDirection::FromSource);
}

#[test]
fn rounds_resume_from_funded_balance() {
    let mut round = BenchRound::new(14);
    round.advance(20);
    assert_eq!(round.round, 15);
    assert!(round.reclaim);
    assert_eq!(round.direction(), TransferDirection::ToSource);
    round.advance(20);
    assert!(round.reclaim);
}
