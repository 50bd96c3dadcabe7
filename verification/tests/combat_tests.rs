use risk_odds::Attack;
use risk_odds::Score;

#[test]
fn attack_score() {
    let roll = Attack::with_die_rolls(1, 2, 3, 4, 5);
    assert_eq!(roll.attacker_largest(), (3, 2));
    assert_eq!(roll.defender_largest(), (5, 4));
    assert_eq!(roll.attacker_score(), Score::Loss);

    let roll = Attack::with_die_rolls(5, 4, 3, 2, 1);
    assert_eq!(roll.attacker_largest(), (5, 4));
    assert_eq!(roll.defender_largest(), (2, 1));
    assert_eq!(roll.attacker_score(), Score::Win);

    let roll = Attack::with_die_rolls(4, 5, 3, 3, 6);
    assert_eq!(roll.attacker_largest(), (5, 4));
    assert_eq!(roll.defender_largest(), (6, 3));
    assert_eq!(roll.attacker_score(), Score::Tie);
}

#[test]
fn attack_score_all_equal_favors_defender() {
    let roll = Attack::with_die_rolls(6, 6, 6, 6, 6);
    assert_eq!(roll.attacker_largest(), (6, 6));
    assert_eq!(roll.defender_largest(), (6, 6));
    assert_eq!(roll.attacker_score(), Score::Loss);
}

#[test]
fn attack_score_is_deterministic() {
    let first = Attack::with_die_rolls(3, 1, 4, 1, 5);
    let second = Attack::with_die_rolls(3, 1, 4, 1, 5);
    assert_eq!(first.attacker_score(), second.attacker_score());
    assert_eq!(first.attacker_score(), first.attacker_score());
}

#[test]
fn attacker_largest_handles_duplicates() {
    let roll = Attack::with_die_rolls(5, 5, 3, 1, 1);
    assert_eq!(roll.attacker_largest(), (5, 5));
    assert_eq!(roll.defender_largest(), (1, 1));
    assert_eq!(roll.attacker_score(), Score::Win);
}
