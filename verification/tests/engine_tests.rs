use risk_odds::enumerate_attacks;
use risk_odds::simulate_attacks;
use risk_odds::simulate_workers;

#[test]
fn simulate_attacks_accounts_for_every_trial() {
    let (wins, losses, ties) = simulate_attacks(1000);
    assert!(wins >= 0);
    assert!(losses >= 0);
    assert!(ties >= 0);
    assert_eq!(wins + losses + ties, 1000);
}

#[test]
fn simulate_attacks_zero_trials() {
    assert_eq!(simulate_attacks(0), (0, 0, 0));
}

#[test]
fn simulate_workers_totals() {
    let attacks = 1000;
    let workers = 4;

    let (wins, losses, ties) = simulate_workers(attacks, workers);

    let expected_total = attacks * i64::from(workers);
    assert_eq!(expected_total, wins + losses + ties);

    // The following assertions aren't guaranteed to be true, but are
    // statistically likely: the expected shares are about 37% wins,
    // 34% ties and 29% losses.
    assert!(wins > 0);
    assert!(losses > 0);
    assert!(ties > 0);

    assert!(wins > ties);
    assert!(ties > losses);
}

#[test]
fn simulate_workers_single_worker() {
    let (wins, losses, ties) = simulate_workers(7, 1);
    assert_eq!(wins + losses + ties, 7);
}

#[test]
fn simulate_workers_zero_trials_each() {
    assert_eq!(simulate_workers(0, 3), (0, 0, 0));
}

#[test]
fn sampled_shares_match_expectation_on_large_sample() {
    let (wins, losses, ties) = simulate_attacks(50_000);
    assert_eq!(wins + losses + ties, 50_000);
    assert!(wins > ties);
    assert!(ties > losses);
}

#[test]
fn enumeration_matches_golden_baseline() {
    let (wins, losses, ties) = enumerate_attacks();
    assert_eq!(wins, 2890);
    assert_eq!(losses, 2275);
    assert_eq!(ties, 2611);
    assert_eq!(wins + losses + ties, 7776);
}

#[test]
fn enumeration_is_deterministic() {
    assert_eq!(enumerate_attacks(), enumerate_attacks());
}
