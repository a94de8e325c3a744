use spelling_trainer::model::statistic::Statistic;

#[test]
fn no_guess() {
    let statistic = Statistic::default();

    assert_eq!(statistic.correct(), 0, "expect no correct guess to get counted");
    assert_eq!(statistic.incorrect(), 0, "expect no incorrect guess to get counted");
    assert_eq!(statistic.total(), 0, "expect no guess to get counted");
}

#[test]
fn statistic_correct_guess() {
    let mut statistic = Statistic::default();

    statistic.increment_correct();

    assert_eq!(statistic.correct(), 1, "expect one correct guess to get counted");
    assert_eq!(statistic.incorrect(), 0, "expect no incorrect guess to get counted");
    assert_eq!(statistic.total(), 1, "expect one guess to get counted");
}

#[test]
fn statistic_incorrect_guess() {
    let mut statistic = Statistic::default();

    statistic.increment_incorrect();

    assert_eq!(statistic.correct(), 0, "expect no correct guess to get counted");
    assert_eq!(statistic.incorrect(), 1, "expect one incorrect guess to get counted");
    assert_eq!(statistic.total(), 1, "expect one guess to get counted");
}

#[test]
fn total_is_sum_of_both_counters() {
    let mut statistic = Statistic::default();

    statistic.increment_correct();
    statistic.increment_correct();
    statistic.increment_incorrect();

    assert_eq!(statistic.correct(), 2);
    assert_eq!(statistic.incorrect(), 1);
    assert_eq!(statistic.total(), 3);
}

#[test]
fn counters_survive_a_round_trip_through_their_parts() {
    let mut statistic = Statistic::default();
    statistic.increment_correct();
    statistic.increment_incorrect();
    statistic.increment_incorrect();

    let restored = Statistic::from_counts(statistic.correct(), statistic.incorrect());

    assert_eq!(restored.correct(), 1);
    assert_eq!(restored.incorrect(), 2);
    assert_eq!(restored.total(), 3);
}
