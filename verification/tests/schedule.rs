use app_setup::schedule::AppSet;

#[test]
fn ordered_lists_the_sets_as_they_run() {
    assert_eq!(
        AppSet::ordered(),
        [AppSet::TickTimers, AppSet::RecordInput, AppSet::Update]
    );
}

#[test]
fn timers_tick_before_input_is_recorded() {
    assert_eq!(AppSet::TickTimers.position(), 0);
    assert_eq!(AppSet::RecordInput.position(), 1);
    assert!(AppSet::TickTimers.position() < AppSet::RecordInput.position());
}

#[test]
fn update_runs_last() {
    assert_eq!(AppSet::Update.position(), 2);
    assert_eq!(AppSet::ordered()[2], AppSet::Update);
}

#[test]
fn position_is_the_place_in_ordered() {
    let sets = AppSet::ordered();
    for place in 0..sets.len() {
        assert_eq!(sets[place].position(), place);
    }
}

#[test]
fn every_set_is_ordered_once() {
    let sets = AppSet::ordered();
    for set in [AppSet::TickTimers, AppSet::RecordInput, AppSet::Update] {
        let places = sets.iter().filter(|ordered| **ordered == set).count();
        assert_eq!(places, 1);
        assert_eq!(sets[set.position()], set);
    }
}

#[test]
fn positions_order_any_two_sets() {
    let sets = AppSet::ordered();
    for a in sets {
        for b in sets {
            let before = a.position() < b.position();
            let after = b.position() < a.position();
            assert_eq!(a == b, !before && !after);
            assert!(!(before && after));
        }
    }
}
