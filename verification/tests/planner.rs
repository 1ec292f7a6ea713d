use hashengine::planner::recommend;
use hashengine::planner::restart_note;
use hashengine::planner::startup_degree;
use hashengine::planner::MIN_DEGREE;

#[test]
fn recommend_ten_clients_on_sixteen() {
    // raw = 20, capped at the 16 available
    assert_eq!(recommend(10, 16), 16);
}

#[test]
fn recommend_five_clients_on_sixteen() {
    assert_eq!(recommend(5, 16), 10);
}

#[test]
fn recommend_thirty_clients_on_sixty_four() {
    assert_eq!(recommend(30, 64), 45);
}

#[test]
fn recommend_sixty_clients_on_eight() {
    assert_eq!(recommend(60, 8), 8);
}

#[test]
fn recommend_hundred_fifty_clients_on_sixty_four() {
    assert_eq!(recommend(150, 64), 64);
}

#[test]
fn recommend_first_tier_doubles() {
    assert_eq!(recommend(2, 1024), 4);
    assert_eq!(recommend(3, 1024), 6);
    assert_eq!(recommend(19, 1024), 38);
}

#[test]
fn recommend_twenty_belongs_to_the_second_tier() {
    assert_eq!(recommend(20, 1024), 30);
    assert_eq!(recommend(21, 1024), 31);
    assert_eq!(recommend(49, 1024), 73);
}

#[test]
fn recommend_fifty_belongs_to_the_third_tier() {
    assert_eq!(recommend(50, 1024), 60);
    assert_eq!(recommend(51, 1024), 61);
    assert_eq!(recommend(54, 1024), 64);
    assert_eq!(recommend(99, 1024), 118);
}

#[test]
fn recommend_hundred_belongs_to_the_fourth_tier() {
    assert_eq!(recommend(100, 1024), 110);
    assert_eq!(recommend(1000, 2048), 1010);
}

#[test]
fn recommend_never_goes_below_the_minimum_on_large_hardware() {
    assert_eq!(MIN_DEGREE, 4);
    assert_eq!(recommend(0, 16), 4);
    assert_eq!(recommend(1, 16), 4);
    assert_eq!(recommend(2, 4), 4);
}

#[test]
fn recommend_never_exceeds_the_hardware() {
    assert_eq!(recommend(0, 2), 2);
    assert_eq!(recommend(1, 0), 0);
    assert_eq!(recommend(500, 1), 1);
    for clients in 0..300usize {
        for available in 0..40usize {
            let degree = recommend(clients, available);
            assert!(degree <= available);
            if available >= 4 {
                assert!(degree >= 4);
            }
        }
    }
}

#[test]
fn recommend_is_total_at_the_top_of_the_range() {
    assert_eq!(recommend(usize::MAX, 64), 64);
    assert_eq!(recommend(usize::MAX - 9, 64), 64);
    assert_eq!(recommend(usize::MAX - 10, usize::MAX), usize::MAX);
    assert_eq!(recommend(usize::MAX, usize::MAX), usize::MAX);
}

#[test]
fn startup_degree_follows_the_declared_clients() {
    assert_eq!(startup_degree(Some(30), Some(3), 64), 45);
    assert_eq!(startup_degree(Some(1), None, 64), 4);
    assert_eq!(startup_degree(Some(60), None, 8), 8);
}

#[test]
fn startup_degree_falls_back_to_the_configured_degree() {
    assert_eq!(startup_degree(None, Some(3), 64), 3);
    assert_eq!(startup_degree(None, Some(128), 64), 128);
}

#[test]
fn startup_degree_falls_back_to_the_hardware() {
    assert_eq!(startup_degree(None, None, 12), 12);
}

#[test]
fn restart_note_names_the_recommendation_twice() {
    assert_eq!(
        restart_note(45),
        "Mining worker count registered. Note: Actix workers are set at startup and cannot be changed at runtime. Recommended: 45 workers (restart server with WORKERS=45 to apply)"
    );
}

#[test]
fn restart_note_writes_zero_and_large_numbers_in_decimal() {
    assert!(restart_note(0).ends_with("Recommended: 0 workers (restart server with WORKERS=0 to apply)"));
    assert!(restart_note(1010).contains("Recommended: 1010 workers"));
    assert!(restart_note(1010).ends_with("WORKERS=1010 to apply)"));
}
