use rusty::cli::{dag_request_count, random_dag_pick_count, random_pick_count};

#[test]
fn random_runs_take_what_is_asked_within_what_is_there() {
    assert_eq!(random_pick_count(None, 10), 5);
    assert_eq!(random_pick_count(None, 2), 2);
    assert_eq!(random_pick_count(Some(7), 10), 7);
    assert_eq!(dag_request_count(None, false), 3);
    assert_eq!(dag_request_count(Some(8), false), 3);
    assert_eq!(dag_request_count(Some(8), true), 8);
    assert_eq!(random_dag_pick_count(Some(8), true, 5), 5);
    assert_eq!(random_dag_pick_count(Some(2), false, 5), 2);
}
