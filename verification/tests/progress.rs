use csv_light_editor::ai_script::progress::ExecutionProgress;

#[test]
fn new_progress_is_initial() {
    let p = ExecutionProgress::new_at("id-1".to_string(), 10, 1000);
    assert_eq!(p.execution_id, "id-1");
    assert_eq!(p.processed_rows, 0);
    assert_eq!(p.total_rows, 10);
    assert_eq!(p.current_step, "Initializing");
    assert_eq!(p.estimated_remaining_seconds, None);
    assert_eq!(p.started_at, 1000);
    assert_eq!(p.last_updated, 1000);
    assert_eq!(p.percent(), 0);
}

#[test]
fn update_recomputes_the_percentage() {
    let mut p = ExecutionProgress::new_at("id-1".to_string(), 2, 1000);
    p.update_at(1, "half".to_string(), 1500);
    assert_eq!(p.percent(), 50);
    assert_eq!(p.current_step, "half");
    assert_eq!(p.last_updated, 1500);
    assert_eq!(p.started_at, 1000);
    p.update_at(2, "done".to_string(), 1600);
    assert_eq!(p.percent(), 100);
    p.update_at(1, "back".to_string(), 1700);
    assert_eq!(p.percent(), 50);
}

#[test]
fn percentage_edge_cases() {
    let mut p = ExecutionProgress::new_at("x".to_string(), 0, 0);
    p.update_at(5, "s".to_string(), 1);
    assert_eq!(p.percent(), 0);
    let mut p = ExecutionProgress::new_at("x".to_string(), 3, 0);
    p.update_at(1, "s".to_string(), 1);
    assert_eq!(p.percent(), 33);
    p.update_at(usize::MAX, "s".to_string(), 1);
    assert_eq!(p.percent(), usize::MAX as u128 * 100 / 3);
}

#[test]
fn the_clock_versions_keep_the_rest() {
    let mut p = ExecutionProgress::new("abc".to_string(), 4);
    assert_eq!(p.started_at, p.last_updated);
    assert_eq!(p.current_step, "Initializing");
    let started = p.started_at;
    p.update(3, "step".to_string());
    assert_eq!(p.processed_rows, 3);
    assert_eq!(p.started_at, started);
    assert_eq!(p.percent(), 75);
    let copy = p.duplicate();
    assert_eq!(copy.execution_id, "abc");
    assert_eq!(copy.processed_rows, 3);
    assert_eq!(copy.current_step, "step");
    assert_eq!(copy.last_updated, p.last_updated);
}
