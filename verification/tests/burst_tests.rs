use faster_chant::burst::{has_next_message, may_start, should_send, worker_step, BurstController, WorkerStep};

#[test]
fn test_new_not_running() {
    let bc = BurstController::new();
    assert!(!bc.is_running());
}

#[test]
fn test_stop_when_not_running() {
    let mut bc = BurstController::new();
    bc.stop();
    assert!(!bc.is_running());
}

#[test]
fn test_start_empty() {
    let mut bc = BurstController::new();
    assert!(!bc.begin(1, &vec![]));
    assert!(!bc.is_running());
}

#[test]
fn test_start_zero_interval() {
    let mut bc = BurstController::new();
    assert!(!bc.begin(0, &vec!["test".into()]));
    assert!(!bc.is_running());
}

#[test]
fn begin_then_stop() {
    let mut bc = BurstController::new();
    let items: Vec<String> = vec!["msg1".into(), "msg2".into()];
    assert!(bc.begin(1, &items));
    assert!(bc.is_running());
    // a second burst is refused while one runs
    assert!(!bc.begin(1, &items));
    let flag = bc.flag();
    bc.stop();
    assert!(!bc.is_running());
    assert!(!flag.load(std::sync::atomic::Ordering::SeqCst));
}

#[test]
fn worker_decisions() {
    let items: Vec<String> = vec!["a".into(), "".into(), "b".into(), "".into()];
    assert!(should_send(&items, 0));
    assert!(!should_send(&items, 1));
    assert!(has_next_message(&items, 0));
    assert!(has_next_message(&items, 1));
    assert!(!has_next_message(&items, 2));
    assert!(!has_next_message(&items, 3));
    assert!(!has_next_message(&items, 10));
}

#[test]
fn may_start_decision() {
    let items = vec!["a".to_string()];
    assert!(may_start(false, 3, &items));
    assert!(!may_start(true, 3, &items));
    assert!(!may_start(false, 0, &items));
    assert!(!may_start(false, 3, &vec![]));
}

#[test]
fn worker_steps() {
    let items = vec!["a".to_string(), String::new(), "b".to_string(), String::new()];
    assert_eq!(worker_step(true, &items, 0, 3), WorkerStep::Send { ticks: 30 });
    assert_eq!(worker_step(true, &items, 1, 3), WorkerStep::Skip);
    assert_eq!(worker_step(true, &items, 2, 3), WorkerStep::Send { ticks: 0 });
    assert_eq!(worker_step(false, &items, 2, 3), WorkerStep::Interrupted);
    assert_eq!(worker_step(false, &items, 4, 3), WorkerStep::Finished);
    assert_eq!(worker_step(true, &items, 4, 3), WorkerStep::Finished);
}

#[test]
fn whole_run_sends_nonempty_in_order() {
    let items = vec![
        String::new(),
        "a".to_string(),
        String::new(),
        "b".to_string(),
        "c".to_string(),
        String::new(),
    ];
    let mut sent: Vec<(String, u16)> = Vec::new();
    let mut i = 0;
    loop {
        match worker_step(true, &items, i, 2) {
            WorkerStep::Finished => break,
            WorkerStep::Interrupted => panic!("flag stays set"),
            WorkerStep::Skip => {}
            WorkerStep::Send { ticks } => sent.push((items[i].clone(), ticks)),
        }
        i += 1;
    }
    assert_eq!(i, items.len());
    assert_eq!(
        sent,
        vec![("a".to_string(), 20), ("b".to_string(), 20), ("c".to_string(), 0)]
    );
}
