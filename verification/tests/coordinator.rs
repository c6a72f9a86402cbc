use injection_coordinator::action::Action;
use injection_coordinator::attempt::Attempt;
use injection_coordinator::coordinator::{Coordinator, Firing};
use injection_coordinator::error::CoordinatorError;
use injection_coordinator::event::PageEvent;
use injection_coordinator::greeting::greet;

#[test]
fn new_coordinator_is_empty() {
    let coordinator = Coordinator::new();
    assert!(!coordinator.has_window("main"));
    assert!(!coordinator.has_window(""));
    assert_eq!(coordinator.window_count("main"), 0);
    assert_eq!(coordinator.pending_count(), 0);
}

#[test]
fn register_takes_a_label_once() {
    let mut coordinator = Coordinator::new();
    assert!(coordinator.register_window("main"));
    assert!(!coordinator.register_window("main"));
    assert!(coordinator.register_window("help"));
    assert_eq!(coordinator.window_count("main"), 1);
    assert_eq!(coordinator.window_count("help"), 1);
    assert_eq!(coordinator.window_count("other"), 0);
    assert!(coordinator.has_window("main"));
    assert!(!coordinator.has_window("mai"));
    assert!(!coordinator.has_window("main "));
}

#[test]
fn the_empty_label_is_a_label() {
    let mut coordinator = Coordinator::new();
    assert!(coordinator.register_window(""));
    assert!(coordinator.has_window(""));
    assert!(!coordinator.has_window("main"));
    assert_eq!(coordinator.close_window(""), None);
    assert!(!coordinator.has_window(""));
}

#[test]
fn close_removes_only_that_window() {
    let mut coordinator = Coordinator::new();
    coordinator.register_window("main");
    coordinator.register_window("help");
    assert_eq!(coordinator.close_window("help"), None);
    assert!(coordinator.has_window("main"));
    assert!(!coordinator.has_window("help"));
    assert_eq!(coordinator.close_window("help"), None);
    assert!(coordinator.has_window("main"));
    assert!(coordinator.register_window("help"));
    assert_eq!(coordinator.window_count("help"), 1);
}

#[test]
fn closing_the_primary_window_is_announced_to_nobody() {
    let mut coordinator = Coordinator::new();
    coordinator.register_window("main");
    coordinator.register_window("secondary");
    assert_eq!(coordinator.close_window("main"), None);
    assert!(coordinator.has_window("secondary"));
}

#[test]
fn closing_the_secondary_window_without_primary_is_announced_to_nobody() {
    let mut coordinator = Coordinator::new();
    coordinator.register_window("secondary");
    assert_eq!(coordinator.close_window("secondary"), None);
    assert!(!coordinator.has_window("secondary"));
}

#[test]
fn closing_a_secondary_window_that_is_not_there_is_announced_to_nobody() {
    let mut coordinator = Coordinator::new();
    coordinator.register_window("main");
    assert_eq!(coordinator.close_window("secondary"), None);
    assert!(coordinator.has_window("main"));
}

#[test]
fn closing_the_secondary_window_is_announced_to_the_primary() {
    let mut coordinator = Coordinator::new();
    coordinator.register_window("main");
    coordinator.register_window("secondary");
    assert_eq!(
        coordinator.close_window("secondary"),
        Some(Action::Notify {
            target: "main".to_string(),
            event: "gemini-window-closed".to_string()
        })
    );
    assert!(coordinator.has_window("main"));
    assert!(!coordinator.has_window("secondary"));
}

#[test]
fn schedule_hands_back_the_attempt() {
    let mut coordinator = Coordinator::new();
    let attempt = coordinator.schedule_injection("secondary", "run()", 250);
    assert_eq!(attempt.label, "secondary");
    assert_eq!(attempt.payload, "run()");
    assert_eq!(attempt.delay_ms, 250);
    assert_eq!(coordinator.pending_count(), 1);
    assert!(coordinator.is_pending(&attempt));
    assert!(!coordinator.is_pending(&Attempt::new("secondary", "run()", 251)));
    assert!(!coordinator.has_window("secondary"));
}

#[test]
fn navigation_schedules_one_attempt_with_the_rearm_delay() {
    let mut coordinator = Coordinator::new();
    coordinator.register_window("secondary");
    let before = coordinator.pending_count();
    let attempt = coordinator.on_navigation_event("secondary", "run()");
    assert_eq!(attempt, Attempt::new("secondary", "run()", 3000));
    assert_eq!(coordinator.pending_count(), before + 1);
    assert!(coordinator.is_pending(&attempt));
    assert_eq!(coordinator.window_count("secondary"), 1);
}

#[test]
fn overlapping_navigations_are_not_merged() {
    let mut coordinator = Coordinator::new();
    coordinator.register_window("secondary");
    let first = coordinator.on_navigation_event("secondary", "run()");
    let second = coordinator.on_navigation_event("secondary", "run()");
    assert_eq!(first, second);
    assert_eq!(coordinator.pending_count(), 2);
    let evaluate = Firing::Evaluate(Action::Evaluate {
        label: "secondary".to_string(),
        script: "run()".to_string(),
    });
    assert_eq!(coordinator.fire(&first), evaluate);
    assert_eq!(coordinator.pending_count(), 1);
    assert_eq!(coordinator.fire(&second), evaluate);
    assert_eq!(coordinator.pending_count(), 0);
    assert_eq!(coordinator.fire(&second), Firing::NotPending);
}

#[test]
fn fire_of_an_unknown_attempt_changes_nothing() {
    let mut coordinator = Coordinator::new();
    coordinator.register_window("secondary");
    let waiting = coordinator.schedule_injection("secondary", "a()", 1);
    assert_eq!(coordinator.fire(&Attempt::new("secondary", "b()", 1)), Firing::NotPending);
    assert_eq!(coordinator.fire(&Attempt::new("secondary", "a()", 2)), Firing::NotPending);
    assert_eq!(coordinator.fire(&Attempt::new("main", "a()", 1)), Firing::NotPending);
    assert_eq!(coordinator.pending_count(), 1);
    assert!(coordinator.is_pending(&waiting));
}

#[test]
fn fire_takes_the_right_attempt_off_the_list() {
    let mut coordinator = Coordinator::new();
    coordinator.register_window("secondary");
    let a = coordinator.schedule_injection("secondary", "a()", 1);
    let b = coordinator.schedule_injection("secondary", "b()", 2);
    let c = coordinator.schedule_injection("gone", "c()", 3);
    assert_eq!(
        coordinator.fire(&b),
        Firing::Evaluate(Action::Evaluate {
            label: "secondary".to_string(),
            script: "b()".to_string()
        })
    );
    assert!(coordinator.is_pending(&a));
    assert!(!coordinator.is_pending(&b));
    assert!(coordinator.is_pending(&c));
    assert_eq!(
        coordinator.fire(&c),
        Firing::Dropped(CoordinatorError::WindowNotFound { label: "gone".to_string() })
    );
    assert_eq!(coordinator.pending_count(), 1);
}

#[test]
fn relay_looks_up_the_target() {
    let mut coordinator = Coordinator::new();
    coordinator.register_window("panel");
    assert_eq!(
        coordinator.relay_result("secondary", "panel", "done"),
        Ok(Action::Emit {
            source: "secondary".to_string(),
            target: "panel".to_string(),
            event: "result-from-gemini".to_string(),
            body: "done".to_string(),
        })
    );
    let missing = coordinator.relay_result("panel", "secondary", "done");
    assert_eq!(missing, Err(CoordinatorError::WindowNotFound { label: "secondary".to_string() }));
    assert_eq!(missing.unwrap_err().message(), "找不到标签为 'secondary' 的窗口");
}

#[test]
fn inject_looks_up_the_window() {
    let mut coordinator = Coordinator::new();
    coordinator.register_window("panel");
    assert_eq!(
        coordinator.inject("panel", ""),
        Ok(Action::Evaluate { label: "panel".to_string(), script: String::new() })
    );
    assert_eq!(
        coordinator.inject("pane", "x"),
        Err(CoordinatorError::WindowNotFound { label: "pane".to_string() })
    );
}

#[test]
fn attempts_compare_by_value() {
    let attempt = Attempt::new("secondary", "run()", 7);
    assert!(attempt.same_as(&attempt.duplicate()));
    assert_eq!(attempt.duplicate(), attempt);
    assert!(!attempt.same_as(&Attempt::new("secondary", "run()", 8)));
    assert!(!attempt.same_as(&Attempt::new("secondary", "run", 7)));
    assert!(!attempt.same_as(&Attempt::new("main", "run()", 7)));
}

#[test]
fn messages_are_rendered_per_kind() {
    assert_eq!(
        CoordinatorError::WindowNotFound { label: "secondary".to_string() }.message(),
        "找不到标签为 'secondary' 的窗口"
    );
    assert_eq!(
        CoordinatorError::WindowNotFound { label: String::new() }.message(),
        "找不到标签为 '' 的窗口"
    );
    assert_eq!(CoordinatorError::PrimaryWindowNotFound.message(), "找不到主窗口");
    assert_eq!(
        CoordinatorError::EvaluationFailed { reason: "webview is gone".to_string() }.message(),
        "webview is gone"
    );
    assert_eq!(
        CoordinatorError::DataDirectoryUnresolved { reason: "unknown path".to_string() }
            .message(),
        "无法获取应用数据目录: unknown path"
    );
    assert_eq!(
        CoordinatorError::DirectoryCreationFailed { reason: "disk full".to_string() }.message(),
        "创建缓存目录失败: disk full"
    );
    assert_eq!(
        CoordinatorError::WindowCreationFailed { reason: "label taken".to_string() }.message(),
        "label taken"
    );
    assert_eq!(
        CoordinatorError::EmissionFailed { reason: "channel closed".to_string() }.message(),
        "channel closed"
    );
}

#[test]
fn finished_page_load_rearms_the_injection() {
    let mut coordinator = Coordinator::new();
    coordinator.register_window("secondary");
    let attempt = coordinator.on_page_event("secondary", "run()", PageEvent::Finished);
    assert_eq!(attempt, Some(Attempt::new("secondary", "run()", 3000)));
    assert_eq!(coordinator.pending_count(), 1);
    assert!(coordinator.is_pending(&Attempt::new("secondary", "run()", 3000)));
    assert_eq!(coordinator.window_count("secondary"), 1);
}

#[test]
fn started_page_load_changes_nothing() {
    let mut coordinator = Coordinator::new();
    coordinator.register_window("secondary");
    let waiting = coordinator.schedule_injection("secondary", "run()", 5000);
    assert_eq!(coordinator.on_page_event("secondary", "run()", PageEvent::Started), None);
    assert_eq!(coordinator.pending_count(), 1);
    assert!(coordinator.is_pending(&waiting));
    assert!(!coordinator.is_pending(&Attempt::new("secondary", "run()", 3000)));
    assert_eq!(coordinator.window_count("secondary"), 1);
}

#[test]
fn finished_page_load_in_a_closed_window_rearms_all_the_same() {
    let mut coordinator = Coordinator::new();
    let attempt = coordinator.on_page_event("secondary", "run()", PageEvent::Finished).unwrap();
    assert_eq!(
        coordinator.fire(&attempt),
        Firing::Dropped(CoordinatorError::WindowNotFound { label: "secondary".to_string() })
    );
    coordinator.one_window_per_label();
    assert_eq!(coordinator.pending_count(), 0);
}

#[test]
fn greet_names_the_guest() {
    assert_eq!(greet("Ada"), "Hello, Ada! You've been greeted from Rust!");
    assert_eq!(greet(""), "Hello, ! You've been greeted from Rust!");
}
