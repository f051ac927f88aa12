use workplan_core::close_behavior::{
    close_request_decision, CloseBehaviorFlag, CloseDecision, MAIN_WINDOW,
};

#[test]
fn flag_starts_as_false() {
    let flag = CloseBehaviorFlag::new();
    assert!(!flag.get());
}

#[test]
fn flag_keeps_the_last_value_set() {
    let flag = CloseBehaviorFlag::new();
    flag.set(true);
    assert!(flag.get());
    assert!(flag.get());
    flag.set(false);
    assert!(!flag.get());
    flag.set(false);
    assert!(!flag.get());
    flag.set(true);
    flag.set(true);
    assert!(flag.get());
}

#[test]
fn flag_set_by_one_caller_is_seen_by_another() {
    let flag = CloseBehaviorFlag::new();
    let writer = &flag;
    let reader = &flag;
    writer.set(true);
    assert!(reader.get());
    writer.set(false);
    assert!(!reader.get());
}

#[test]
fn flag_can_be_shared_between_owners() {
    let flag = std::sync::Arc::new(CloseBehaviorFlag::new());
    let writer = std::sync::Arc::clone(&flag);
    writer.set(true);
    drop(writer);
    assert!(flag.get());
}

#[test]
fn closing_the_main_window_follows_the_flag() {
    assert_eq!(close_request_decision("main", true), CloseDecision::Quit);
    assert_eq!(close_request_decision("main", false), CloseDecision::Hide);
    assert_eq!(MAIN_WINDOW, "main");
}

#[test]
fn closing_another_window_is_not_governed() {
    assert_eq!(close_request_decision("splashscreen", true), CloseDecision::Proceed);
    assert_eq!(close_request_decision("splashscreen", false), CloseDecision::Proceed);
    assert_eq!(close_request_decision("", false), CloseDecision::Proceed);
    assert_eq!(close_request_decision("Main", true), CloseDecision::Proceed);
    assert_eq!(close_request_decision("main ", true), CloseDecision::Proceed);
}
