use raveberry_visualization::run_state::{RunState, StartError};
use raveberry_visualization::variant::{is_known_variant, pattern_of, same_text, SpawnPattern};
use raveberry_visualization::wake::{on_wake, Phase, WakeAction, WakeCause};

fn names() -> Vec<String> {
    vec!["Circle".to_string(), "SnowyCircle".to_string()]
}

#[test]
fn patterns_by_name() {
    assert_eq!(pattern_of("Circle"), SpawnPattern::Ring);
    assert_eq!(pattern_of("SnowyCircle"), SpawnPattern::Snow);
    assert_eq!(pattern_of("Plain"), SpawnPattern::Origin);
    assert_eq!(pattern_of("circle"), SpawnPattern::Origin);
    assert_eq!(pattern_of(""), SpawnPattern::Origin);
}

#[test]
fn text_comparison() {
    assert!(same_text("abc", "abc"));
    assert!(!same_text("abc", "abd"));
    assert!(!same_text("abc", "ab"));
    assert!(same_text("", ""));
}

#[test]
fn known_variants() {
    assert!(is_known_variant(&names(), "Circle"));
    assert!(is_known_variant(&names(), "SnowyCircle"));
    assert!(!is_known_variant(&names(), "Snowy"));
    assert!(!is_known_variant(&Vec::new(), "Circle"));
}

#[test]
fn unknown_variant_leaves_inactive() {
    let mut s = RunState::new();
    assert_eq!(s.begin_start(&names(), "Nope"), Err(StartError::UnknownVariant));
    assert!(!s.is_active());
    assert!(!s.should_exit());
}

#[test]
fn start_stop_finish_cycle() {
    let mut s = RunState::new();
    assert_eq!(s.begin_start(&names(), "Circle"), Ok(SpawnPattern::Ring));
    assert!(s.is_active());
    assert!(!s.should_exit());
    s.request_stop();
    s.request_stop();
    assert!(s.should_exit());
    assert!(s.is_active());
    assert_eq!(on_wake(WakeCause::TimerElapsed, s.should_exit()), WakeAction::Exit);
    s.finish();
    assert!(!s.is_active());
    assert_eq!(s.begin_start(&names(), "SnowyCircle"), Ok(SpawnPattern::Snow));
    assert!(s.is_active());
    assert!(!s.should_exit());
}

#[test]
fn second_start_rejected_while_active() {
    let mut s = RunState::new();
    assert!(s.begin_start(&names(), "Circle").is_ok());
    s.request_stop();
    assert_eq!(s.begin_start(&names(), "Circle"), Err(StartError::AlreadyActive));
    assert!(s.is_active());
    assert!(s.should_exit());
}

#[test]
fn unknown_variant_checked_before_activity() {
    let mut s = RunState::new();
    assert!(s.begin_start(&names(), "Circle").is_ok());
    assert_eq!(s.begin_start(&names(), "Nope"), Err(StartError::UnknownVariant));
}

#[test]
fn wake_decisions() {
    assert_eq!(on_wake(WakeCause::CloseRequested, false), WakeAction::Exit);
    assert_eq!(on_wake(WakeCause::CloseRequested, true), WakeAction::Exit);
    assert_eq!(on_wake(WakeCause::Other, true), WakeAction::Ignore);
    assert_eq!(on_wake(WakeCause::Other, false), WakeAction::Ignore);
    assert_eq!(on_wake(WakeCause::Init, false), WakeAction::Tick);
    assert_eq!(on_wake(WakeCause::TimerElapsed, false), WakeAction::Tick);
    assert_eq!(on_wake(WakeCause::Init, true), WakeAction::Exit);
}

#[test]
fn phases_in_order() {
    let p = Phase::Starting;
    assert!(!p.is_running());
    assert_eq!(p.on_action(WakeAction::Exit), Phase::Starting);
    let p = p.on_built();
    assert_eq!(p, Phase::Running);
    assert!(p.is_running());
    assert_eq!(p.on_action(WakeAction::Tick), Phase::Running);
    assert_eq!(p.on_teardown(), Phase::Running);
    let p = p.on_action(WakeAction::Exit);
    assert_eq!(p, Phase::Exiting);
    let p = p.on_teardown();
    assert_eq!(p, Phase::TornDown);
    assert_eq!(p.on_built(), Phase::TornDown);
}
