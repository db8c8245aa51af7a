use std::collections::VecDeque;
use std::sync::atomic::{AtomicUsize, Ordering};
use std::sync::{Arc, Mutex};

use gargoyle::{
    conclude, handle_entry, settle, Action, Entry, Monitor, Notice, NoticeKind, Notify, Outcome,
};

const SECOND: u128 = 1_000_000_000;

/// A monitor that reports a fixed list of actions, then `Nothing`, and
/// counts how often it was checked.
struct Scripted {
    actions: VecDeque<Action>,
    checks: Arc<AtomicUsize>,
}

impl Scripted {
    fn new(actions: Vec<Action>) -> (Scripted, Arc<AtomicUsize>) {
        let checks = Arc::new(AtomicUsize::new(0));
        (Scripted { actions: actions.into(), checks: checks.clone() }, checks)
    }
}

impl Monitor for Scripted {
    fn check(&mut self) -> Action {
        self.checks.fetch_add(1, Ordering::SeqCst);
        self.actions.pop_front().unwrap_or(Action::Nothing)
    }
}

/// A notifier that records what it is handed and answers from a list of
/// verdicts; once the list is used up, every delivery succeeds.
struct Recorder {
    sent: Mutex<Vec<(String, Option<String>)>>,
    verdicts: Mutex<VecDeque<bool>>,
}

impl Recorder {
    fn new(verdicts: Vec<bool>) -> Recorder {
        Recorder { sent: Mutex::new(Vec::new()), verdicts: Mutex::new(verdicts.into()) }
    }

    fn sent(&self) -> Vec<(String, Option<String>)> {
        self.sent.lock().unwrap().clone()
    }
}

impl Notify for Recorder {
    fn send(&self, msg: &str, diagnostic: Option<String>) -> Result<(), String> {
        self.sent.lock().unwrap().push((msg.to_string(), diagnostic));
        if self.verdicts.lock().unwrap().pop_front().unwrap_or(true) {
            Ok(())
        } else {
            Err("relay is down".to_string())
        }
    }
}

fn signal(text: &str) -> Action {
    Action::Notify { diagnostic: Some(text.to_string()) }
}

#[test]
fn new_entry_is_recovered_and_never_checked() {
    let (monitor, checks) = Scripted::new(vec![]);
    let recorder = Recorder::new(vec![]);
    let entry = Entry::new("down", "up", 5 * SECOND, monitor, &recorder);
    assert!(!entry.has_fired());
    assert_eq!(entry.last_checked(), None);
    assert_eq!(entry.interval(), 5 * SECOND);
    assert_eq!(entry.fire_message(), "down");
    assert_eq!(entry.recover_message(), "up");
    assert!(entry.is_due(0));
    assert!(entry.is_due(123));
    assert_eq!(checks.load(Ordering::SeqCst), 0);
    assert!(recorder.sent().is_empty());
}

#[test]
fn signal_from_recovered_fires_once() {
    let (monitor, checks) = Scripted::new(vec![signal("cpu high")]);
    let recorder = Recorder::new(vec![]);
    let mut entry = Entry::new("down", "up", 5 * SECOND, monitor, &recorder);
    let outcome = handle_entry(&mut entry, 7);
    assert_eq!(outcome, Outcome::Delivered(NoticeKind::Fire));
    assert!(entry.has_fired());
    assert_eq!(entry.last_checked(), Some(7));
    assert_eq!(checks.load(Ordering::SeqCst), 1);
    assert_eq!(recorder.sent(), vec![("down".to_string(), Some("cpu high".to_string()))]);
}

#[test]
fn repeated_signals_while_alerting_send_nothing() {
    let (monitor, checks) =
        Scripted::new(vec![signal("a"), signal("b"), signal("c"), signal("d"), Action::Nothing]);
    let recorder = Recorder::new(vec![]);
    let mut entry = Entry::new("down", "up", SECOND, monitor, &recorder);
    assert_eq!(handle_entry(&mut entry, 0), Outcome::Delivered(NoticeKind::Fire));
    assert_eq!(handle_entry(&mut entry, SECOND), Outcome::Quiet);
    assert_eq!(handle_entry(&mut entry, 2 * SECOND), Outcome::Quiet);
    assert_eq!(handle_entry(&mut entry, 3 * SECOND), Outcome::Quiet);
    assert!(entry.has_fired());
    assert_eq!(recorder.sent().len(), 1);
    assert_eq!(handle_entry(&mut entry, 4 * SECOND), Outcome::Delivered(NoticeKind::Recover));
    assert!(!entry.has_fired());
    assert_eq!(checks.load(Ordering::SeqCst), 5);
    assert_eq!(
        recorder.sent(),
        vec![("down".to_string(), Some("a".to_string())), ("up".to_string(), None)]
    );
}

#[test]
fn healthy_from_alerting_recovers_once() {
    let (monitor, _checks) = Scripted::new(vec![signal("x"), Action::Nothing, Action::Nothing]);
    let recorder = Recorder::new(vec![]);
    let mut entry = Entry::new("down", "up", 0, monitor, &recorder);
    assert_eq!(handle_entry(&mut entry, 1), Outcome::Delivered(NoticeKind::Fire));
    assert_eq!(handle_entry(&mut entry, 2), Outcome::Delivered(NoticeKind::Recover));
    assert!(!entry.has_fired());
    assert_eq!(handle_entry(&mut entry, 3), Outcome::Quiet);
    assert!(!entry.has_fired());
    assert_eq!(
        recorder.sent(),
        vec![("down".to_string(), Some("x".to_string())), ("up".to_string(), None)]
    );
}

#[test]
fn healthy_from_recovered_sends_nothing() {
    let (monitor, checks) = Scripted::new(vec![Action::Nothing]);
    let recorder = Recorder::new(vec![]);
    let mut entry = Entry::new("down", "up", 0, monitor, &recorder);
    assert_eq!(handle_entry(&mut entry, 5), Outcome::Quiet);
    assert!(!entry.has_fired());
    assert_eq!(entry.last_checked(), Some(5));
    assert_eq!(checks.load(Ordering::SeqCst), 1);
    assert!(recorder.sent().is_empty());
}

#[test]
fn failed_fire_is_retried_on_next_signal() {
    let (monitor, _checks) = Scripted::new(vec![signal("first"), signal("second")]);
    let recorder = Recorder::new(vec![false, true]);
    let mut entry = Entry::new("down", "up", 5 * SECOND, monitor, &recorder);
    assert_eq!(
        handle_entry(&mut entry, 0),
        Outcome::Failed(NoticeKind::Fire, "relay is down".to_string())
    );
    assert!(!entry.has_fired());
    assert_eq!(entry.last_checked(), Some(0));
    assert_eq!(handle_entry(&mut entry, 5 * SECOND), Outcome::Delivered(NoticeKind::Fire));
    assert!(entry.has_fired());
    assert_eq!(
        recorder.sent(),
        vec![
            ("down".to_string(), Some("first".to_string())),
            ("down".to_string(), Some("second".to_string())),
        ]
    );
}

#[test]
fn failed_recovery_is_retried_on_next_healthy() {
    let (monitor, _checks) = Scripted::new(vec![signal("x"), Action::Nothing, Action::Nothing]);
    let recorder = Recorder::new(vec![true, false, true]);
    let mut entry = Entry::new("down", "up", 0, monitor, &recorder);
    assert_eq!(handle_entry(&mut entry, 0), Outcome::Delivered(NoticeKind::Fire));
    assert_eq!(
        handle_entry(&mut entry, 1),
        Outcome::Failed(NoticeKind::Recover, "relay is down".to_string())
    );
    assert!(entry.has_fired());
    assert_eq!(handle_entry(&mut entry, 2), Outcome::Delivered(NoticeKind::Recover));
    assert!(!entry.has_fired());
    assert_eq!(recorder.sent().len(), 3);
}

#[test]
fn entry_is_not_checked_before_its_interval() {
    let (monitor, checks) = Scripted::new(vec![signal("x"), signal("y")]);
    let recorder = Recorder::new(vec![]);
    let mut entry = Entry::new("down", "up", 5 * SECOND, monitor, &recorder);
    assert_eq!(handle_entry(&mut entry, 10 * SECOND), Outcome::Delivered(NoticeKind::Fire));
    assert!(!entry.is_due(10 * SECOND));
    assert!(!entry.is_due(15 * SECOND - 1));
    assert!(entry.is_due(15 * SECOND));
    assert_eq!(handle_entry(&mut entry, 15 * SECOND - 1), Outcome::Skipped);
    assert_eq!(entry.last_checked(), Some(10 * SECOND));
    assert!(entry.has_fired());
    assert_eq!(checks.load(Ordering::SeqCst), 1);
    assert_eq!(recorder.sent().len(), 1);
    assert_eq!(handle_entry(&mut entry, 15 * SECOND), Outcome::Quiet);
    assert_eq!(entry.last_checked(), Some(15 * SECOND));
    assert_eq!(checks.load(Ordering::SeqCst), 2);
}

#[test]
fn time_before_last_check_counts_as_no_time() {
    let (monitor, checks) = Scripted::new(vec![]);
    let recorder = Recorder::new(vec![]);
    let mut entry = Entry::new("down", "up", 1, monitor, &recorder);
    assert_eq!(handle_entry(&mut entry, 100), Outcome::Quiet);
    assert!(!entry.is_due(40));
    assert_eq!(handle_entry(&mut entry, 40), Outcome::Skipped);
    assert_eq!(entry.last_checked(), Some(100));
    assert_eq!(checks.load(Ordering::SeqCst), 1);
}

#[test]
fn zero_interval_is_always_due() {
    let (monitor, checks) = Scripted::new(vec![]);
    let recorder = Recorder::new(vec![]);
    let mut entry = Entry::new("down", "up", 0, monitor, &recorder);
    assert_eq!(handle_entry(&mut entry, 9), Outcome::Quiet);
    assert!(entry.is_due(9));
    assert!(entry.is_due(3));
    assert_eq!(handle_entry(&mut entry, 9), Outcome::Quiet);
    assert_eq!(handle_entry(&mut entry, 3), Outcome::Quiet);
    assert_eq!(entry.last_checked(), Some(3));
    assert_eq!(checks.load(Ordering::SeqCst), 3);
}

#[test]
fn update_is_always_sent_and_keeps_the_state() {
    let update = |text: &str| Action::Update { message: Some(text.to_string()) };
    let (monitor, _checks) = Scripted::new(vec![
        update("load 1"),
        signal("x"),
        update("load 2"),
        Action::Update { message: None },
        update("load 3"),
    ]);
    let recorder = Recorder::new(vec![true, true, true, true, false]);
    let mut entry = Entry::new("down", "up", 0, monitor, &recorder);
    assert_eq!(handle_entry(&mut entry, 0), Outcome::Delivered(NoticeKind::Status));
    assert!(!entry.has_fired());
    assert_eq!(handle_entry(&mut entry, 1), Outcome::Delivered(NoticeKind::Fire));
    assert_eq!(handle_entry(&mut entry, 2), Outcome::Delivered(NoticeKind::Status));
    assert!(entry.has_fired());
    assert_eq!(handle_entry(&mut entry, 3), Outcome::Delivered(NoticeKind::Status));
    assert!(entry.has_fired());
    assert_eq!(
        handle_entry(&mut entry, 4),
        Outcome::Failed(NoticeKind::Status, "relay is down".to_string())
    );
    assert!(entry.has_fired());
    assert_eq!(
        recorder.sent(),
        vec![
            ("down".to_string(), Some("load 1".to_string())),
            ("down".to_string(), Some("x".to_string())),
            ("down".to_string(), Some("load 2".to_string())),
            ("down".to_string(), None),
            ("down".to_string(), Some("load 3".to_string())),
        ]
    );
}

#[test]
fn compose_picks_text_and_diagnostic() {
    let (monitor, _checks) = Scripted::new(vec![signal("x")]);
    let recorder = Recorder::new(vec![]);
    let mut entry = Entry::new("down", "up", 0, monitor, &recorder);
    assert_eq!(
        entry.compose(signal("disk full")),
        Some(Notice {
            kind: NoticeKind::Fire,
            message: "down".to_string(),
            diagnostic: Some("disk full".to_string()),
        })
    );
    assert_eq!(entry.compose(Action::Notify { diagnostic: None }).unwrap().diagnostic, None);
    assert_eq!(entry.compose(Action::Nothing), None);
    assert_eq!(
        entry.compose(Action::Update { message: Some("42".to_string()) }),
        Some(Notice {
            kind: NoticeKind::Status,
            message: "down".to_string(),
            diagnostic: Some("42".to_string()),
        })
    );
    handle_entry(&mut entry, 0);
    assert!(entry.has_fired());
    assert_eq!(entry.compose(signal("disk full")), None);
    assert_eq!(
        entry.compose(Action::Nothing),
        Some(Notice { kind: NoticeKind::Recover, message: "up".to_string(), diagnostic: None })
    );
    assert_eq!(
        entry.compose(Action::Update { message: None }),
        Some(Notice { kind: NoticeKind::Status, message: "down".to_string(), diagnostic: None })
    );
}

#[test]
fn settle_moves_only_on_delivery() {
    assert!(settle(false, NoticeKind::Fire, true));
    assert!(!settle(false, NoticeKind::Fire, false));
    assert!(settle(true, NoticeKind::Fire, false));
    assert!(!settle(true, NoticeKind::Recover, true));
    assert!(settle(true, NoticeKind::Recover, false));
    assert!(!settle(false, NoticeKind::Recover, false));
    assert!(settle(true, NoticeKind::Status, true));
    assert!(settle(true, NoticeKind::Status, false));
    assert!(!settle(false, NoticeKind::Status, true));
    assert!(!settle(false, NoticeKind::Status, false));
}

#[test]
fn borrowed_monitor_can_be_registered() {
    let (mut monitor, checks) = Scripted::new(vec![signal("x")]);
    let recorder = Recorder::new(vec![]);
    {
        let mut entry = Entry::new("down", "up", 0, &mut monitor, &recorder);
        assert_eq!(handle_entry(&mut entry, 0), Outcome::Delivered(NoticeKind::Fire));
    }
    assert_eq!(checks.load(Ordering::SeqCst), 1);
    assert_eq!(monitor.check(), Action::Nothing);
}

#[test]
fn conclude_reports_the_answer_of_the_notifier() {
    assert_eq!(conclude(NoticeKind::Fire, Ok(())), Outcome::Delivered(NoticeKind::Fire));
    assert_eq!(conclude(NoticeKind::Status, Ok(())), Outcome::Delivered(NoticeKind::Status));
    assert_eq!(
        conclude(NoticeKind::Recover, Err("busy".to_string())),
        Outcome::Failed(NoticeKind::Recover, "busy".to_string())
    );
}

#[test]
fn lent_monitor_reports_what_the_monitor_reports() {
    let (mut monitor, checks) = Scripted::new(vec![signal("one"), Action::Nothing, signal("two")]);
    {
        let mut lent = &mut monitor;
        assert_eq!(<&mut Scripted as Monitor>::check(&mut lent), signal("one"));
        assert_eq!(<&mut Scripted as Monitor>::check(&mut lent), Action::Nothing);
    }
    assert_eq!(checks.load(Ordering::SeqCst), 2);
    assert_eq!(monitor.check(), signal("two"));
    assert_eq!(checks.load(Ordering::SeqCst), 3);
}
