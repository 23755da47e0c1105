use reload::control::{reattach_target, ReattachError};
use reload::identity::SessionIdentity;
use reload::poller::ReattachPoller;

#[test]
fn unchanged_values_trigger_no_attempts() {
    let id = SessionIdentity { time_part: 100, rand_part: 200 };
    let mut poller = ReattachPoller::new(id, 0);
    let mut attempts = 0;
    for _ in 0..100 {
        if poller.needs_reattach(&id, 0) {
            attempts += 1;
            poller.note_attached(id, 0);
        }
    }
    assert_eq!(attempts, 0);
}

#[test]
fn one_counter_change_triggers_exactly_one_attempt() {
    let id = SessionIdentity { time_part: 100, rand_part: 200 };
    let mut poller = ReattachPoller::new(id, 0);
    let mut attempts = 0;
    for _ in 0..100 {
        if poller.needs_reattach(&id, 0) {
            attempts += 1;
            poller.note_attached(id, 0);
        }
    }
    // The update-event counter ticks once; every later callback samples the
    // new value.
    for _ in 0..100 {
        if poller.needs_reattach(&id, 1) {
            attempts += 1;
            poller.note_attached(id, 1);
        }
    }
    assert_eq!(attempts, 1);
}

#[test]
fn identity_change_triggers_reattach() {
    let id = SessionIdentity { time_part: 100, rand_part: 200 };
    let other = SessionIdentity { time_part: 100, rand_part: 201 };
    let poller = ReattachPoller::new(id, 7);
    assert!(!poller.needs_reattach(&id, 7));
    assert!(poller.needs_reattach(&other, 7));
    assert!(poller.needs_reattach(&id, 8));
}

#[test]
fn reattach_target_reads_descriptor() {
    let record = String::from("current_lib_file: /tmp/vsthotload1/reloaded9.dll");
    assert_eq!(
        reattach_target(Some(&record)),
        Ok(String::from("/tmp/vsthotload1/reloaded9.dll"))
    );
}

#[test]
fn reattach_target_reports_missing_descriptor() {
    assert_eq!(reattach_target(None), Err(ReattachError::MissingDescriptor));
}

#[test]
fn reattach_target_reports_malformed_descriptor() {
    assert_eq!(
        reattach_target(Some("no key here")),
        Err(ReattachError::MalformedDescriptor)
    );
}
