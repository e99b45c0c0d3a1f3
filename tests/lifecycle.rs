use restock_watch::config::settings_from;
use restock_watch::error::{Setting, WatchError};
use restock_watch::machine::{
    classify_probe, Action, Event, Outcome, Phase, ProbeOutcome, Watcher, BACKOFF_SECONDS,
};
use restock_watch::target::{NOTIFICATION_BODY, PRODUCT_URL};

/// Runs a whole watch, answering each action from a script, and returns every
/// action that was asked for, the last one being `Finish`.
fn drive(probes: &[ProbeOutcome], acquire_ok: bool, notify_ok: bool) -> Vec<Action> {
    let mut w = Watcher::new();
    let mut actions = vec![w.pending()];
    let mut next_probe = 0;
    loop {
        let event = match *actions.last().unwrap() {
            Action::SignIn => Event::SignedIn { ok: true },
            Action::Navigate => Event::Navigated { ok: true },
            Action::Probe => {
                let outcome = probes[next_probe];
                next_probe += 1;
                Event::Probed { outcome }
            }
            Action::ReportUnavailable => Event::Reported,
            Action::Wait { .. } => Event::Waited,
            Action::Reload => Event::Reloaded { ok: true },
            Action::Acquire => Event::Acquired { ok: acquire_ok },
            Action::Notify => Event::Notified { ok: notify_ok },
            Action::Finish { .. } => return actions,
        };
        assert!(w.accepts(event));
        actions.push(w.step(event));
    }
}

fn count(actions: &[Action], wanted: Action) -> usize {
    actions.iter().filter(|a| **a == wanted).count()
}

fn waits(actions: &[Action]) -> Vec<u64> {
    actions
        .iter()
        .filter_map(|a| match a {
            Action::Wait { remaining } => Some(*remaining),
            _ => None,
        })
        .collect()
}

#[test]
fn two_unavailable_then_available() {
    let actions = drive(&[ProbeOutcome::Disabled, ProbeOutcome::Disabled, ProbeOutcome::Enabled], true, true);
    assert_eq!(count(&actions, Action::Reload), 2);
    assert_eq!(count(&actions, Action::ReportUnavailable), 2);
    assert_eq!(count(&actions, Action::Acquire), 1);
    assert_eq!(count(&actions, Action::Notify), 1);
    let acquire_at = actions.iter().position(|a| *a == Action::Acquire).unwrap();
    let notify_at = actions.iter().position(|a| *a == Action::Notify).unwrap();
    assert!(actions[..acquire_at].iter().all(|a| *a != Action::Notify));
    assert_eq!(notify_at, acquire_at + 1);
    assert_eq!(
        *actions.last().unwrap(),
        Action::Finish { outcome: Outcome::Acquired { notified: true } }
    );
    assert_eq!(
        NOTIFICATION_BODY,
        "Xbox Series X has been added to your cart at https://www.bestbuy.com/cart"
    );
}

#[test]
fn available_on_first_probe() {
    let actions = drive(&[ProbeOutcome::Enabled], true, true);
    assert_eq!(waits(&actions).len(), 0);
    assert_eq!(count(&actions, Action::Reload), 0);
    assert_eq!(
        actions,
        vec![
            Action::SignIn,
            Action::Navigate,
            Action::Probe,
            Action::Acquire,
            Action::Notify,
            Action::Finish { outcome: Outcome::Acquired { notified: true } },
        ]
    );
}

#[test]
fn unconfirmed_acquisition_fails_without_notifying() {
    let actions = drive(&[ProbeOutcome::Disabled, ProbeOutcome::Enabled], false, true);
    assert_eq!(count(&actions, Action::Acquire), 1);
    assert_eq!(count(&actions, Action::Notify), 0);
    assert_eq!(
        *actions.last().unwrap(),
        Action::Finish { outcome: Outcome::Failed { error: WatchError::Acquisition } }
    );
}

#[test]
fn failed_notification_still_acquired() {
    let actions = drive(&[ProbeOutcome::Enabled], true, false);
    assert_eq!(count(&actions, Action::Notify), 1);
    assert_eq!(
        *actions.last().unwrap(),
        Action::Finish { outcome: Outcome::Acquired { notified: false } }
    );
}

#[test]
fn missing_control_aborts() {
    let actions = drive(&[ProbeOutcome::Disabled, ProbeOutcome::NotFound], true, true);
    assert_eq!(count(&actions, Action::Acquire), 0);
    assert_eq!(count(&actions, Action::Notify), 0);
    assert_eq!(count(&actions, Action::Reload), 1);
    assert_eq!(
        *actions.last().unwrap(),
        Action::Finish { outcome: Outcome::Failed { error: WatchError::Probe } }
    );
}

#[test]
fn every_countdown_is_the_same() {
    let actions = drive(
        &[ProbeOutcome::Disabled, ProbeOutcome::Disabled, ProbeOutcome::Disabled, ProbeOutcome::Enabled],
        true,
        true,
    );
    let one: Vec<u64> = (0..=BACKOFF_SECONDS).rev().collect();
    assert_eq!(one.len(), 16);
    assert_eq!(one[0], 15);
    let mut all = Vec::new();
    for _ in 0..3 {
        all.extend_from_slice(&one);
    }
    assert_eq!(waits(&actions), all);
}

#[test]
fn countdown_then_reload_then_probe() {
    let mut w = Watcher::new();
    w.step(Event::SignedIn { ok: true });
    w.step(Event::Navigated { ok: true });
    assert_eq!(
        w.step(Event::Probed { outcome: ProbeOutcome::Disabled }),
        Action::ReportUnavailable
    );
    assert_eq!(w.step(Event::Reported), Action::Wait { remaining: 15 });
    for expected in (0..15).rev() {
        assert_eq!(w.step(Event::Waited), Action::Wait { remaining: expected });
    }
    assert_eq!(w.step(Event::Waited), Action::Reload);
    assert_eq!(w.cycles, 0);
    assert_eq!(w.step(Event::Reloaded { ok: true }), Action::Probe);
    assert_eq!(w.cycles, 1);
    assert_eq!(w.phase, Phase::Probing);
}

#[test]
fn sign_in_failure_ends_the_watch() {
    let mut w = Watcher::new();
    assert_eq!(w.pending(), Action::SignIn);
    assert_eq!(
        w.step(Event::SignedIn { ok: false }),
        Action::Finish { outcome: Outcome::Failed { error: WatchError::Authentication } }
    );
}

#[test]
fn navigation_failure_ends_the_watch() {
    let mut w = Watcher::new();
    w.step(Event::SignedIn { ok: true });
    assert_eq!(
        w.step(Event::Navigated { ok: false }),
        Action::Finish { outcome: Outcome::Failed { error: WatchError::Navigation } }
    );
}

#[test]
fn reload_failure_ends_the_watch() {
    let mut w = Watcher::new();
    w.step(Event::SignedIn { ok: true });
    w.step(Event::Navigated { ok: true });
    w.step(Event::Probed { outcome: ProbeOutcome::Disabled });
    w.step(Event::Reported);
    for _ in 0..=BACKOFF_SECONDS {
        w.step(Event::Waited);
    }
    assert_eq!(w.pending(), Action::Reload);
    assert_eq!(
        w.step(Event::Reloaded { ok: false }),
        Action::Finish { outcome: Outcome::Failed { error: WatchError::Navigation } }
    );
    assert_eq!(w.cycles, 0);
}

#[test]
fn unanswered_event_changes_nothing() {
    let mut w = Watcher::new();
    assert!(!w.accepts(Event::Waited));
    assert_eq!(w.step(Event::Waited), Action::SignIn);
    assert_eq!(w, Watcher::new());
}

#[test]
fn finished_watch_stays_finished() {
    let mut w = Watcher::new();
    w.step(Event::SignedIn { ok: false });
    let done = w;
    for e in [Event::SignedIn { ok: true }, Event::Probed { outcome: ProbeOutcome::Enabled }, Event::Acquired { ok: true }] {
        assert!(!w.accepts(e));
        w.step(e);
        assert_eq!(w, done);
    }
}

#[test]
fn probe_classification() {
    assert_eq!(classify_probe(true, false), ProbeOutcome::Enabled);
    assert_eq!(classify_probe(true, true), ProbeOutcome::Disabled);
    assert_eq!(classify_probe(false, false), ProbeOutcome::NotFound);
    assert_eq!(classify_probe(false, true), ProbeOutcome::NotFound);
}

fn some(s: &str) -> Option<String> {
    Some(s.to_string())
}

#[test]
fn all_settings_present() {
    let s = settings_from(some("a@b.c"), some("pw"), some("AC1"), some("tok"), some("+1"), some("+2"))
        .unwrap();
    assert_eq!(s.credentials.email, "a@b.c");
    assert_eq!(s.credentials.password, "pw");
    assert_eq!(s.messaging.account_sid, "AC1");
    assert_eq!(s.messaging.auth_token, "tok");
    assert_eq!(s.messaging.to_number, "+1");
    assert_eq!(s.messaging.from_number, "+2");
    assert!(PRODUCT_URL.contains("skuId=6428324"));
}

#[test]
fn each_missing_setting_is_named() {
    let full = [some("e"), some("p"), some("s"), some("t"), some("to"), some("from")];
    let keys = [
        Setting::Email,
        Setting::Password,
        Setting::AccountSid,
        Setting::AuthToken,
        Setting::ToNumber,
        Setting::FromNumber,
    ];
    for (i, key) in keys.iter().enumerate() {
        let mut v = full.clone();
        v[i] = None;
        let [a, b, c, d, e, f] = v;
        match settings_from(a, b, c, d, e, f) {
            Err(err) => assert_eq!(err, WatchError::Config(*key)),
            Ok(_) => panic!("missing setting accepted"),
        }
    }
}

#[test]
fn first_missing_setting_wins() {
    match settings_from(some("e"), None, some("s"), None, None, some("f")) {
        Err(err) => assert_eq!(err, WatchError::Config(Setting::Password)),
        Ok(_) => panic!("missing setting accepted"),
    }
}
