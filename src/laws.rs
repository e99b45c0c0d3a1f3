//! What holds of every run of a watcher, over any sequence of events.
use vstd::prelude::*;
use crate::error::WatchError;
use crate::machine::{action_of, Action, Event, Outcome, Phase, ProbeOutcome, Watcher, BACKOFF_SECONDS};

verus! {

/// The watcher after a sequence of events, taken in order.
pub open spec fn feed(w: Watcher, evs: Seq<Event>) -> Watcher
    decreases evs.len(),
{
    if evs.len() == 0 {
        w
    } else {
        feed(w, evs.drop_last()).after(evs.last())
    }
}

/// The actions asked for after each event of a sequence.
pub open spec fn issued(w: Watcher, evs: Seq<Event>) -> Seq<Action>
    decreases evs.len(),
{
    if evs.len() == 0 {
        Seq::empty()
    } else {
        issued(w, evs.drop_last()).push(action_of(feed(w, evs).phase))
    }
}

/// How many actions of a sequence satisfy `p`.
pub open spec fn count_where(s: Seq<Action>, p: spec_fn(Action) -> bool) -> nat
    decreases s.len(),
{
    if s.len() == 0 {
        0
    } else {
        count_where(s.drop_last(), p) + if p(s.last()) {
            1nat
        } else {
            0nat
        }
    }
}

pub open spec fn is_reload(a: Action) -> bool {
    a == Action::Reload
}

pub open spec fn is_acquire(a: Action) -> bool {
    a == Action::Acquire
}

pub open spec fn is_notify(a: Action) -> bool {
    a == Action::Notify
}

pub open spec fn is_wait(a: Action) -> bool {
    a is Wait
}

/// `n` seconds elapsing, one event each.
pub open spec fn seconds(n: nat) -> Seq<Event> {
    Seq::new(n, |i: int| Event::Waited)
}

/// What the world answers to one unavailable probe: the probe, the report,
/// every second of the countdown, and a reload that succeeds.
pub open spec fn unavailable_cycle() -> Seq<Event> {
    seq![Event::Probed { outcome: ProbeOutcome::Disabled }, Event::Reported]
        + seconds(BACKOFF_SECONDS as nat + 1)
        + seq![Event::Reloaded { ok: true }]
}

/// `n` unavailable cycles followed by one probe that finds the product available.
pub open spec fn available_after(n: nat) -> Seq<Event>
    decreases n,
{
    if n == 0 {
        seq![Event::Probed { outcome: ProbeOutcome::Enabled }]
    } else {
        unavailable_cycle() + available_after((n - 1) as nat)
    }
}

pub open spec fn bump(c: u64) -> u64 {
    if c < u64::MAX {
        (c + 1) as u64
    } else {
        c
    }
}

/// One action is asked for after each event.
pub proof fn lemma_issued_len(w: Watcher, evs: Seq<Event>)
    ensures
        issued(w, evs).len() == evs.len(),
    decreases evs.len(),
{
    if evs.len() > 0 {
        lemma_issued_len(w, evs.drop_last());
    }
}

/// Feeding two sequences one after the other is feeding their concatenation.
pub proof fn lemma_feed_concat(w: Watcher, a: Seq<Event>, b: Seq<Event>)
    ensures
        feed(w, a + b) == feed(feed(w, a), b),
        issued(w, a + b) == issued(w, a) + issued(feed(w, a), b),
    decreases b.len(),
{
    if b.len() == 0 {
        assert(a + b =~= a);
        assert(issued(w, a) + issued(feed(w, a), b) =~= issued(w, a));
    } else {
        assert((a + b).drop_last() =~= a + b.drop_last());
        assert((a + b).last() == b.last());
        lemma_feed_concat(w, a, b.drop_last());
        assert(issued(w, a + b) =~= issued(w, a) + issued(feed(w, a), b));
    }
}

/// Counting over a concatenation adds the counts.
pub proof fn lemma_count_concat(s: Seq<Action>, t: Seq<Action>, p: spec_fn(Action) -> bool)
    ensures
        count_where(s + t, p) == count_where(s, p) + count_where(t, p),
    decreases t.len(),
{
    if t.len() == 0 {
        assert(s + t =~= s);
    } else {
        assert((s + t).drop_last() =~= s + t.drop_last());
        lemma_count_concat(s, t.drop_last(), p);
    }
}

proof fn lemma_single(w: Watcher, e: Event)
    ensures
        feed(w, seq![e]) == w.after(e),
        issued(w, seq![e]) == seq![action_of(w.after(e).phase)],
{
    assert(seq![e].drop_last() =~= Seq::<Event>::empty());
    assert(feed(w, Seq::<Event>::empty()) == w);
    assert(issued(w, Seq::<Event>::empty()) == Seq::<Action>::empty());
    assert(issued(w, seq![e]) =~= seq![action_of(w.after(e).phase)]);
}

proof fn lemma_count_single(a: Action, p: spec_fn(Action) -> bool)
    ensures
        count_where(seq![a], p) == if p(a) {
            1nat
        } else {
            0nat
        },
{
    assert(seq![a].drop_last() =~= Seq::<Action>::empty());
    assert(count_where(Seq::<Action>::empty(), p) == 0);
}

/// A countdown from `r` runs its remaining seconds, announcing each, and then
/// asks for a reload.
proof fn lemma_countdown(w: Watcher, r: u64)
    requires
        w.phase == (Phase::Waiting { remaining: r }),
    ensures
        feed(w, seconds(r as nat + 1)) == (Watcher { phase: Phase::Reloading, cycles: w.cycles }),
        count_where(issued(w, seconds(r as nat + 1)), |a: Action| is_wait(a)) == r as nat,
        count_where(issued(w, seconds(r as nat + 1)), |a: Action| is_reload(a)) == 1,
        count_where(issued(w, seconds(r as nat + 1)), |a: Action| is_acquire(a)) == 0,
        count_where(issued(w, seconds(r as nat + 1)), |a: Action| is_notify(a)) == 0,
    decreases r,
{
    let first = seq![Event::Waited];
    let w1 = w.after(Event::Waited);
    lemma_single(w, Event::Waited);
    if r == 0 {
        assert(seconds(1) =~= first);
        lemma_count_single(Action::Reload, |a: Action| is_wait(a));
        lemma_count_single(Action::Reload, |a: Action| is_reload(a));
        lemma_count_single(Action::Reload, |a: Action| is_acquire(a));
        lemma_count_single(Action::Reload, |a: Action| is_notify(a));
    } else {
        let rest = seconds(r as nat);
        assert(seconds(r as nat + 1) =~= first + rest);
        lemma_feed_concat(w, first, rest);
        let r1 = (r - 1) as u64;
        lemma_countdown(w1, r1);
        let head = seq![Action::Wait { remaining: r1 }];
        let tail = issued(w1, rest);
        lemma_count_concat(head, tail, |a: Action| is_wait(a));
        lemma_count_concat(head, tail, |a: Action| is_reload(a));
        lemma_count_concat(head, tail, |a: Action| is_acquire(a));
        lemma_count_concat(head, tail, |a: Action| is_notify(a));
        lemma_count_single(Action::Wait { remaining: r1 }, |a: Action| is_wait(a));
        lemma_count_single(Action::Wait { remaining: r1 }, |a: Action| is_reload(a));
        lemma_count_single(Action::Wait { remaining: r1 }, |a: Action| is_acquire(a));
        lemma_count_single(Action::Wait { remaining: r1 }, |a: Action| is_notify(a));
    }
}

proof fn lemma_pair(w: Watcher, e1: Event, e2: Event)
    ensures
        feed(w, seq![e1, e2]) == w.after(e1).after(e2),
        issued(w, seq![e1, e2]) == seq![
            action_of(w.after(e1).phase),
            action_of(w.after(e1).after(e2).phase),
        ],
{
    assert(seq![e1, e2] =~= seq![e1] + seq![e2]);
    lemma_feed_concat(w, seq![e1], seq![e2]);
    lemma_single(w, e1);
    lemma_single(w.after(e1), e2);
    assert(seq![action_of(w.after(e1).phase)] + seq![action_of(w.after(e1).after(e2).phase)]
        =~= seq![action_of(w.after(e1).phase), action_of(w.after(e1).after(e2).phase)]);
}

proof fn lemma_count_pair(a: Action, b: Action, p: spec_fn(Action) -> bool)
    ensures
        count_where(seq![a, b], p) == (if p(a) {
            1nat
        } else {
            0nat
        }) + (if p(b) {
            1nat
        } else {
            0nat
        }),
{
    assert(seq![a, b] =~= seq![a] + seq![b]);
    lemma_count_concat(seq![a], seq![b], p);
    lemma_count_single(a, p);
    lemma_count_single(b, p);
}

/// One unavailable probe, whatever the number of cycles before it, leads back
/// to probing through the same countdown: a report, then every second from
/// the backoff constant down to zero announced once, then exactly one reload,
/// and neither an acquisition nor a notification.
pub proof fn lemma_unavailable_cycle(w: Watcher)
    requires
        w.phase == Phase::Probing,
    ensures
        feed(w, unavailable_cycle()) == (Watcher { phase: Phase::Probing, cycles: bump(w.cycles) }),
        issued(w, unavailable_cycle())[0] == Action::ReportUnavailable,
        issued(w, unavailable_cycle())[1] == (Action::Wait { remaining: BACKOFF_SECONDS }),
        count_where(issued(w, unavailable_cycle()), |a: Action| is_wait(a)) == BACKOFF_SECONDS
            + 1,
        count_where(issued(w, unavailable_cycle()), |a: Action| is_reload(a)) == 1,
        count_where(issued(w, unavailable_cycle()), |a: Action| is_acquire(a)) == 0,
        count_where(issued(w, unavailable_cycle()), |a: Action| is_notify(a)) == 0,
{
    let a = seq![Event::Probed { outcome: ProbeOutcome::Disabled }, Event::Reported];
    let s = seconds(BACKOFF_SECONDS as nat + 1);
    let r = seq![Event::Reloaded { ok: true }];
    lemma_pair(w, Event::Probed { outcome: ProbeOutcome::Disabled }, Event::Reported);
    let w1 = feed(w, a);
    assert(w1 == (Watcher { phase: Phase::Waiting { remaining: BACKOFF_SECONDS }, cycles: w.cycles }));
    lemma_countdown(w1, BACKOFF_SECONDS);
    let w2 = feed(w1, s);
    lemma_single(w2, Event::Reloaded { ok: true });
    lemma_feed_concat(w, a, s);
    lemma_feed_concat(w, a + s, r);
    let ia = issued(w, a);
    let is = issued(w1, s);
    let ir = issued(w2, r);
    assert(issued(w, unavailable_cycle()) == (ia + is) + ir);
    assert(ia == seq![Action::ReportUnavailable, Action::Wait { remaining: BACKOFF_SECONDS }]);
    assert(ir == seq![Action::Probe]);
    assert(issued(w, unavailable_cycle())[0] == ia[0]);
    assert(issued(w, unavailable_cycle())[1] == ia[1]);
    lemma_count_pair(Action::ReportUnavailable, Action::Wait { remaining: BACKOFF_SECONDS }, |a: Action| is_wait(a));
    lemma_count_pair(Action::ReportUnavailable, Action::Wait { remaining: BACKOFF_SECONDS }, |a: Action| is_reload(a));
    lemma_count_pair(Action::ReportUnavailable, Action::Wait { remaining: BACKOFF_SECONDS }, |a: Action| is_acquire(a));
    lemma_count_pair(Action::ReportUnavailable, Action::Wait { remaining: BACKOFF_SECONDS }, |a: Action| is_notify(a));
    lemma_count_single(Action::Probe, |a: Action| is_wait(a));
    lemma_count_single(Action::Probe, |a: Action| is_reload(a));
    lemma_count_single(Action::Probe, |a: Action| is_acquire(a));
    lemma_count_single(Action::Probe, |a: Action| is_notify(a));
    lemma_count_concat(ia, is, |a: Action| is_wait(a));
    lemma_count_concat(ia, is, |a: Action| is_reload(a));
    lemma_count_concat(ia, is, |a: Action| is_acquire(a));
    lemma_count_concat(ia, is, |a: Action| is_notify(a));
    lemma_count_concat(ia + is, ir, |a: Action| is_wait(a));
    lemma_count_concat(ia + is, ir, |a: Action| is_reload(a));
    lemma_count_concat(ia + is, ir, |a: Action| is_acquire(a));
    lemma_count_concat(ia + is, ir, |a: Action| is_notify(a));
}

/// When a probe finds the product available after `n` unavailable probes,
/// the watcher has asked for exactly `n` reloads and `n` full countdowns, and
/// then for the acquisition exactly once, as its last action; it has asked for
/// no notification yet.
pub proof fn lemma_available_after(w: Watcher, n: nat)
    requires
        w.phase == Phase::Probing,
    ensures
        feed(w, available_after(n)).phase == Phase::Acquiring,
        issued(w, available_after(n)).last() == Action::Acquire,
        count_where(issued(w, available_after(n)), |a: Action| is_reload(a)) == n,
        count_where(issued(w, available_after(n)), |a: Action| is_acquire(a)) == 1,
        count_where(issued(w, available_after(n)), |a: Action| is_notify(a)) == 0,
        count_where(issued(w, available_after(n)), |a: Action| is_wait(a)) == n * (
        BACKOFF_SECONDS + 1),
    decreases n,
{
    if n == 0 {
        let e = Event::Probed { outcome: ProbeOutcome::Enabled };
        lemma_single(w, e);
        lemma_count_single(Action::Acquire, |a: Action| is_reload(a));
        lemma_count_single(Action::Acquire, |a: Action| is_acquire(a));
        lemma_count_single(Action::Acquire, |a: Action| is_notify(a));
        lemma_count_single(Action::Acquire, |a: Action| is_wait(a));
    } else {
        let c = unavailable_cycle();
        let rest = available_after((n - 1) as nat);
        lemma_unavailable_cycle(w);
        let w1 = feed(w, c);
        lemma_available_after(w1, (n - 1) as nat);
        lemma_feed_concat(w, c, rest);
        let ic = issued(w, c);
        let ir = issued(w1, rest);
        assert(issued(w, available_after(n)) == ic + ir);
        lemma_count_concat(ic, ir, |a: Action| is_reload(a));
        lemma_count_concat(ic, ir, |a: Action| is_acquire(a));
        lemma_count_concat(ic, ir, |a: Action| is_notify(a));
        lemma_count_concat(ic, ir, |a: Action| is_wait(a));
        assert(ir.len() > 0);
        assert((ic + ir).last() == ir.last());
        assert(n * (BACKOFF_SECONDS + 1) == (BACKOFF_SECONDS + 1) + (n - 1) * (BACKOFF_SECONDS + 1))
            by (nonlinear_arith);
    }
}

/// The acquisition is asked for only on entering the acquiring phase, and
/// that phase is entered only from probing, on a probe that found the
/// product available: never right after an unavailable probe.
pub proof fn lemma_acquire_only_on_available(w: Watcher, e: Event)
    requires
        w.phase != Phase::Acquiring,
        action_of(w.after(e).phase) == Action::Acquire,
    ensures
        w.phase == Phase::Probing,
        e == (Event::Probed { outcome: ProbeOutcome::Enabled }),
{
}

/// From the acquiring phase the notification is asked for exactly when the
/// acquisition was confirmed; an unconfirmed one ends the watch with an
/// acquisition error.
pub proof fn lemma_notify_iff_confirmed(w: Watcher, ok: bool)
    requires
        w.phase == Phase::Acquiring,
    ensures
        (action_of(w.after(Event::Acquired { ok }).phase) == Action::Notify) == ok,
        !ok ==> w.after(Event::Acquired { ok }).phase == (Phase::Done {
            outcome: Outcome::Failed { error: WatchError::Acquisition },
        }),
{
}

/// The notification is asked for only right after a confirmed acquisition.
pub proof fn lemma_notify_only_after_confirmed(w: Watcher, e: Event)
    requires
        w.phase != Phase::Notifying,
        action_of(w.after(e).phase) == Action::Notify,
    ensures
        w.phase == Phase::Acquiring,
        e == (Event::Acquired { ok: true }),
{
}

/// A finished watch stays as it is whatever happens next, and asks for
/// nothing but to finish.
pub proof fn lemma_done_is_final(w: Watcher, evs: Seq<Event>)
    requires
        w.is_done(),
    ensures
        feed(w, evs) == w,
        forall|i: int| 0 <= i < evs.len() ==> #[trigger] issued(w, evs)[i] == action_of(w.phase),
        count_where(issued(w, evs), |a: Action| is_acquire(a)) == 0,
        count_where(issued(w, evs), |a: Action| is_notify(a)) == 0,
    decreases evs.len(),
{
    lemma_issued_len(w, evs);
    if evs.len() > 0 {
        let s = issued(w, evs);
        lemma_done_is_final(w, evs.drop_last());
        lemma_issued_len(w, evs.drop_last());
        assert(s.drop_last() =~= issued(w, evs.drop_last()));
        assert forall|i: int| 0 <= i < evs.len() implies #[trigger] s[i] == action_of(w.phase) by {
            if i < evs.len() - 1 {
                assert(s[i] == issued(w, evs.drop_last())[i]);
            }
        }
    }
}

/// A probe that does not find the control ends the watch with a probe error,
/// and no later event brings an acquisition or a notification.
pub proof fn lemma_probe_error_aborts(w: Watcher, evs: Seq<Event>)
    requires
        w.phase == Phase::Probing,
    ensures
        w.after(Event::Probed { outcome: ProbeOutcome::NotFound }).phase == (Phase::Done {
            outcome: Outcome::Failed { error: WatchError::Probe },
        }),
        count_where(
            issued(w, seq![Event::Probed { outcome: ProbeOutcome::NotFound }] + evs),
            |a: Action| is_acquire(a),
        ) == 0,
        count_where(
            issued(w, seq![Event::Probed { outcome: ProbeOutcome::NotFound }] + evs),
            |a: Action| is_notify(a),
        ) == 0,
{
    let e = Event::Probed { outcome: ProbeOutcome::NotFound };
    let w1 = w.after(e);
    lemma_single(w, e);
    lemma_feed_concat(w, seq![e], evs);
    lemma_done_is_final(w1, evs);
    lemma_count_concat(issued(w, seq![e]), issued(w1, evs), |a: Action| is_acquire(a));
    lemma_count_concat(issued(w, seq![e]), issued(w1, evs), |a: Action| is_notify(a));
    lemma_count_single(action_of(w1.phase), |a: Action| is_acquire(a));
    lemma_count_single(action_of(w1.phase), |a: Action| is_notify(a));
}

/// An unavailable probe moves every probing watcher alike, whatever number of
/// cycles it has behind it: to the report that starts the countdown, with its
/// count of cycles untouched.
pub proof fn lemma_unavailable_same_each_cycle(w1: Watcher, w2: Watcher)
    requires
        w1.phase == Phase::Probing,
        w2.phase == Phase::Probing,
    ensures
        w1.after(Event::Probed { outcome: ProbeOutcome::Disabled }).phase == w2.after(
            Event::Probed { outcome: ProbeOutcome::Disabled },
        ).phase,
        w1.after(Event::Probed { outcome: ProbeOutcome::Disabled }).phase
            == Phase::ReportingUnavailable,
        w1.after(Event::Probed { outcome: ProbeOutcome::Disabled }).cycles == w1.cycles,
{
}

/// The countdown after an unavailable report starts from the same constant
/// for every watcher, whatever number of cycles it has behind it.
pub proof fn lemma_backoff_constant(w1: Watcher, w2: Watcher)
    requires
        w1.phase == Phase::ReportingUnavailable,
        w2.phase == Phase::ReportingUnavailable,
    ensures
        action_of(w1.after(Event::Reported).phase) == action_of(w2.after(Event::Reported).phase),
        action_of(w1.after(Event::Reported).phase) == (Action::Wait {
            remaining: BACKOFF_SECONDS,
        }),
{
}

} // verus!
