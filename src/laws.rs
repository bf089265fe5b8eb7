use vstd::prelude::*;
use vstd::utf8::{decode_utf8, valid_utf8};

use crate::account::ConnectionDetails;
use crate::session::{
    is_over, port_in_range, start_spec, step, AbortReason, ActionView, EventView, SessionView,
    StageView,
};

verus! {

/// The state reached and the actions asked for when the outcomes arrive in
/// order, one after the other.
pub open spec fn run(s: SessionView, events: Seq<EventView>) -> (SessionView, Seq<ActionView>)
    decreases events.len(),
{
    if events.len() == 0 {
        (s, Seq::empty())
    } else {
        let (s1, a) = step(s, events[0]);
        let rest = run(s1, events.drop_first());
        (rest.0, seq![a] + rest.1)
    }
}

/// The whole cycle for an account: the first action, then one action per outcome.
pub open spec fn cycle(d: ConnectionDetails, events: Seq<EventView>) -> (
    SessionView,
    Seq<ActionView>,
) {
    let (s0, a0) = start_spec(d);
    let r = run(s0, events);
    (r.0, seq![a0] + r.1)
}

/// How many rows the actions insert into `emails`.
pub open spec fn store_count(actions: Seq<ActionView>) -> nat
    decreases actions.len(),
{
    if actions.len() == 0 {
        0
    } else {
        (if actions[0] is Store {
            1nat
        } else {
            0nat
        }) + store_count(actions.drop_first())
    }
}

/// How many rows a cycle may still insert from this stage.
pub open spec fn stores_left(stage: StageView) -> nat {
    match stage {
        StageView::Connecting
        | StageView::Authenticating
        | StageView::Selecting
        | StageView::Fetching
        | StageView::LoggingOut { .. } => 1,
        _ => 0,
    }
}

proof fn lemma_run_append(s: SessionView, first: Seq<EventView>, rest: Seq<EventView>)
    ensures
        ({
            let r1 = run(s, first);
            let r2 = run(r1.0, rest);
            run(s, first + rest) == (r2.0, r1.1 + r2.1)
        }),
    decreases first.len(),
{
    if first.len() == 0 {
        assert(first + rest =~= rest);
        assert(run(s, first).1 + run(s, rest).1 =~= run(s, rest).1);
    } else {
        let s1 = step(s, first[0]).0;
        let a = step(s, first[0]).1;
        lemma_run_append(s1, first.drop_first(), rest);
        assert((first + rest).drop_first() =~= first.drop_first() + rest);
        let r1 = run(s1, first.drop_first());
        let r2 = run(r1.0, rest);
        assert(seq![a] + (r1.1 + r2.1) =~= (seq![a] + r1.1) + r2.1);
    }
}

proof fn lemma_store_count_append(first: Seq<ActionView>, rest: Seq<ActionView>)
    ensures
        store_count(first + rest) == store_count(first) + store_count(rest),
    decreases first.len(),
{
    if first.len() == 0 {
        assert(first + rest =~= rest);
    } else {
        lemma_store_count_append(first.drop_first(), rest);
        assert((first + rest).drop_first() =~= first.drop_first() + rest);
    }
}

proof fn lemma_store_count_cons(a: ActionView, rest: Seq<ActionView>)
    ensures
        store_count(seq![a] + rest) == (if a is Store {
            1nat
        } else {
            0nat
        }) + store_count(rest),
{
    assert((seq![a] + rest).drop_first() =~= rest);
}

/// A cycle that is over stays as it is and asks for nothing more, whatever
/// outcomes still arrive.
pub proof fn lemma_over_is_final(s: SessionView, events: Seq<EventView>)
    requires
        is_over(s.stage),
    ensures
        run(s, events).0 == s,
        run(s, events).1.len() == events.len(),
        forall|i: int| 0 <= i < events.len() ==> #[trigger] run(s, events).1[i] is Idle,
        store_count(run(s, events).1) == 0,
    decreases events.len(),
{
    if events.len() > 0 {
        lemma_over_is_final(s, events.drop_first());
        let r = run(s, events.drop_first());
        lemma_store_count_cons(ActionView::Idle, r.1);
        assert forall|i: int| 0 <= i < events.len() implies #[trigger] run(s, events).1[i] is Idle by {
            if i > 0 {
                assert(run(s, events).1[i] == r.1[i - 1]);
            }
        }
    }
}

/// From any state, a run inserts no more rows than the stage still allows.
pub proof fn lemma_stores_bounded(s: SessionView, events: Seq<EventView>)
    ensures
        store_count(run(s, events).1) <= stores_left(s.stage),
    decreases events.len(),
{
    if events.len() > 0 {
        let (s1, a) = step(s, events[0]);
        lemma_stores_bounded(s1, events.drop_first());
        lemma_store_count_cons(a, run(s1, events.drop_first()).1);
    }
}

/// At most one row is inserted into `emails` per cycle, whatever the outcomes.
pub proof fn lemma_at_most_one_row(d: ConnectionDetails, events: Seq<EventView>)
    ensures
        store_count(cycle(d, events).1) <= 1,
{
    let (s0, a0) = start_spec(d);
    lemma_stores_bounded(s0, events);
    lemma_store_count_cons(a0, run(s0, events).1);
}

/// Once the outcomes so far have ended a cycle, later outcomes change neither
/// its state, nor the actions already asked for, nor the rows inserted.
pub proof fn lemma_cycle_after_over(
    d: ConnectionDetails,
    first: Seq<EventView>,
    rest: Seq<EventView>,
)
    requires
        is_over(cycle(d, first).0.stage),
    ensures
        cycle(d, first + rest).0 == cycle(d, first).0,
        store_count(cycle(d, first + rest).1) == store_count(cycle(d, first).1),
        forall|i: int|
            0 <= i < cycle(d, first).1.len() ==> #[trigger] cycle(d, first + rest).1[i]
                == cycle(d, first).1[i],
{
    let (s0, a0) = start_spec(d);
    lemma_run_append(s0, first, rest);
    let r1 = run(s0, first);
    let r2 = run(r1.0, rest);
    lemma_over_is_final(r1.0, rest);
    assert(seq![a0] + (r1.1 + r2.1) =~= (seq![a0] + r1.1) + r2.1);
    lemma_store_count_append(seq![a0] + r1.1, r2.1);
}

/// An empty inbox ends the cycle with an empty result, and no row is inserted.
pub proof fn lemma_empty_inbox(d: ConnectionDetails, rest: Seq<EventView>)
    requires
        port_in_range(d.imap_port),
    ensures
        ({
            let events = seq![
                EventView::Connected,
                EventView::LoggedIn,
                EventView::Selected,
                EventView::Fetched { first: None },
            ] + rest;
            let (s, actions) = cycle(d, events);
            &&& s.stage is Finished
            &&& actions[4] == ActionView::Finish { body: None }
            &&& store_count(actions) == 0
        }),
{
    let first = seq![
        EventView::Connected,
        EventView::LoggedIn,
        EventView::Selected,
        EventView::Fetched { first: None },
    ];
    reveal_with_fuel(run, 5);
    reveal_with_fuel(store_count, 6);
    assert(cycle(d, first).0.stage is Finished);
    lemma_cycle_after_over(d, first, rest);
}

/// A first message with a UTF-8 body is returned as text, after exactly one
/// row is inserted into `emails` for the account with that same text.
pub proof fn lemma_message_stored(d: ConnectionDetails, bytes: Seq<u8>, rest: Seq<EventView>)
    requires
        port_in_range(d.imap_port),
        valid_utf8(bytes),
    ensures
        ({
            let events = seq![
                EventView::Connected,
                EventView::LoggedIn,
                EventView::Selected,
                EventView::Fetched { first: Some(Some(bytes)) },
                EventView::LoggedOut,
                EventView::Stored,
            ] + rest;
            let (s, actions) = cycle(d, events);
            &&& s.stage is Finished
            &&& actions[5] == ActionView::Store { account: d.account_id, body: decode_utf8(bytes) }
            &&& actions[6] == ActionView::Finish { body: Some(decode_utf8(bytes)) }
            &&& store_count(actions) == 1
        }),
{
    let first = seq![
        EventView::Connected,
        EventView::LoggedIn,
        EventView::Selected,
        EventView::Fetched { first: Some(Some(bytes)) },
        EventView::LoggedOut,
        EventView::Stored,
    ];
    reveal_with_fuel(run, 7);
    reveal_with_fuel(store_count, 8);
    assert(cycle(d, first).0.stage is Finished);
    lemma_cycle_after_over(d, first, rest);
}

/// A first message whose body is not UTF-8 aborts the cycle, and no row is
/// inserted, whatever outcomes still arrive.
pub proof fn lemma_invalid_body_aborts(d: ConnectionDetails, bytes: Seq<u8>, rest: Seq<EventView>)
    requires
        port_in_range(d.imap_port),
        !valid_utf8(bytes),
    ensures
        ({
            let events = seq![
                EventView::Connected,
                EventView::LoggedIn,
                EventView::Selected,
                EventView::Fetched { first: Some(Some(bytes)) },
            ] + rest;
            let (s, actions) = cycle(d, events);
            &&& s.stage is Aborted
            &&& actions[4] == ActionView::Abort { reason: AbortReason::InvalidUtf8 }
            &&& store_count(actions) == 0
        }),
{
    let first = seq![
        EventView::Connected,
        EventView::LoggedIn,
        EventView::Selected,
        EventView::Fetched { first: Some(Some(bytes)) },
    ];
    reveal_with_fuel(run, 5);
    reveal_with_fuel(store_count, 6);
    assert(cycle(d, first).0.stage is Aborted);
    lemma_cycle_after_over(d, first, rest);
}

/// An IMAP error, whether opening the STARTTLS session or at any command up to
/// logout, ends the cycle with that error handed back, and no row is inserted.
pub proof fn lemma_imap_failure_reported(s: SessionView, rest: Seq<EventView>)
    requires
        s.stage is Connecting || s.stage is Authenticating || s.stage is Selecting
            || s.stage is Fetching || s.stage is LoggingOut,
    ensures
        ({
            let (s1, actions) = run(s, seq![EventView::ImapFailed] + rest);
            &&& s1.stage is Failed
            &&& actions[0] == ActionView::Fail
            &&& store_count(actions) == 0
        }),
{
    let first = seq![EventView::ImapFailed];
    reveal_with_fuel(run, 2);
    reveal_with_fuel(store_count, 2);
    let r1 = run(s, first);
    assert(r1.0.stage is Failed);
    lemma_run_append(s, first, rest);
    lemma_over_is_final(r1.0, rest);
    lemma_store_count_append(r1.1, run(r1.0, rest).1);
}

} // verus!
