//! What holds of the controller's transitions for every state, table of
//! bindings and key. Each statement is proved from the definitions that the
//! contracts of [`Controller`](crate::control::Controller) use.

use vstd::prelude::*;
use crate::bind::{awaits_more, begins_bound, bound_op, is_strict_prefix};
use crate::control::{
    applied, dispatched, elapsed, inserts_directly, outcome_of, ran, stepped, ticked,
    with_alert, Input, OutcomeView, PromptState, State, TERM_CHANGE_DELAY,
};
use crate::env::{Edit, RequestView};
use crate::input::{line_directive, Directive};
use crate::key::{ctrl_g, seq_label, Key};
use crate::op::{op_quits, op_requests, Action, Op};

verus! {

/// The requests by which an alert on display is removed: none if no alert is
/// on display.
pub open spec fn alert_removal<A>(s: State<A>) -> Seq<RequestView> {
    if s.alert is Some {
        seq![RequestView::ClearAlert, RequestView::ShowCursor]
    } else {
        seq![]
    }
}

/// A plain character that arrives while no key sequence is under way and no
/// question is open is inserted as it is, and the alert is removed. The
/// bindings play no part: with any other table the result is the same.
pub proof fn law_plain_char_is_inserted<A>(
    s: State<A>,
    table: Map<Seq<Key>, Op>,
    other: Map<Seq<Key>, Op>,
    c: char,
    now: u64,
    size_changed: bool,
)
    requires
        s.pending.len() == 0,
        s.question is None,
    ensures
        stepped(s, table, Key::Char(c), now, size_changed).1 is Continue,
        stepped(s, table, Key::Char(c), now, size_changed).0 == (State {
            alert: None,
            requests: s.requests.push(RequestView::Edit(Edit::InsertChar(c))) + alert_removal(s),
            ..s
        }),
        stepped(s, table, Key::Char(c), now, size_changed) == stepped(
            s,
            other,
            Key::Char(c),
            now,
            size_changed,
        ),
{
    let after = stepped(s, table, Key::Char(c), now, size_changed).0;
    assert(after.requests =~= s.requests.push(RequestView::Edit(Edit::InsertChar(c)))
        + alert_removal(s));
}

/// The keys of a sequence of readings.
pub open spec fn keys_of(inputs: Seq<Input>) -> Seq<Key> {
    inputs.map_values(|i: Input| i.key)
}

/// The requests made while `keys` are added one by one to the pending
/// sequence `pending` and more input is awaited after each: after every key
/// the sequence as it then stands is shown as the alert.
pub open spec fn prefix_alerts(pending: Seq<Key>, keys: Seq<Key>) -> Seq<RequestView>
    decreases keys.len(),
{
    if keys.len() == 0 {
        seq![]
    } else {
        seq![RequestView::SetAlert(seq_label(pending.push(keys[0]))), RequestView::ShowCursor]
            + prefix_alerts(pending.push(keys[0]), keys.drop_first())
    }
}

proof fn lemma_shorter_begins_bound(table: Map<Seq<Key>, Op>, full: Seq<Key>, n: int)
    requires
        begins_bound(table, full),
        0 <= n <= full.len(),
    ensures
        begins_bound(table, full.take(n)),
{
    let bound = choose|bound: Seq<Key>| #[trigger]
        table.dom().contains(bound) && is_strict_prefix(full, bound);
    assert(bound.take(n) =~= bound.take(full.len() as int).take(n));
    assert(full.take(n).len() == n);
    assert(table.dom().contains(bound) && is_strict_prefix(full.take(n), bound));
}

/// Keys that lead towards a longer bound sequence accumulate. Let no
/// question be open, let the keys of `inputs` hold neither an idle tick nor
/// Ctrl-G, let a key sequence be under way or the first key be no plain
/// character, let the pending sequence extended by all the keys begin a
/// longer bound sequence, and let it be unbound after each key. Then a run
/// over `inputs` consumes them all, invokes no operation, leaves the pending
/// sequence extended by exactly these keys, and after each key shows the
/// sequence as the alert.
pub proof fn law_prefix_accumulates<A>(s: State<A>, table: Map<Seq<Key>, Op>, inputs: Seq<Input>)
    requires
        s.question is None,
        forall|i: int|
            0 <= i < inputs.len() ==> (#[trigger] inputs[i]).key != Key::Idle && inputs[i].key
                != ctrl_g(),
        inputs.len() > 0 ==> !inserts_directly(s, inputs[0].key),
        begins_bound(table, s.pending + keys_of(inputs)),
        forall|j: int|
            1 <= j <= inputs.len() ==> !table.dom().contains(
                s.pending + #[trigger] keys_of(inputs).take(j),
            ),
    ensures
        ran(s, table, inputs).1 == inputs.len(),
        ran(s, table, inputs).2 is Continue,
        ran(s, table, inputs).0 == (State {
            pending: s.pending + keys_of(inputs),
            alert: if inputs.len() > 0 {
                Some(inputs.last().now)
            } else {
                s.alert
            },
            requests: s.requests + prefix_alerts(s.pending, keys_of(inputs)),
            ..s
        }),
    decreases inputs.len(),
{
    let keys = keys_of(inputs);
    if inputs.len() == 0 {
        assert(s.pending + keys =~= s.pending);
        assert(s.requests + prefix_alerts(s.pending, keys) =~= s.requests);
    } else {
        let input = inputs[0];
        let pending = s.pending.push(input.key);
        let rest = inputs.drop_first();
        let full = s.pending + keys;
        assert(keys[0] == input.key);
        assert(keys_of(rest) =~= keys.drop_first());
        assert(s.pending + keys.take(1) =~= pending);
        assert(full.take(pending.len() as int) =~= pending);
        lemma_shorter_begins_bound(table, full, pending.len() as int);
        assert(awaits_more(table, pending));
        assert(bound_op(table, pending) is None);
        let next = with_alert(State { pending, ..s }, seq_label(pending), input.now);
        assert(stepped(s, table, input.key, input.now, input.size_changed) == (
            next,
            OutcomeView::<A>::Continue,
        ));
        assert(next.pending + keys_of(rest) =~= full);
        assert forall|j: int| 1 <= j <= rest.len() implies !table.dom().contains(
            next.pending + #[trigger] keys_of(rest).take(j),
        ) by {
            assert(next.pending + keys_of(rest).take(j) =~= s.pending + keys.take(j + 1));
        }
        assert forall|i: int| 0 <= i < rest.len() implies (#[trigger] rest[i]).key != Key::Idle
            && rest[i].key != ctrl_g() by {
            assert(rest[i] == inputs[i + 1]);
        }
        law_prefix_accumulates(next, table, rest);
        assert(next.requests + prefix_alerts(pending, keys_of(rest)) =~= s.requests
            + prefix_alerts(s.pending, keys));
        if rest.len() > 0 {
            assert(rest.last() == inputs.last());
        }
    }
}

/// A key that completes a bound sequence invokes the operation bound to it
/// exactly once and leaves no key pending, whether or not an alert was on
/// display. An operation that does not quit removes the alert; one that
/// quits ends the loop and changes nothing else.
pub proof fn law_bound_sequence_resolves<A>(
    s: State<A>,
    table: Map<Seq<Key>, Op>,
    key: Key,
    now: u64,
    size_changed: bool,
    op: Op,
)
    requires
        s.question is None,
        key != Key::Idle,
        key != ctrl_g(),
        !inserts_directly(s, key),
        bound_op(table, s.pending.push(key)) == Some(op),
    ensures
        stepped(s, table, key, now, size_changed).1 == if op_quits(op) {
            OutcomeView::<A>::Quit
        } else {
            OutcomeView::<A>::Continue
        },
        stepped(s, table, key, now, size_changed).0 == (State {
            pending: Seq::empty(),
            alert: if op_quits(op) {
                s.alert
            } else {
                None
            },
            requests: s.requests + op_requests(op) + if op_quits(op) {
                seq![]
            } else {
                alert_removal(s)
            },
            ..s
        }),
{
    let after = stepped(s, table, key, now, size_changed).0;
    assert(after.requests =~= s.requests + op_requests(op) + if op_quits(op) {
        seq![]
    } else {
        alert_removal(s)
    });
}

/// A key after which the pending sequence is neither bound nor the
/// beginning of a longer bound sequence leaves no key pending and sets an
/// alert: the sequence, then `: undefined key` if it has one key and
/// `: undefined key sequence` if it has more.
pub proof fn law_undefined_sequence_alerts<A>(
    s: State<A>,
    table: Map<Seq<Key>, Op>,
    key: Key,
    now: u64,
    size_changed: bool,
)
    requires
        s.question is None,
        key != Key::Idle,
        key != ctrl_g(),
        !inserts_directly(s, key),
        !table.dom().contains(s.pending.push(key)),
        !begins_bound(table, s.pending.push(key)),
    ensures
        stepped(s, table, key, now, size_changed).1 is Continue,
        stepped(s, table, key, now, size_changed).0 == (State {
            pending: Seq::empty(),
            alert: Some(now),
            requests: s.requests.push(
                RequestView::SetAlert(
                    seq_label(s.pending.push(key)) + ": undefined "@ + if s.pending.len() == 0 {
                        "key"@
                    } else {
                        "key sequence"@
                    },
                ),
            ).push(RequestView::ShowCursor),
            ..s
        }),
{
}

/// Ctrl-G while no question is open discards the pending sequence and
/// removes the alert, and invokes no operation, whatever is bound.
pub proof fn law_cancel_resets<A>(
    s: State<A>,
    table: Map<Seq<Key>, Op>,
    now: u64,
    size_changed: bool,
)
    requires
        s.question is None,
    ensures
        stepped(s, table, ctrl_g(), now, size_changed).1 is Continue,
        stepped(s, table, ctrl_g(), now, size_changed).0 == (State {
            pending: Seq::empty(),
            alert: None,
            requests: s.requests + alert_removal(s),
            ..s
        }),
{
    let after = stepped(s, table, ctrl_g(), now, size_changed).0;
    assert(after.requests =~= s.requests + alert_removal(s));
}

/// A question that is opened while an alert is on display removes the alert
/// before the prompt is shown.
pub proof fn law_question_clears_alert<A>(s: State<A>, prompt: String, answer_fn: A, now: u64)
    requires
        s.alert is Some,
    ensures
        applied(s, Action::Question(prompt, answer_fn), now) == (State {
            alert: None,
            question: Some(PromptState { prompt: prompt@, text: Seq::empty(), answer_fn }),
            requests: s.requests + seq![
                RequestView::ClearAlert,
                RequestView::ShowCursor,
                RequestView::OpenPrompt(prompt@),
            ],
            ..s
        }),
{
    let after = applied(s, Action::Question(prompt, answer_fn), now);
    assert(after.requests =~= s.requests + seq![
        RequestView::ClearAlert,
        RequestView::ShowCursor,
        RequestView::OpenPrompt(prompt@),
    ]);
}

/// Ctrl-G while a question is open hands the answer callback out once, to
/// be called without a text, and destroys the question: the key after it,
/// if it is not an idle tick, is resolved as a key outside any question.
pub proof fn law_cancel_answers_without_text<A>(
    s: State<A>,
    table: Map<Seq<Key>, Op>,
    now: u64,
    size_changed: bool,
    next: Input,
)
    requires
        s.question is Some,
        next.key != Key::Idle,
    ensures
        stepped(s, table, ctrl_g(), now, size_changed).1 == OutcomeView::Answer(
            s.question->0.answer_fn,
            None,
        ),
        stepped(s, table, ctrl_g(), now, size_changed).0 == (State {
            question: None,
            requests: s.requests.push(RequestView::ClosePrompt).push(RequestView::ShowCursor),
            ..s
        }),
        stepped(
            stepped(s, table, ctrl_g(), now, size_changed).0,
            table,
            next.key,
            next.now,
            next.size_changed,
        ) == dispatched(
            stepped(s, table, ctrl_g(), now, size_changed).0,
            table,
            next.key,
            next.now,
        ),
{
}

/// A key that the line editor takes as acceptance hands the answer callback
/// out once, to be called with exactly the line as it stands at that
/// moment, and destroys the question.
pub proof fn law_accept_answers_with_line<A>(
    s: State<A>,
    table: Map<Seq<Key>, Op>,
    key: Key,
    now: u64,
    size_changed: bool,
)
    requires
        s.question is Some,
        line_directive(key) == Directive::Accept,
    ensures
        stepped(s, table, key, now, size_changed).1 == OutcomeView::Answer(
            s.question->0.answer_fn,
            Some(s.question->0.text),
        ),
        stepped(s, table, key, now, size_changed).0 == (State {
            question: None,
            requests: s.requests.push(RequestView::ClosePrompt).push(RequestView::ShowCursor),
            ..s
        }),
{
}

/// While the size of the terminal has been stable for no longer than the
/// delay, idle ticks ask for nothing and keep the timer; the first tick
/// after the delay asks for one new layout and consumes the timer, so that
/// a later tick without a change of size asks for nothing more.
pub proof fn law_resize_is_debounced<A>(
    s: State<A>,
    since: u64,
    early: u64,
    late: u64,
    later: u64,
)
    requires
        s.resize_timer == Some(since),
        elapsed(since, early) <= TERM_CHANGE_DELAY,
        elapsed(since, late) > TERM_CHANGE_DELAY,
    ensures
        ticked(s, early, false) == s,
        ticked(s, late, false) == (State {
            resize_timer: None,
            requests: s.requests.push(RequestView::Resize),
            ..s
        }),
        ticked(ticked(s, late, false), later, false) == ticked(s, late, false),
{
}

/// No reading is consumed after one whose outcome is not `Continue`: a run
/// that ends so ends in the same state, after the same number of readings
/// and with the same outcome, whatever readings follow.
pub proof fn law_run_stops_at_outcome<A>(
    s: State<A>,
    table: Map<Seq<Key>, Op>,
    inputs: Seq<Input>,
    extra: Seq<Input>,
)
    requires
        !(ran(s, table, inputs).2 is Continue),
    ensures
        ran(s, table, inputs + extra) == ran(s, table, inputs),
        1 <= ran(s, table, inputs).1 <= inputs.len(),
    decreases inputs.len(),
{
    if inputs.len() > 0 {
        let all = inputs + extra;
        assert(all[0] == inputs[0]);
        let first = stepped(s, table, inputs[0].key, inputs[0].now, inputs[0].size_changed);
        if first.1 is Continue {
            assert(all.drop_first() =~= inputs.drop_first() + extra);
            law_run_stops_at_outcome(first.0, table, inputs.drop_first(), extra);
        }
    }
}

/// Whether keys are pending only while no question is open.
pub open spec fn pending_outside_question<A>(s: State<A>) -> bool {
    s.question is Some ==> s.pending.len() == 0
}

/// Keys are pending only while no question is open. A key keeps it so, and
/// so does an action that is applied while no key is pending, as it is after
/// the answer to a question.
pub proof fn law_pending_only_outside_question<A>(
    s: State<A>,
    table: Map<Seq<Key>, Op>,
    input: Input,
    action: Action<A>,
)
    requires
        pending_outside_question(s),
    ensures
        pending_outside_question(stepped(s, table, input.key, input.now, input.size_changed).0),
        stepped(s, table, input.key, input.now, input.size_changed).1 is Answer
            ==> stepped(s, table, input.key, input.now, input.size_changed).0.pending.len() == 0,
        s.pending.len() == 0 ==> pending_outside_question(applied(s, action, input.now)),
{
}

/// An action that quits ends the loop and has no other effect, whether it
/// comes from an editing operation or from an answer callback.
pub proof fn law_quit_has_no_other_effect<A>(s: State<A>, now: u64)
    ensures
        applied(s, Action::<A>::Quit, now) == s,
        outcome_of(Action::<A>::Quit) == OutcomeView::<A>::Quit,
{
}

} // verus!
