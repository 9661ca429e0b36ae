//! The controller: the state machine that gives every key exactly one
//! meaning.

use vstd::prelude::*;
use crate::bind::{awaits_more, bound_op, Bindings};
use crate::env::{requests_view, Edit, Environment, Request, RequestView};
use crate::input::{line_directive, line_text, Directive, InputEditor};
use crate::key::{ctrl_g, key_seq_text, seq_label, Key};
use crate::op::{op_quits, op_requests, Action, Error, Op};

verus! {

/// Number of milliseconds that must have passed since the last change of
/// the terminal's size before the windows are laid out again.
pub const TERM_CHANGE_DELAY: u64 = 100;

/// One reading of the key source together with what was observed at that
/// moment: the time in milliseconds on a clock that does not run backwards,
/// and, for an idle tick, whether the terminal's size has changed since the
/// tick before.
#[derive(Clone, Copy, Debug, PartialEq, Eq, Structural)]
pub struct Input {
    pub key: Key,
    pub now: u64,
    pub size_changed: bool,
}

/// What the caller has to do after a key.
#[derive(Debug, PartialEq, Eq)]
pub enum Outcome<A> {
    /// Read the next key.
    Continue,
    /// Stop reading keys.
    Quit,
    /// Call the answer callback, once, with the text given, and hand the
    /// action that it returns to [`Controller::apply`]. The question is
    /// destroyed already; the requests that tear its prompt down are
    /// outstanding.
    Answer(A, Option<String>),
}

/// An outcome with its text as a sequence of characters.
pub enum OutcomeView<A> {
    Continue,
    Quit,
    Answer(A, Option<Seq<char>>),
}

impl<A> View for Outcome<A> {
    type V = OutcomeView<A>;

    open spec fn view(&self) -> OutcomeView<A> {
        match self {
            Outcome::Continue => OutcomeView::Continue,
            Outcome::Quit => OutcomeView::Quit,
            Outcome::Answer(answer_fn, text) => OutcomeView::Answer(
                *answer_fn,
                match text {
                    Some(t) => Some(t@),
                    None => None,
                },
            ),
        }
    }
}

/// An open question: its prompt, the line entered so far and the callback
/// that will get the answer.
pub struct PromptState<A> {
    pub prompt: Seq<char>,
    pub text: Seq<char>,
    pub answer_fn: A,
}

/// Everything the controller remembers between two keys.
pub struct State<A> {
    /// The keys typed since the last resolution or reset.
    pub pending: Seq<Key>,
    /// When the alert now on display was set, if one is on display.
    pub alert: Option<u64>,
    /// The open question, if there is one.
    pub question: Option<PromptState<A>>,
    /// When the size of the terminal was last seen to change, while that
    /// change is not yet acted on.
    pub resize_timer: Option<u64>,
    /// The requests made of the environment and not yet taken.
    pub requests: Seq<RequestView>,
}

/// The state at startup.
pub open spec fn initial<A>() -> State<A> {
    State {
        pending: Seq::empty(),
        alert: None,
        question: None,
        resize_timer: None,
        requests: Seq::empty(),
    }
}

/// Milliseconds from `since` to `now`.
pub open spec fn elapsed(since: u64, now: u64) -> int {
    if now >= since {
        now - since
    } else {
        0
    }
}

/// The alert text for a key sequence that nothing is bound to and that
/// begins no bound sequence.
pub open spec fn undefined_text(keys: Seq<Key>) -> Seq<char> {
    seq_label(keys) + ": undefined "@ + (if keys.len() == 1 {
        "key"@
    } else {
        "key sequence"@
    })
}

/// The state after an alert is set.
pub open spec fn with_alert<A>(s: State<A>, text: Seq<char>, now: u64) -> State<A> {
    State {
        alert: Some(now),
        requests: s.requests.push(RequestView::SetAlert(text)).push(RequestView::ShowCursor),
        ..s
    }
}

/// The state after the alert, if any, is cleared.
pub open spec fn without_alert<A>(s: State<A>) -> State<A> {
    if s.alert is Some {
        State {
            alert: None,
            requests: s.requests.push(RequestView::ClearAlert).push(RequestView::ShowCursor),
            ..s
        }
    } else {
        s
    }
}

/// The state after a question is opened: the alert, if any, is cleared
/// first, then the prompt is shown with an empty line.
pub open spec fn with_question<A>(s: State<A>, prompt: Seq<char>, answer_fn: A) -> State<A> {
    let cleared = without_alert(s);
    State {
        question: Some(PromptState { prompt, text: Seq::empty(), answer_fn }),
        requests: cleared.requests.push(RequestView::OpenPrompt(prompt)),
        ..cleared
    }
}

/// The state after the question, if any, is destroyed.
pub open spec fn without_question<A>(s: State<A>) -> State<A> {
    if s.question is Some {
        State {
            question: None,
            requests: s.requests.push(RequestView::ClosePrompt).push(RequestView::ShowCursor),
            ..s
        }
    } else {
        s
    }
}

/// The state after an action is applied.
pub open spec fn applied<A>(s: State<A>, action: Action<A>, now: u64) -> State<A> {
    match action {
        Action::NoOp => without_alert(s),
        Action::Quit => s,
        Action::Alert(text) => with_alert(s, text@, now),
        Action::Question(prompt, answer_fn) => with_question(s, prompt@, answer_fn),
    }
}

/// What the caller has to do after an action is applied.
pub open spec fn outcome_of<A>(action: Action<A>) -> OutcomeView<A> {
    if action is Quit {
        OutcomeView::Quit
    } else {
        OutcomeView::Continue
    }
}

/// The action that an operation hands back.
pub open spec fn op_action<A>(op: Op) -> Action<A> {
    if op_quits(op) {
        Action::Quit
    } else {
        Action::NoOp
    }
}

/// The state after an idle tick.
pub open spec fn ticked<A>(s: State<A>, now: u64, size_changed: bool) -> State<A> {
    if size_changed {
        State { resize_timer: Some(now), ..s }
    } else if s.resize_timer is Some && elapsed(s.resize_timer->0, now) > TERM_CHANGE_DELAY {
        State { resize_timer: None, requests: s.requests.push(RequestView::Resize), ..s }
    } else {
        s
    }
}

/// The state and the outcome after a key that goes to the open question.
pub open spec fn answered<A>(s: State<A>, key: Key) -> (State<A>, OutcomeView<A>) {
    match s.question {
        None => (s, OutcomeView::Continue),
        Some(q) => {
            if key == ctrl_g() {
                (without_question(s), OutcomeView::Answer(q.answer_fn, None))
            } else {
                match line_directive(key) {
                    Directive::Continue => (
                        State {
                            question: Some(PromptState { text: line_text(q.text, key), ..q }),
                            ..s
                        },
                        OutcomeView::Continue,
                    ),
                    Directive::Accept => (
                        without_question(s),
                        OutcomeView::Answer(q.answer_fn, Some(q.text)),
                    ),
                    Directive::Cancel => (
                        without_question(s),
                        OutcomeView::Answer(q.answer_fn, None),
                    ),
                }
            }
        },
    }
}

/// Whether a key is inserted as it is: it is a plain character and no key
/// sequence is under way.
pub open spec fn inserts_directly<A>(s: State<A>, key: Key) -> bool {
    s.pending.len() == 0 && key is Char
}

/// The state and the outcome after a key while no question is open.
pub open spec fn dispatched<A>(s: State<A>, table: Map<Seq<Key>, Op>, key: Key, now: u64) -> (
    State<A>,
    OutcomeView<A>,
) {
    if inserts_directly(s, key) {
        (
            without_alert(
                State { requests: s.requests.push(RequestView::Edit(Edit::InsertChar(key->Char_0))), ..s },
            ),
            OutcomeView::Continue,
        )
    } else if key == ctrl_g() {
        (without_alert(State { pending: Seq::empty(), ..s }), OutcomeView::Continue)
    } else {
        let pending = s.pending.push(key);
        match bound_op(table, pending) {
            Some(op) => (
                State {
                    pending: Seq::empty(),
                    ..applied(
                        State { pending, requests: s.requests + op_requests(op), ..s },
                        op_action::<A>(op),
                        now,
                    )
                },
                outcome_of(op_action::<A>(op)),
            ),
            None => if awaits_more(table, pending) {
                (with_alert(State { pending, ..s }, seq_label(pending), now), OutcomeView::Continue)
            } else {
                (
                    State { pending: Seq::empty(), ..with_alert(s, undefined_text(pending), now) },
                    OutcomeView::Continue,
                )
            },
        }
    }
}

/// The state and the outcome after one reading of the key source.
pub open spec fn stepped<A>(
    s: State<A>,
    table: Map<Seq<Key>, Op>,
    key: Key,
    now: u64,
    size_changed: bool,
) -> (State<A>, OutcomeView<A>) {
    if key == Key::Idle {
        (ticked(s, now, size_changed), OutcomeView::Continue)
    } else if s.question is Some {
        answered(s, key)
    } else {
        dispatched(s, table, key, now)
    }
}

/// The state, the number of readings consumed and the outcome after a run
/// over `inputs`: the readings are taken in order, and none is taken after
/// the first whose outcome is not `Continue`.
pub open spec fn ran<A>(s: State<A>, table: Map<Seq<Key>, Op>, inputs: Seq<Input>) -> (
    State<A>,
    nat,
    OutcomeView<A>,
)
    decreases inputs.len(),
{
    if inputs.len() == 0 {
        (s, 0, OutcomeView::Continue)
    } else {
        let first = stepped(s, table, inputs[0].key, inputs[0].now, inputs[0].size_changed);
        if first.1 is Continue {
            let rest = ran(first.0, table, inputs.drop_first());
            (rest.0, rest.1 + 1, rest.2)
        } else {
            (first.0, 1, first.1)
        }
    }
}

/// A line prompt awaiting its answer.
pub struct Question<A> {
    editor: InputEditor,
    answer_fn: A,
}

impl<A> Question<A> {
    /// What the question holds.
    pub closed spec fn view(&self) -> PromptState<A> {
        PromptState {
            prompt: self.editor.prompt(),
            text: self.editor.text(),
            answer_fn: self.answer_fn,
        }
    }

    /// A question around the given line editor.
    pub fn new(editor: InputEditor, answer_fn: A) -> (question: Question<A>)
        ensures
            question.view() == (PromptState {
                prompt: editor.prompt(),
                text: editor.text(),
                answer_fn,
            }),
    {
        Question { editor, answer_fn }
    }
}

/// The state that the controller keeps across keys.
struct Context<A> {
    /// The keys typed since the last resolution or reset.
    key_seq: Vec<Key>,
    /// The time of the alert on display, or `None` if none is on display.
    last_alert: Option<u64>,
    /// The open question.
    question: Option<Question<A>>,
    /// The time of the last change of the terminal's size not yet acted on.
    term_changed: Option<u64>,
}

impl<A> Context<A> {
    /// A context at rest: no keys pending, no alert, no question, no timer.
    fn new() -> (context: Context<A>)
        ensures
            context.key_seq@ == Seq::<Key>::empty(),
            context.last_alert is None,
            context.question is None,
            context.term_changed is None,
    {
        Context { key_seq: Vec::new(), last_alert: None, question: None, term_changed: None }
    }
}

/// The primary control point between the keys that arrive and the editing
/// operations.
pub struct Controller<A> {
    bindings: Bindings,
    env: Environment,
    context: Context<A>,
}

impl<A> View for Controller<A> {
    type V = State<A>;

    closed spec fn view(&self) -> State<A> {
        State {
            pending: self.context.key_seq@,
            alert: self.context.last_alert,
            question: match self.context.question {
                Some(q) => Some(q.view()),
                None => None,
            },
            resize_timer: self.context.term_changed,
            requests: self.env@,
        }
    }
}

impl<A> Controller<A> {
    /// The bindings against which key sequences are resolved.
    pub closed spec fn table(&self) -> Map<Seq<Key>, Op> {
        self.bindings@
    }

    /// A controller at rest that resolves keys against `bindings`.
    pub fn new(bindings: Bindings) -> (controller: Controller<A>)
        ensures
            controller@ == initial::<A>(),
            controller.table() == bindings@,
    {
        Controller { bindings, env: Environment::new(), context: Context::new() }
    }

    /// The keys typed since the last resolution or reset.
    pub fn pending(&self) -> (keys: &Vec<Key>)
        ensures
            keys@ == self@.pending,
    {
        &self.context.key_seq
    }

    /// The time at which the alert on display was set, or nothing if no
    /// alert is on display.
    pub fn last_alert(&self) -> (time: Option<u64>)
        ensures
            time == self@.alert,
    {
        self.context.last_alert
    }

    /// The time at which the size of the terminal was last seen to change,
    /// while that change is not yet acted on.
    pub fn term_changed(&self) -> (time: Option<u64>)
        ensures
            time == self@.resize_timer,
    {
        self.context.term_changed
    }

    /// Whether a question is open.
    pub fn has_question(&self) -> (open: bool)
        ensures
            open == (self@.question is Some),
    {
        self.context.question.is_some()
    }

    /// The line entered so far in the open question.
    pub fn question_text(&self) -> (text: Option<String>)
        ensures
            match text {
                Some(t) => self@.question is Some && t@ == self@.question->0.text,
                None => self@.question is None,
            },
    {
        match &self.context.question {
            Some(question) => Some(question.editor.buffer()),
            None => None,
        }
    }

    /// The requests made of the environment and not yet taken, oldest
    /// first.
    pub fn requests(&self) -> (requests: &Vec<Request>)
        ensures
            requests_view(requests@) == self@.requests,
    {
        self.env.requests()
    }

    /// Hands over the requests made of the environment, oldest first, and
    /// leaves none behind.
    pub fn take_requests(&mut self) -> (requests: Vec<Request>)
        ensures
            requests_view(requests@) == old(self)@.requests,
            final(self)@ == (State { requests: Seq::empty(), ..old(self)@ }),
            final(self).table() == old(self).table(),
    {
        self.env.take()
    }

    /// Opens a question with the given prompt and an empty line. An alert
    /// on display is cleared before the prompt is shown.
    pub fn set_question(&mut self, prompt: &str, answer_fn: A)
        ensures
            final(self)@ == with_question(old(self)@, prompt@, answer_fn),
            final(self).table() == old(self).table(),
    {
        self.clear_alert();
        self.env.emit(Request::OpenPrompt(String::from_str(prompt)));
        let editor = InputEditor::new(prompt);
        self.context.question = Some(Question::new(editor, answer_fn));
    }

    /// Destroys the open question, if there is one, and hands it back.
    pub fn clear_question(&mut self) -> (question: Option<Question<A>>)
        ensures
            final(self)@ == without_question(old(self)@),
            final(self).table() == old(self).table(),
            match question {
                Some(q) => old(self)@.question == Some(q.view()),
                None => old(self)@.question is None,
            },
    {
        let question = self.context.question.take();
        if question.is_some() {
            self.env.emit(Request::ClosePrompt);
            self.env.emit(Request::ShowCursor);
        }
        question
    }

    /// The character to insert at once, if `key` is a plain character and
    /// no key sequence is under way.
    pub fn possible_char(&self, key: &Key) -> (c: Option<char>)
        ensures
            c is Some == inserts_directly(self@, *key),
            c is Some ==> *key == Key::Char(c->0),
    {
        if self.context.key_seq.len() == 0 {
            if let Key::Char(c) = key {
                Some(*c)
            } else {
                None
            }
        } else {
            None
        }
    }

    /// Shows the pending key sequence as the alert.
    pub fn show_keys(&mut self, now: u64)
        ensures
            final(self)@ == with_alert(old(self)@, seq_label(old(self)@.pending), now),
            final(self).table() == old(self).table(),
    {
        let text = key_seq_text(&self.context.key_seq);
        self.set_alert(text.as_str(), now);
    }

    /// Shows an alert that says that the pending key sequence is undefined.
    pub fn show_undefined_keys(&mut self, now: u64)
        ensures
            final(self)@ == with_alert(old(self)@, undefined_text(old(self)@.pending), now),
            final(self).table() == old(self).table(),
    {
        let mut text = key_seq_text(&self.context.key_seq);
        text.append(": undefined ");
        if self.context.key_seq.len() == 1 {
            text.append("key");
        } else {
            text.append("key sequence");
        }
        self.set_alert(text.as_str(), now);
    }

    /// Discards the pending key sequence.
    pub fn clear_keys(&mut self)
        ensures
            final(self)@ == (State { pending: Seq::empty(), ..old(self)@ }),
            final(self).table() == old(self).table(),
    {
        self.context.key_seq.clear();
    }

    /// Shows `text` as the alert and records `now` as its time.
    pub fn set_alert(&mut self, text: &str, now: u64)
        ensures
            final(self)@ == with_alert(old(self)@, text@, now),
            final(self).table() == old(self).table(),
    {
        self.env.emit(Request::SetAlert(String::from_str(text)));
        self.context.last_alert = Some(now);
        self.env.emit(Request::ShowCursor);
    }

    /// Removes the alert, if one is on display.
    pub fn clear_alert(&mut self)
        ensures
            final(self)@ == without_alert(old(self)@),
            final(self).table() == old(self).table(),
    {
        if self.context.last_alert.is_some() {
            self.context.last_alert = None;
            self.env.emit(Request::ClearAlert);
            self.env.emit(Request::ShowCursor);
        }
    }

    /// Applies an action, whether it comes from an editing operation or
    /// from an answer callback, and says whether the loop goes on.
    pub fn apply(&mut self, action: Action<A>, now: u64) -> (outcome: Outcome<A>)
        ensures
            final(self)@ == applied(old(self)@, action, now),
            outcome@ == outcome_of(action),
            final(self).table() == old(self).table(),
    {
        match action {
            Action::NoOp => {
                self.clear_alert();
                Outcome::Continue
            },
            Action::Quit => Outcome::Quit,
            Action::Alert(text) => {
                self.set_alert(text.as_str(), now);
                Outcome::Continue
            },
            Action::Question(prompt, answer_fn) => {
                self.set_question(prompt.as_str(), answer_fn);
                Outcome::Continue
            },
        }
    }

    /// Takes an idle tick: restarts the clock when the size of the terminal
    /// has changed, and asks for a new layout once the size has been stable
    /// for longer than [`TERM_CHANGE_DELAY`].
    pub fn tick(&mut self, now: u64, size_changed: bool)
        ensures
            final(self)@ == ticked(old(self)@, now, size_changed),
            final(self).table() == old(self).table(),
    {
        if size_changed {
            self.context.term_changed = Some(now);
        } else if let Some(since) = self.context.term_changed {
            let waited: u64 = if now >= since {
                now - since
            } else {
                0
            };
            if waited > TERM_CHANGE_DELAY {
                self.env.emit(Request::Resize);
                self.context.term_changed = None;
            }
        }
    }

    /// Forwards a key to the line editor of the open question.
    fn forward(&mut self, key: &Key) -> (directive: Directive)
        requires
            old(self)@.question is Some,
        ensures
            directive == line_directive(*key),
            final(self)@ == (State {
                question: Some(
                    PromptState {
                        text: line_text(old(self)@.question->0.text, *key),
                        ..old(self)@.question->0
                    },
                ),
                ..old(self)@
            }),
            final(self).table() == old(self).table(),
    {
        match self.context.question.take() {
            Some(question) => {
                let Question { mut editor, answer_fn } = question;
                let directive = editor.process_key(key);
                self.context.question = Some(Question { editor, answer_fn });
                directive
            },
            None => Directive::Continue,
        }
    }

    /// Destroys the open question and hands its callback out with `text`.
    fn finish(&mut self, text: Option<String>) -> (outcome: Outcome<A>)
        requires
            old(self)@.question is Some,
        ensures
            final(self)@ == without_question(old(self)@),
            outcome@ == OutcomeView::Answer(
                old(self)@.question->0.answer_fn,
                match text {
                    Some(t) => Some(t@),
                    None => None,
                },
            ),
            final(self).table() == old(self).table(),
    {
        match self.clear_question() {
            Some(question) => Outcome::Answer(question.answer_fn, text),
            None => Outcome::Continue,
        }
    }

    /// Hands a key to the open question.
    fn answer(&mut self, key: Key) -> (outcome: Outcome<A>)
        requires
            old(self)@.question is Some,
        ensures
            final(self)@ == answered(old(self)@, key).0,
            outcome@ == answered(old(self)@, key).1,
            final(self).table() == old(self).table(),
    {
        if key.is_cancel() {
            self.finish(None)
        } else {
            match self.forward(&key) {
                Directive::Continue => Outcome::Continue,
                Directive::Accept => {
                    let text = self.question_text();
                    self.finish(text)
                },
                Directive::Cancel => self.finish(None),
            }
        }
    }

    /// Resolves a key while no question is open.
    fn dispatch(&mut self, key: Key, now: u64) -> (r: Result<Outcome<A>, Error>)
        ensures
            r is Ok,
            final(self)@ == dispatched(old(self)@, old(self).table(), key, now).0,
            r->Ok_0@ == dispatched(old(self)@, old(self).table(), key, now).1,
            final(self).table() == old(self).table(),
    {
        if let Some(c) = self.possible_char(&key) {
            self.env.edit(Edit::InsertChar(c));
            self.clear_alert();
            Ok(Outcome::Continue)
        } else if key.is_cancel() {
            self.clear_keys();
            self.clear_alert();
            Ok(Outcome::Continue)
        } else {
            self.context.key_seq.push(key);
            if let Some(op) = self.bindings.find(&self.context.key_seq) {
                match op.apply(&mut self.env) {
                    Ok(action) => {
                        let outcome = self.apply(action, now);
                        self.clear_keys();
                        Ok(outcome)
                    },
                    Err(e) => Err(e),
                }
            } else if self.bindings.is_prefix(&self.context.key_seq) {
                self.show_keys(now);
                Ok(Outcome::Continue)
            } else {
                self.show_undefined_keys(now);
                self.clear_keys();
                Ok(Outcome::Continue)
            }
        }
    }

    /// Processes one reading of the key source.
    ///
    /// An idle tick only serves to notice that the size of the terminal has
    /// changed. Every other key goes to the open question, or, if none is
    /// open, is inserted, resets the pending sequence, or extends it and is
    /// resolved against the bindings.
    pub fn step(&mut self, key: Key, now: u64, size_changed: bool) -> (r: Result<Outcome<A>, Error>)
        ensures
            r is Ok,
            final(self)@ == stepped(old(self)@, old(self).table(), key, now, size_changed).0,
            r->Ok_0@ == stepped(old(self)@, old(self).table(), key, now, size_changed).1,
            final(self).table() == old(self).table(),
    {
        if key == Key::Idle {
            self.tick(now, size_changed);
            Ok(Outcome::Continue)
        } else if self.context.question.is_some() {
            Ok(self.answer(key))
        } else {
            self.dispatch(key, now)
        }
    }

    /// Runs the processing loop over the readings given, in order, until
    /// they are used up or one of them has an outcome other than
    /// `Continue`. Returns how many readings were consumed, and the outcome
    /// of the last of them.
    pub fn run(&mut self, inputs: &Vec<Input>) -> (r: Result<(usize, Outcome<A>), Error>)
        ensures
            r is Ok,
            final(self)@ == ran(old(self)@, old(self).table(), inputs@).0,
            r->Ok_0.0 == ran(old(self)@, old(self).table(), inputs@).1,
            r->Ok_0.1@ == ran(old(self)@, old(self).table(), inputs@).2,
            final(self).table() == old(self).table(),
    {
        let ghost start = self@;
        let ghost table = self.table();
        let mut i: usize = 0;
        assert(inputs@.skip(0) =~= inputs@);
        while i < inputs.len()
            invariant
                i <= inputs.len(),
                start == old(self)@,
                table == old(self).table(),
                self.table() == table,
                ran(start, table, inputs@).0 == ran(self@, table, inputs@.skip(i as int)).0,
                ran(start, table, inputs@).1 == i + ran(self@, table, inputs@.skip(i as int)).1,
                ran(start, table, inputs@).2 == ran(self@, table, inputs@.skip(i as int)).2,
            decreases inputs.len() - i,
        {
            let input = inputs[i];
            let ghost before = self@;
            let ghost rest = inputs@.skip(i as int);
            let r = self.step(input.key, input.now, input.size_changed);
            proof {
                assert(rest[0] == input);
                assert(rest.drop_first() =~= inputs@.skip(i + 1));
                let first = stepped(before, table, input.key, input.now, input.size_changed);
                assert(ran(before, table, rest) == if first.1 is Continue {
                    let tail = ran(first.0, table, rest.drop_first());
                    (tail.0, tail.1 + 1, tail.2)
                } else {
                    (first.0, 1nat, first.1)
                });
            }
            match r {
                Ok(Outcome::Continue) => {},
                Ok(outcome) => {
                    return Ok((i + 1, outcome));
                },
                Err(e) => {
                    return Err(e);
                },
            }
            i = i + 1;
        }
        Ok((i, Outcome::Continue))
    }
}

} // verus!
