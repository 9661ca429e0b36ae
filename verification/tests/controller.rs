use ped::bind::Bindings;
use ped::control::{Controller, Input, Outcome, TERM_CHANGE_DELAY};
use ped::env::{Edit, Request};
use ped::key::{Key, Modifier, Named};
use ped::op::{Action, Op};

const CTRL_G: Key = Key::Control(7);
const CTRL_X: Key = Key::Control(24);
const ENTER: Key = Key::Control(13);
const ESCAPE: Key = Key::Control(27);

fn bindings() -> Bindings {
    let mut bindings = Bindings::new();
    bindings.bind(vec![CTRL_X, Key::Control(3)], Op::Quit);
    bindings.bind(vec![CTRL_X, Key::Char('o')], Op::NextWindow);
    bindings.bind(vec![CTRL_X, Key::Char('4'), Key::Char('f')], Op::OpenWindowBelow);
    bindings.bind(vec![Key::Named(Named::Up, Modifier::Plain)], Op::MoveUp);
    bindings.bind(vec![Key::Control(12)], Op::RedrawAndCenter);
    bindings.bind(vec![ENTER], Op::InsertLine);
    bindings
}

fn controller() -> Controller<u32> {
    Controller::new(bindings())
}

fn set_alert(text: &str) -> Request {
    Request::SetAlert(String::from(text))
}

fn key(key: Key, now: u64) -> Input {
    Input { key, now, size_changed: false }
}

#[test]
fn new_controller_is_at_rest() {
    let c = controller();
    assert!(c.pending().is_empty());
    assert_eq!(c.last_alert(), None);
    assert_eq!(c.term_changed(), None);
    assert!(!c.has_question());
    assert_eq!(c.question_text(), None);
    assert!(c.requests().is_empty());
}

#[test]
fn plain_character_is_inserted_directly() {
    let mut c = controller();
    assert_eq!(c.step(Key::Char('a'), 5, false), Ok(Outcome::Continue));
    assert_eq!(c.requests(), &vec![Request::Edit(Edit::InsertChar('a'))]);
    assert!(c.pending().is_empty());
    assert_eq!(c.last_alert(), None);
}

#[test]
fn plain_character_clears_the_alert() {
    let mut c = controller();
    c.set_alert("saved", 1);
    assert_eq!(c.last_alert(), Some(1));
    assert_eq!(c.step(Key::Char('a'), 5, false), Ok(Outcome::Continue));
    assert_eq!(
        c.requests(),
        &vec![
            set_alert("saved"),
            Request::ShowCursor,
            Request::Edit(Edit::InsertChar('a')),
            Request::ClearAlert,
            Request::ShowCursor,
        ]
    );
    assert_eq!(c.last_alert(), None);
}

#[test]
fn plain_character_is_inserted_even_if_bound() {
    let mut bindings = Bindings::new();
    bindings.bind(vec![Key::Char('q')], Op::Quit);
    let mut c: Controller<u32> = Controller::new(bindings);
    assert_eq!(c.step(Key::Char('q'), 5, false), Ok(Outcome::Continue));
    assert_eq!(c.requests(), &vec![Request::Edit(Edit::InsertChar('q'))]);
}

#[test]
fn prefix_is_kept_and_shown() {
    let mut c = controller();
    assert_eq!(c.step(CTRL_X, 10, false), Ok(Outcome::Continue));
    assert_eq!(c.pending(), &vec![CTRL_X]);
    assert_eq!(c.last_alert(), Some(10));
    assert_eq!(c.requests(), &vec![set_alert("^X"), Request::ShowCursor]);
    assert_eq!(c.step(Key::Char('4'), 20, false), Ok(Outcome::Continue));
    assert_eq!(c.pending(), &vec![CTRL_X, Key::Char('4')]);
    assert_eq!(c.last_alert(), Some(20));
    assert_eq!(
        c.requests(),
        &vec![
            set_alert("^X"),
            Request::ShowCursor,
            set_alert("^X 4"),
            Request::ShowCursor,
        ]
    );
}

#[test]
fn bound_sequence_invokes_its_operation_once() {
    let mut c = controller();
    c.step(CTRL_X, 10, false).unwrap();
    assert_eq!(c.step(Key::Char('o'), 20, false), Ok(Outcome::Continue));
    assert!(c.pending().is_empty());
    assert_eq!(c.last_alert(), None);
    assert_eq!(
        c.requests(),
        &vec![
            set_alert("^X"),
            Request::ShowCursor,
            Request::Edit(Edit::NextWindow),
            Request::ClearAlert,
            Request::ShowCursor,
        ]
    );
}

#[test]
fn bound_single_key_resolves_without_prior_alert() {
    let mut c = controller();
    let up = Key::Named(Named::Up, Modifier::Plain);
    assert_eq!(c.step(up, 10, false), Ok(Outcome::Continue));
    assert!(c.pending().is_empty());
    assert_eq!(c.requests(), &vec![Request::Edit(Edit::MoveUp)]);
}

#[test]
fn three_key_sequence_resolves() {
    let mut c = controller();
    c.step(CTRL_X, 1, false).unwrap();
    c.step(Key::Char('4'), 2, false).unwrap();
    c.take_requests();
    assert_eq!(c.step(Key::Char('f'), 3, false), Ok(Outcome::Continue));
    assert!(c.pending().is_empty());
    assert_eq!(
        c.requests(),
        &vec![
            Request::Edit(Edit::OpenWindow(ped::env::Placement::Below)),
            Request::ClearAlert,
            Request::ShowCursor,
        ]
    );
}

#[test]
fn operation_with_two_edits_asks_for_both() {
    let mut c = controller();
    assert_eq!(c.step(Key::Control(12), 1, false), Ok(Outcome::Continue));
    assert_eq!(
        c.requests(),
        &vec![
            Request::Edit(Edit::AlignCenter),
            Request::Edit(Edit::Draw)
        ]
    );
}

#[test]
fn undefined_key_alert_is_in_the_singular() {
    let mut c = controller();
    assert_eq!(c.step(Key::Control(1), 10, false), Ok(Outcome::Continue));
    assert!(c.pending().is_empty());
    assert_eq!(c.last_alert(), Some(10));
    assert_eq!(
        c.requests(),
        &vec![set_alert("^A: undefined key"), Request::ShowCursor]
    );
}

#[test]
fn undefined_key_sequence_alert_names_a_sequence() {
    let mut c = controller();
    c.step(CTRL_X, 10, false).unwrap();
    c.take_requests();
    assert_eq!(c.step(Key::Char('z'), 20, false), Ok(Outcome::Continue));
    assert!(c.pending().is_empty());
    assert_eq!(c.last_alert(), Some(20));
    assert_eq!(
        c.requests(),
        &vec![
            set_alert("^X z: undefined key sequence"),
            Request::ShowCursor
        ]
    );
}

#[test]
fn cancel_discards_pending_keys_and_alert() {
    let mut c = controller();
    c.step(CTRL_X, 10, false).unwrap();
    c.take_requests();
    assert_eq!(c.step(CTRL_G, 20, false), Ok(Outcome::Continue));
    assert!(c.pending().is_empty());
    assert_eq!(c.last_alert(), None);
    assert_eq!(
        c.requests(),
        &vec![Request::ClearAlert, Request::ShowCursor]
    );
}

#[test]
fn cancel_at_rest_asks_for_nothing() {
    let mut c = controller();
    assert_eq!(c.step(CTRL_G, 20, false), Ok(Outcome::Continue));
    assert!(c.requests().is_empty());
}

#[test]
fn cancel_wins_over_a_binding_of_ctrl_g() {
    let mut bindings = Bindings::new();
    bindings.bind(vec![CTRL_G], Op::Quit);
    bindings.bind(vec![CTRL_X, CTRL_G], Op::Quit);
    let mut c: Controller<u32> = Controller::new(bindings);
    assert_eq!(c.step(CTRL_G, 1, false), Ok(Outcome::Continue));
    c.step(CTRL_X, 2, false).unwrap();
    assert_eq!(c.step(CTRL_G, 3, false), Ok(Outcome::Continue));
    assert!(c.pending().is_empty());
}

#[test]
fn character_after_a_pending_key_is_not_inserted() {
    let mut c = controller();
    c.step(CTRL_X, 10, false).unwrap();
    c.take_requests();
    c.step(Key::Char('o'), 20, false).unwrap();
    assert!(!c
        .requests()
        .contains(&Request::Edit(Edit::InsertChar('o'))));
}

#[test]
fn applying_an_alert_sets_it() {
    let mut c = controller();
    assert_eq!(
        c.apply(Action::Alert(String::from("written")), 42),
        Outcome::Continue
    );
    assert_eq!(c.last_alert(), Some(42));
    assert_eq!(
        c.requests(),
        &vec![set_alert("written"), Request::ShowCursor]
    );
}

#[test]
fn applying_nothing_clears_the_alert() {
    let mut c = controller();
    c.set_alert("written", 1);
    c.take_requests();
    assert_eq!(c.apply(Action::NoOp, 2), Outcome::Continue);
    assert_eq!(c.last_alert(), None);
    assert_eq!(
        c.requests(),
        &vec![Request::ClearAlert, Request::ShowCursor]
    );
    c.take_requests();
    assert_eq!(c.apply(Action::NoOp, 3), Outcome::Continue);
    assert!(c.requests().is_empty());
}

#[test]
fn question_clears_the_alert_before_the_prompt() {
    let mut c = controller();
    c.set_alert("written", 1);
    c.take_requests();
    assert_eq!(
        c.apply(Action::Question(String::from("open file:"), 7), 2),
        Outcome::Continue
    );
    assert_eq!(c.last_alert(), None);
    assert!(c.has_question());
    assert_eq!(c.question_text(), Some(String::new()));
    assert_eq!(
        c.requests(),
        &vec![
            Request::ClearAlert,
            Request::ShowCursor,
            Request::OpenPrompt(String::from("open file:")),
        ]
    );
}

#[test]
fn question_without_alert_only_opens_the_prompt() {
    let mut c = controller();
    c.apply(Action::Question(String::from("goto line:"), 7), 2);
    assert_eq!(
        c.requests(),
        &vec![Request::OpenPrompt(String::from("goto line:"))]
    );
}

#[test]
fn cancel_in_question_answers_without_text() {
    let mut c = controller();
    c.apply(Action::Question(String::from("open file:"), 7), 1);
    c.step(Key::Char('a'), 2, false).unwrap();
    c.take_requests();
    assert_eq!(c.step(CTRL_G, 3, false), Ok(Outcome::Answer(7, None)));
    assert!(!c.has_question());
    assert_eq!(
        c.requests(),
        &vec![Request::ClosePrompt, Request::ShowCursor]
    );
    c.take_requests();
    assert_eq!(c.step(Key::Char('b'), 4, false), Ok(Outcome::Continue));
    assert_eq!(c.requests(), &vec![Request::Edit(Edit::InsertChar('b'))]);
}

#[test]
fn keys_in_question_go_to_the_line() {
    let mut c = controller();
    c.apply(Action::Question(String::from("open file:"), 7), 1);
    c.take_requests();
    assert_eq!(c.step(Key::Char('a'), 2, false), Ok(Outcome::Continue));
    assert_eq!(c.step(CTRL_X, 3, false), Ok(Outcome::Continue));
    assert_eq!(c.step(Key::Char('b'), 4, false), Ok(Outcome::Continue));
    assert_eq!(c.question_text(), Some(String::from("ab")));
    assert!(c.pending().is_empty());
    assert!(c.requests().is_empty());
}

#[test]
fn accept_answers_with_the_line() {
    let mut c = controller();
    c.apply(Action::Question(String::from("open file:"), 9), 1);
    c.step(Key::Char('h'), 2, false).unwrap();
    c.step(Key::Char('i'), 3, false).unwrap();
    c.step(Key::Char('x'), 4, false).unwrap();
    c.step(Key::Control(8), 5, false).unwrap();
    c.take_requests();
    assert_eq!(
        c.step(ENTER, 6, false),
        Ok(Outcome::Answer(9, Some(String::from("hi"))))
    );
    assert!(!c.has_question());
    assert_eq!(
        c.requests(),
        &vec![Request::ClosePrompt, Request::ShowCursor]
    );
}

#[test]
fn accept_of_an_empty_line_answers_with_an_empty_text() {
    let mut c = controller();
    c.apply(Action::Question(String::from("open file:"), 9), 1);
    assert_eq!(
        c.step(ENTER, 6, false),
        Ok(Outcome::Answer(9, Some(String::new())))
    );
}

#[test]
fn escape_in_question_answers_without_text() {
    let mut c = controller();
    c.apply(Action::Question(String::from("open file:"), 9), 1);
    c.step(Key::Char('h'), 2, false).unwrap();
    assert_eq!(c.step(ESCAPE, 3, false), Ok(Outcome::Answer(9, None)));
    assert!(!c.has_question());
}

#[test]
fn answer_may_open_the_next_question() {
    let mut c = controller();
    c.apply(Action::Question(String::from("first:"), 1), 1);
    assert_eq!(
        c.step(ENTER, 2, false),
        Ok(Outcome::Answer(1, Some(String::new())))
    );
    assert_eq!(
        c.apply(Action::Question(String::from("second:"), 2), 3),
        Outcome::Continue
    );
    assert!(c.has_question());
    assert_eq!(c.step(CTRL_G, 4, false), Ok(Outcome::Answer(2, None)));
}

#[test]
fn clear_question_hands_the_question_back_once() {
    let mut c = controller();
    c.set_question("open file:", 3);
    assert!(c.clear_question().is_some());
    assert!(!c.has_question());
    assert!(c.clear_question().is_none());
    assert_eq!(
        c.requests(),
        &vec![
            Request::OpenPrompt(String::from("open file:")),
            Request::ClosePrompt,
            Request::ShowCursor,
        ]
    );
}

#[test]
fn resize_waits_for_the_delay_and_is_committed_once() {
    let mut c = controller();
    assert_eq!(c.step(Key::Idle, 1000, true), Ok(Outcome::Continue));
    assert_eq!(c.term_changed(), Some(1000));
    assert_eq!(c.step(Key::Idle, 1040, false), Ok(Outcome::Continue));
    assert_eq!(c.step(Key::Idle, 1080, false), Ok(Outcome::Continue));
    assert_eq!(c.term_changed(), Some(1000));
    assert!(c.requests().is_empty());
    assert_eq!(c.step(Key::Idle, 1101, false), Ok(Outcome::Continue));
    assert_eq!(c.term_changed(), None);
    assert_eq!(c.requests(), &vec![Request::Resize]);
    assert_eq!(c.step(Key::Idle, 1300, false), Ok(Outcome::Continue));
    assert_eq!(c.requests(), &vec![Request::Resize]);
}

#[test]
fn resize_is_not_committed_at_exactly_the_delay() {
    let mut c = controller();
    c.tick(1000, true);
    c.tick(1000 + TERM_CHANGE_DELAY, false);
    assert_eq!(c.term_changed(), Some(1000));
    assert!(c.requests().is_empty());
    c.tick(1001 + TERM_CHANGE_DELAY, false);
    assert_eq!(c.term_changed(), None);
    assert_eq!(c.requests(), &vec![Request::Resize]);
}

#[test]
fn further_size_change_restarts_the_clock() {
    let mut c = controller();
    c.tick(1000, true);
    c.tick(1090, true);
    assert_eq!(c.term_changed(), Some(1090));
    c.tick(1150, false);
    assert!(c.requests().is_empty());
    c.tick(1191, false);
    assert_eq!(c.requests(), &vec![Request::Resize]);
}

#[test]
fn idle_tick_without_timer_does_nothing() {
    let mut c = controller();
    c.step(CTRL_X, 1, false).unwrap();
    c.take_requests();
    assert_eq!(c.step(Key::Idle, 500, false), Ok(Outcome::Continue));
    assert_eq!(c.term_changed(), None);
    assert_eq!(c.pending(), &vec![CTRL_X]);
    assert_eq!(c.last_alert(), Some(1));
    assert!(c.requests().is_empty());
}

#[test]
fn clock_that_ran_backwards_commits_nothing() {
    let mut c = controller();
    c.tick(1000, true);
    c.tick(10, false);
    assert_eq!(c.term_changed(), Some(1000));
    assert!(c.requests().is_empty());
}

#[test]
fn idle_tick_leaves_an_open_question_alone() {
    let mut c = controller();
    c.apply(Action::Question(String::from("open file:"), 9), 1);
    c.step(Key::Char('h'), 2, false).unwrap();
    assert_eq!(c.step(Key::Idle, 3, true), Ok(Outcome::Continue));
    assert!(c.has_question());
    assert_eq!(c.question_text(), Some(String::from("h")));
    assert_eq!(c.term_changed(), Some(3));
}

#[test]
fn size_change_is_only_noticed_on_idle_ticks() {
    let mut c = controller();
    assert_eq!(c.step(Key::Char('a'), 3, true), Ok(Outcome::Continue));
    assert_eq!(c.term_changed(), None);
}

#[test]
fn quit_ends_the_run_and_reads_no_further_key() {
    let mut c = controller();
    let inputs = vec![
        key(Key::Char('a'), 1),
        key(CTRL_X, 2),
        key(Key::Control(3), 3),
        key(Key::Char('b'), 4),
    ];
    assert_eq!(c.run(&inputs), Ok((3, Outcome::Quit)));
    assert!(c.pending().is_empty());
    assert_eq!(
        c.requests(),
        &vec![
            Request::Edit(Edit::InsertChar('a')),
            set_alert("^X"),
            Request::ShowCursor,
        ]
    );
}

#[test]
fn run_consumes_every_reading_while_the_loop_goes_on() {
    let mut c = controller();
    let inputs = vec![
        key(Key::Char('a'), 1),
        Input { key: Key::Idle, now: 2, size_changed: true },
        key(ENTER, 3),
    ];
    assert_eq!(c.run(&inputs), Ok((3, Outcome::Continue)));
    assert_eq!(c.term_changed(), Some(2));
    assert_eq!(
        c.requests(),
        &vec![
            Request::Edit(Edit::InsertChar('a')),
            Request::Edit(Edit::InsertChar('\n')),
        ]
    );
}

#[test]
fn run_over_nothing_changes_nothing() {
    let mut c = controller();
    assert_eq!(c.run(&vec![]), Ok((0, Outcome::Continue)));
    assert!(c.requests().is_empty());
}

#[test]
fn run_stops_where_an_answer_is_due() {
    let mut c = controller();
    c.apply(Action::Question(String::from("open file:"), 5), 0);
    let inputs = vec![
        key(Key::Char('a'), 1),
        key(ENTER, 2),
        key(Key::Char('b'), 3),
    ];
    assert_eq!(
        c.run(&inputs),
        Ok((2, Outcome::Answer(5, Some(String::from("a")))))
    );
    assert!(!c.has_question());
}

#[test]
fn applying_quit_changes_nothing() {
    let mut c = controller();
    c.set_alert("written", 1);
    c.take_requests();
    assert_eq!(c.apply(Action::Quit, 2), Outcome::Quit);
    assert_eq!(c.last_alert(), Some(1));
    assert!(c.requests().is_empty());
}

#[test]
fn quit_keeps_the_alert_on_display() {
    let mut c = controller();
    c.step(CTRL_X, 1, false).unwrap();
    c.take_requests();
    assert_eq!(c.step(Key::Control(3), 2, false), Ok(Outcome::Quit));
    assert_eq!(c.last_alert(), Some(1));
    assert!(c.requests().is_empty());
    assert!(c.pending().is_empty());
}

#[test]
fn helpers_show_the_pending_keys() {
    let mut c = controller();
    c.step(CTRL_X, 1, false).unwrap();
    c.take_requests();
    assert_eq!(c.possible_char(&Key::Char('a')), None);
    c.show_keys(2);
    c.show_undefined_keys(3);
    c.clear_keys();
    assert_eq!(c.possible_char(&Key::Char('a')), Some('a'));
    assert_eq!(c.possible_char(&CTRL_X), None);
    c.clear_alert();
    assert_eq!(
        c.requests(),
        &vec![
            set_alert("^X"),
            Request::ShowCursor,
            set_alert("^X: undefined key"),
            Request::ShowCursor,
            Request::ClearAlert,
            Request::ShowCursor,
        ]
    );
}

#[test]
fn set_question_clears_the_alert_before_the_prompt() {
    let mut c = controller();
    c.set_alert("saved", 5);
    c.take_requests();
    c.set_question("open file:", 1);
    assert!(c.has_question());
    assert_eq!(c.last_alert(), None);
    assert_eq!(
        c.requests(),
        &vec![
            Request::ClearAlert,
            Request::ShowCursor,
            Request::OpenPrompt(String::from("open file:")),
        ]
    );
}

#[test]
fn set_question_without_alert_only_opens_the_prompt() {
    let mut c = controller();
    c.set_question("open file:", 1);
    assert_eq!(c.last_alert(), None);
    assert_eq!(
        c.requests(),
        &vec![Request::OpenPrompt(String::from("open file:"))]
    );
}
