//! Editing operations and the actions they hand back to the controller.

use vstd::prelude::*;
use crate::env::{Edit, Environment, Placement, RequestView};

verus! {

/// Failure of an editing operation.
#[derive(Debug, PartialEq, Eq)]
pub struct Error {
    pub message: String,
}

/// What an editing operation or an answer callback tells the controller to
/// do next. `A` is the type of the callbacks that answer a question.
#[derive(Debug, PartialEq, Eq)]
pub enum Action<A> {
    /// Nothing further happens.
    NoOp,
    /// The processing loop terminates.
    Quit,
    /// A status text is shown.
    Alert(String),
    /// A line prompt is opened; the callback receives what was entered.
    Question(String, A),
}

/// The editing operations that a key sequence can be bound to.
#[derive(Clone, Copy, Debug, PartialEq, Eq, Hash, Structural)]
pub enum Op {
    InsertLine,
    DeleteCharLeft,
    DeleteCharRight,
    MoveUp,
    MoveDown,
    MoveLeft,
    MoveRight,
    MovePageUp,
    MovePageDown,
    MoveTop,
    MoveBottom,
    ScrollUp,
    ScrollDown,
    MoveBeginLine,
    MoveEndLine,
    Redraw,
    RedrawAndCenter,
    Quit,
    OpenWindowTop,
    OpenWindowBottom,
    OpenWindowAbove,
    OpenWindowBelow,
    CloseWindow,
    PrevWindow,
    NextWindow,
}

/// The name of an operation.
pub open spec fn op_name(op: Op) -> Seq<char> {
    match op {
        Op::InsertLine => "insert-line"@,
        Op::DeleteCharLeft => "delete-char-left"@,
        Op::DeleteCharRight => "delete-char-right"@,
        Op::MoveUp => "move-up"@,
        Op::MoveDown => "move-down"@,
        Op::MoveLeft => "move-left"@,
        Op::MoveRight => "move-right"@,
        Op::MovePageUp => "move-page-up"@,
        Op::MovePageDown => "move-page-down"@,
        Op::MoveTop => "move-top"@,
        Op::MoveBottom => "move-bottom"@,
        Op::ScrollUp => "scroll-up"@,
        Op::ScrollDown => "scroll-down"@,
        Op::MoveBeginLine => "move-begin-line"@,
        Op::MoveEndLine => "move-end-line"@,
        Op::Redraw => "redraw"@,
        Op::RedrawAndCenter => "redraw-and-center"@,
        Op::Quit => "quit"@,
        Op::OpenWindowTop => "open-window-top"@,
        Op::OpenWindowBottom => "open-window-bottom"@,
        Op::OpenWindowAbove => "open-window-above"@,
        Op::OpenWindowBelow => "open-window-below"@,
        Op::CloseWindow => "close-window"@,
        Op::PrevWindow => "prev-window"@,
        Op::NextWindow => "next-window"@,
    }
}

/// The place of an operation in the predefined table of operations.
pub open spec fn op_index(op: Op) -> int {
    match op {
        Op::InsertLine => 0,
        Op::DeleteCharLeft => 1,
        Op::DeleteCharRight => 2,
        Op::MoveUp => 3,
        Op::MoveDown => 4,
        Op::MoveLeft => 5,
        Op::MoveRight => 6,
        Op::MovePageUp => 7,
        Op::MovePageDown => 8,
        Op::MoveTop => 9,
        Op::MoveBottom => 10,
        Op::ScrollUp => 11,
        Op::ScrollDown => 12,
        Op::MoveBeginLine => 13,
        Op::MoveEndLine => 14,
        Op::Redraw => 15,
        Op::RedrawAndCenter => 16,
        Op::Quit => 17,
        Op::OpenWindowTop => 18,
        Op::OpenWindowBottom => 19,
        Op::OpenWindowAbove => 20,
        Op::OpenWindowBelow => 21,
        Op::CloseWindow => 22,
        Op::PrevWindow => 23,
        Op::NextWindow => 24,
    }
}

/// No two operations have the same name.
pub proof fn op_names_differ(a: Op, b: Op)
    requires
        a != b,
    ensures
        op_name(a) != op_name(b),
{
    reveal_strlit("insert-line");
    reveal_strlit("delete-char-left");
    reveal_strlit("delete-char-right");
    reveal_strlit("move-up");
    reveal_strlit("move-down");
    reveal_strlit("move-left");
    reveal_strlit("move-right");
    reveal_strlit("move-page-up");
    reveal_strlit("move-page-down");
    reveal_strlit("move-top");
    reveal_strlit("move-bottom");
    reveal_strlit("scroll-up");
    reveal_strlit("scroll-down");
    reveal_strlit("move-begin-line");
    reveal_strlit("move-end-line");
    reveal_strlit("redraw");
    reveal_strlit("redraw-and-center");
    reveal_strlit("quit");
    reveal_strlit("open-window-top");
    reveal_strlit("open-window-bottom");
    reveal_strlit("open-window-above");
    reveal_strlit("open-window-below");
    reveal_strlit("close-window");
    reveal_strlit("prev-window");
    reveal_strlit("next-window");
    if op_name(a).len() == op_name(b).len() {
        assert(op_name(a)[0] != op_name(b)[0] || op_name(a)[5] != op_name(b)[5] || op_name(a)[12]
            != op_name(b)[12]);
    }
}

/// The edits that an operation asks for, in order.
pub open spec fn op_edits(op: Op) -> Seq<Edit> {
    match op {
        Op::InsertLine => seq![Edit::InsertChar('\n')],
        Op::DeleteCharLeft => seq![Edit::DeleteLeft],
        Op::DeleteCharRight => seq![Edit::DeleteRight],
        Op::MoveUp => seq![Edit::MoveUp],
        Op::MoveDown => seq![Edit::MoveDown],
        Op::MoveLeft => seq![Edit::MoveLeft],
        Op::MoveRight => seq![Edit::MoveRight],
        Op::MovePageUp => seq![Edit::MovePageUp],
        Op::MovePageDown => seq![Edit::MovePageDown],
        Op::MoveTop => seq![Edit::MoveTop],
        Op::MoveBottom => seq![Edit::MoveBottom],
        Op::ScrollUp => seq![Edit::ScrollUp],
        Op::ScrollDown => seq![Edit::ScrollDown],
        Op::MoveBeginLine => seq![Edit::MoveBeginLine],
        Op::MoveEndLine => seq![Edit::MoveEndLine],
        Op::Redraw => seq![Edit::Draw],
        Op::RedrawAndCenter => seq![Edit::AlignCenter, Edit::Draw],
        Op::Quit => seq![],
        Op::OpenWindowTop => seq![Edit::OpenWindow(Placement::Top)],
        Op::OpenWindowBottom => seq![Edit::OpenWindow(Placement::Bottom)],
        Op::OpenWindowAbove => seq![Edit::OpenWindow(Placement::Above)],
        Op::OpenWindowBelow => seq![Edit::OpenWindow(Placement::Below)],
        Op::CloseWindow => seq![Edit::CloseWindow],
        Op::PrevWindow => seq![Edit::PrevWindow],
        Op::NextWindow => seq![Edit::NextWindow],
    }
}

/// The requests that an operation adds to the environment.
pub open spec fn op_requests(op: Op) -> Seq<RequestView> {
    op_edits(op).map_values(|e: Edit| RequestView::Edit(e))
}

/// Whether an operation ends the processing loop. Every other operation
/// hands back `Action::NoOp`.
pub open spec fn op_quits(op: Op) -> bool {
    op == Op::Quit
}

/// What holds after an operation that asks for the single edit `edit`.
pub open spec fn one_edit<A>(
    before: Seq<RequestView>,
    after: Seq<RequestView>,
    r: Result<Action<A>, Error>,
    edit: Edit,
) -> bool {
    &&& after == before.push(RequestView::Edit(edit))
    &&& r == Ok::<Action<A>, Error>(Action::NoOp)
}

/// Operation: `insert-line`
pub fn insert_line<A>(env: &mut Environment) -> (r: Result<Action<A>, Error>)
    ensures
        one_edit(old(env)@, final(env)@, r, Edit::InsertChar('\n')),
{
    env.edit(Edit::InsertChar('\n'));
    Ok(Action::NoOp)
}

/// Operation: `delete-char-left`
pub fn delete_char_left<A>(env: &mut Environment) -> (r: Result<Action<A>, Error>)
    ensures
        one_edit(old(env)@, final(env)@, r, Edit::DeleteLeft),
{
    env.edit(Edit::DeleteLeft);
    Ok(Action::NoOp)
}

/// Operation: `delete-char-right`
pub fn delete_char_right<A>(env: &mut Environment) -> (r: Result<Action<A>, Error>)
    ensures
        one_edit(old(env)@, final(env)@, r, Edit::DeleteRight),
{
    env.edit(Edit::DeleteRight);
    Ok(Action::NoOp)
}

/// Operation: `move-up`
pub fn move_up<A>(env: &mut Environment) -> (r: Result<Action<A>, Error>)
    ensures
        one_edit(old(env)@, final(env)@, r, Edit::MoveUp),
{
    env.edit(Edit::MoveUp);
    Ok(Action::NoOp)
}

/// Operation: `move-down`
pub fn move_down<A>(env: &mut Environment) -> (r: Result<Action<A>, Error>)
    ensures
        one_edit(old(env)@, final(env)@, r, Edit::MoveDown),
{
    env.edit(Edit::MoveDown);
    Ok(Action::NoOp)
}

/// Operation: `move-left`
pub fn move_left<A>(env: &mut Environment) -> (r: Result<Action<A>, Error>)
    ensures
        one_edit(old(env)@, final(env)@, r, Edit::MoveLeft),
{
    env.edit(Edit::MoveLeft);
    Ok(Action::NoOp)
}

/// Operation: `move-right`
pub fn move_right<A>(env: &mut Environment) -> (r: Result<Action<A>, Error>)
    ensures
        one_edit(old(env)@, final(env)@, r, Edit::MoveRight),
{
    env.edit(Edit::MoveRight);
    Ok(Action::NoOp)
}

/// Operation: `move-page-up`
pub fn move_page_up<A>(env: &mut Environment) -> (r: Result<Action<A>, Error>)
    ensures
        one_edit(old(env)@, final(env)@, r, Edit::MovePageUp),
{
    env.edit(Edit::MovePageUp);
    Ok(Action::NoOp)
}

/// Operation: `move-page-down`
pub fn move_page_down<A>(env: &mut Environment) -> (r: Result<Action<A>, Error>)
    ensures
        one_edit(old(env)@, final(env)@, r, Edit::MovePageDown),
{
    env.edit(Edit::MovePageDown);
    Ok(Action::NoOp)
}

/// Operation: `move-top`
pub fn move_top<A>(env: &mut Environment) -> (r: Result<Action<A>, Error>)
    ensures
        one_edit(old(env)@, final(env)@, r, Edit::MoveTop),
{
    env.edit(Edit::MoveTop);
    Ok(Action::NoOp)
}

/// Operation: `move-bottom`
pub fn move_bottom<A>(env: &mut Environment) -> (r: Result<Action<A>, Error>)
    ensures
        one_edit(old(env)@, final(env)@, r, Edit::MoveBottom),
{
    env.edit(Edit::MoveBottom);
    Ok(Action::NoOp)
}

/// Operation: `scroll-up`
pub fn scroll_up<A>(env: &mut Environment) -> (r: Result<Action<A>, Error>)
    ensures
        one_edit(old(env)@, final(env)@, r, Edit::ScrollUp),
{
    env.edit(Edit::ScrollUp);
    Ok(Action::NoOp)
}

/// Operation: `scroll-down`
pub fn scroll_down<A>(env: &mut Environment) -> (r: Result<Action<A>, Error>)
    ensures
        one_edit(old(env)@, final(env)@, r, Edit::ScrollDown),
{
    env.edit(Edit::ScrollDown);
    Ok(Action::NoOp)
}

/// Operation: `move-begin-line`
pub fn move_begin_line<A>(env: &mut Environment) -> (r: Result<Action<A>, Error>)
    ensures
        one_edit(old(env)@, final(env)@, r, Edit::MoveBeginLine),
{
    env.edit(Edit::MoveBeginLine);
    Ok(Action::NoOp)
}

/// Operation: `move-end-line`
pub fn move_end_line<A>(env: &mut Environment) -> (r: Result<Action<A>, Error>)
    ensures
        one_edit(old(env)@, final(env)@, r, Edit::MoveEndLine),
{
    env.edit(Edit::MoveEndLine);
    Ok(Action::NoOp)
}

/// Operation: `redraw`
pub fn redraw<A>(env: &mut Environment) -> (r: Result<Action<A>, Error>)
    ensures
        one_edit(old(env)@, final(env)@, r, Edit::Draw),
{
    env.edit(Edit::Draw);
    Ok(Action::NoOp)
}

/// Operation: `redraw-and-center`
pub fn redraw_and_center<A>(env: &mut Environment) -> (r: Result<Action<A>, Error>)
    ensures
        final(env)@ == old(env)@.push(RequestView::Edit(Edit::AlignCenter)).push(
            RequestView::Edit(Edit::Draw),
        ),
        r == Ok::<Action<A>, Error>(Action::NoOp),
{
    env.edit(Edit::AlignCenter);
    env.edit(Edit::Draw);
    Ok(Action::NoOp)
}

/// Operation: `quit`
pub fn quit<A>(env: &mut Environment) -> (r: Result<Action<A>, Error>)
    ensures
        final(env)@ == old(env)@,
        r == Ok::<Action<A>, Error>(Action::Quit),
{
    Ok(Action::Quit)
}

/// Operation: `open-window-top`
pub fn open_window_top<A>(env: &mut Environment) -> (r: Result<Action<A>, Error>)
    ensures
        one_edit(old(env)@, final(env)@, r, Edit::OpenWindow(Placement::Top)),
{
    env.edit(Edit::OpenWindow(Placement::Top));
    Ok(Action::NoOp)
}

/// Operation: `open-window-bottom`
pub fn open_window_bottom<A>(env: &mut Environment) -> (r: Result<Action<A>, Error>)
    ensures
        one_edit(old(env)@, final(env)@, r, Edit::OpenWindow(Placement::Bottom)),
{
    env.edit(Edit::OpenWindow(Placement::Bottom));
    Ok(Action::NoOp)
}

/// Operation: `open-window-above`
pub fn open_window_above<A>(env: &mut Environment) -> (r: Result<Action<A>, Error>)
    ensures
        one_edit(old(env)@, final(env)@, r, Edit::OpenWindow(Placement::Above)),
{
    env.edit(Edit::OpenWindow(Placement::Above));
    Ok(Action::NoOp)
}

/// Operation: `open-window-below`
pub fn open_window_below<A>(env: &mut Environment) -> (r: Result<Action<A>, Error>)
    ensures
        one_edit(old(env)@, final(env)@, r, Edit::OpenWindow(Placement::Below)),
{
    env.edit(Edit::OpenWindow(Placement::Below));
    Ok(Action::NoOp)
}

/// Operation: `close-window`
pub fn close_window<A>(env: &mut Environment) -> (r: Result<Action<A>, Error>)
    ensures
        one_edit(old(env)@, final(env)@, r, Edit::CloseWindow),
{
    env.edit(Edit::CloseWindow);
    Ok(Action::NoOp)
}

/// Operation: `prev-window`
pub fn prev_window<A>(env: &mut Environment) -> (r: Result<Action<A>, Error>)
    ensures
        one_edit(old(env)@, final(env)@, r, Edit::PrevWindow),
{
    env.edit(Edit::PrevWindow);
    Ok(Action::NoOp)
}

/// Operation: `next-window`
pub fn next_window<A>(env: &mut Environment) -> (r: Result<Action<A>, Error>)
    ensures
        one_edit(old(env)@, final(env)@, r, Edit::NextWindow),
{
    env.edit(Edit::NextWindow);
    Ok(Action::NoOp)
}

impl Op {
    /// The name of the operation.
    pub fn name(&self) -> (name: &'static str)
        ensures
            name@ == op_name(*self),
    {
        match self {
            Op::InsertLine => "insert-line",
            Op::DeleteCharLeft => "delete-char-left",
            Op::DeleteCharRight => "delete-char-right",
            Op::MoveUp => "move-up",
            Op::MoveDown => "move-down",
            Op::MoveLeft => "move-left",
            Op::MoveRight => "move-right",
            Op::MovePageUp => "move-page-up",
            Op::MovePageDown => "move-page-down",
            Op::MoveTop => "move-top",
            Op::MoveBottom => "move-bottom",
            Op::ScrollUp => "scroll-up",
            Op::ScrollDown => "scroll-down",
            Op::MoveBeginLine => "move-begin-line",
            Op::MoveEndLine => "move-end-line",
            Op::Redraw => "redraw",
            Op::RedrawAndCenter => "redraw-and-center",
            Op::Quit => "quit",
            Op::OpenWindowTop => "open-window-top",
            Op::OpenWindowBottom => "open-window-bottom",
            Op::OpenWindowAbove => "open-window-above",
            Op::OpenWindowBelow => "open-window-below",
            Op::CloseWindow => "close-window",
            Op::PrevWindow => "prev-window",
            Op::NextWindow => "next-window",
        }
    }

    /// Carries the operation out on the environment.
    pub fn apply<A>(&self, env: &mut Environment) -> (r: Result<Action<A>, Error>)
        ensures
            final(env)@ == old(env)@ + op_requests(*self),
            r == Ok::<Action<A>, Error>(
                if op_quits(*self) {
                    Action::Quit
                } else {
                    Action::NoOp
                },
            ),
    {
        let r = match self {
            Op::InsertLine => insert_line(env),
            Op::DeleteCharLeft => delete_char_left(env),
            Op::DeleteCharRight => delete_char_right(env),
            Op::MoveUp => move_up(env),
            Op::MoveDown => move_down(env),
            Op::MoveLeft => move_left(env),
            Op::MoveRight => move_right(env),
            Op::MovePageUp => move_page_up(env),
            Op::MovePageDown => move_page_down(env),
            Op::MoveTop => move_top(env),
            Op::MoveBottom => move_bottom(env),
            Op::ScrollUp => scroll_up(env),
            Op::ScrollDown => scroll_down(env),
            Op::MoveBeginLine => move_begin_line(env),
            Op::MoveEndLine => move_end_line(env),
            Op::Redraw => redraw(env),
            Op::RedrawAndCenter => redraw_and_center(env),
            Op::Quit => quit(env),
            Op::OpenWindowTop => open_window_top(env),
            Op::OpenWindowBottom => open_window_bottom(env),
            Op::OpenWindowAbove => open_window_above(env),
            Op::OpenWindowBelow => open_window_below(env),
            Op::CloseWindow => close_window(env),
            Op::PrevWindow => prev_window(env),
            Op::NextWindow => next_window(env),
        };
        assert(env@ =~= old(env)@ + op_requests(*self));
        r
    }
}

/// Whether two texts hold the same characters.
fn same_text(a: &str, b: &str) -> (same: bool)
    ensures
        same == (a@ == b@),
{
    String::from_str(a) == String::from_str(b)
}

/// Map of the names of editing operations to the operations.
pub struct OpMap {
    entries: Vec<(&'static str, Op)>,
}

impl OpMap {
    /// Whether the map holds every operation once, at its place and under
    /// its name.
    pub closed spec fn complete(&self) -> bool {
        &&& self.entries@.len() == 25
        &&& forall|k: int|
            0 <= k < 25 ==> (#[trigger] self.entries@[k]).0@ == op_name(self.entries@[k].1)
        &&& forall|op: Op| (#[trigger] self.entries@[op_index(op)]).1 == op
    }

    /// The operation of the given name, if there is one.
    pub fn get(&self, name: &str) -> (found: Option<Op>)
        requires
            self.complete(),
        ensures
            match found {
                Some(op) => op_name(op) == name@,
                None => forall|op: Op| op_name(op) != name@,
            },
    {
        let mut i: usize = 0;
        while i < self.entries.len()
            invariant
                self.complete(),
                i <= self.entries.len(),
                forall|k: int| 0 <= k < i ==> (#[trigger] self.entries@[k]).0@ != name@,
            decreases self.entries.len() - i,
        {
            if same_text(self.entries[i].0, name) {
                return Some(self.entries[i].1);
            }
            i = i + 1;
        }
        proof {
            assert forall|op: Op| op_name(op) != name@ by {
                assert(0 <= op_index(op) < 25);
                assert(self.entries@[op_index(op)].1 == op);
            }
        }
        None
    }

    /// The number of operations in the map: one entry for each of the 25
    /// operations.
    pub fn len(&self) -> (n: usize)
        requires
            self.complete(),
        ensures
            n == 25,
    {
        self.entries.len()
    }
}

/// The predefined map of the names of editing operations to the operations.
pub fn init_op_map() -> (op_map: OpMap)
    ensures
        op_map.complete(),
{
    let mut entries: Vec<(&'static str, Op)> = Vec::new();
    entries.push((Op::InsertLine.name(), Op::InsertLine));
    entries.push((Op::DeleteCharLeft.name(), Op::DeleteCharLeft));
    entries.push((Op::DeleteCharRight.name(), Op::DeleteCharRight));
    entries.push((Op::MoveUp.name(), Op::MoveUp));
    entries.push((Op::MoveDown.name(), Op::MoveDown));
    entries.push((Op::MoveLeft.name(), Op::MoveLeft));
    entries.push((Op::MoveRight.name(), Op::MoveRight));
    entries.push((Op::MovePageUp.name(), Op::MovePageUp));
    entries.push((Op::MovePageDown.name(), Op::MovePageDown));
    entries.push((Op::MoveTop.name(), Op::MoveTop));
    entries.push((Op::MoveBottom.name(), Op::MoveBottom));
    entries.push((Op::ScrollUp.name(), Op::ScrollUp));
    entries.push((Op::ScrollDown.name(), Op::ScrollDown));
    entries.push((Op::MoveBeginLine.name(), Op::MoveBeginLine));
    entries.push((Op::MoveEndLine.name(), Op::MoveEndLine));
    entries.push((Op::Redraw.name(), Op::Redraw));
    entries.push((Op::RedrawAndCenter.name(), Op::RedrawAndCenter));
    entries.push((Op::Quit.name(), Op::Quit));
    entries.push((Op::OpenWindowTop.name(), Op::OpenWindowTop));
    entries.push((Op::OpenWindowBottom.name(), Op::OpenWindowBottom));
    entries.push((Op::OpenWindowAbove.name(), Op::OpenWindowAbove));
    entries.push((Op::OpenWindowBelow.name(), Op::OpenWindowBelow));
    entries.push((Op::CloseWindow.name(), Op::CloseWindow));
    entries.push((Op::PrevWindow.name(), Op::PrevWindow));
    entries.push((Op::NextWindow.name(), Op::NextWindow));
    OpMap { entries }
}

} // verus!
