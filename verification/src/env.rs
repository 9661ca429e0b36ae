//! The editing environment as the dispatch core sees it: a write-only
//! surface that collects, in order, the requests to be carried out on the
//! screen and on the text being edited.

use vstd::prelude::*;

verus! {

/// Where a new window is opened. `Above` and `Below` are relative to the
/// window that is active when the request is carried out.
#[derive(Clone, Copy, Debug, PartialEq, Eq, Hash, Structural)]
pub enum Placement {
    Top,
    Bottom,
    Above,
    Below,
}

/// A change asked of the active editing surface or of the window layout.
#[derive(Clone, Copy, Debug, PartialEq, Eq, Hash, Structural)]
pub enum Edit {
    InsertChar(char),
    DeleteLeft,
    DeleteRight,
    MoveUp,
    MoveDown,
    MoveLeft,
    MoveRight,
    MovePageUp,
    MovePageDown,
    MoveTop,
    MoveBottom,
    ScrollUp,
    ScrollDown,
    MoveBeginLine,
    MoveEndLine,
    Draw,
    AlignCenter,
    OpenWindow(Placement),
    CloseWindow,
    PrevWindow,
    NextWindow,
}

/// One request to whoever owns the terminal.
#[derive(Debug, PartialEq, Eq)]
pub enum Request {
    /// Apply an edit to the active editing surface.
    Edit(Edit),
    /// Make the caret of the active editing surface visible.
    ShowCursor,
    /// Lay the windows out again for the current size of the terminal.
    Resize,
    /// Show a status text.
    SetAlert(String),
    /// Remove the status text.
    ClearAlert,
    /// Open the line prompt with the given prompt text.
    OpenPrompt(String),
    /// Tear the line prompt down.
    ClosePrompt,
}

/// A request with its texts as sequences of characters.
pub enum RequestView {
    Edit(Edit),
    ShowCursor,
    Resize,
    SetAlert(Seq<char>),
    ClearAlert,
    OpenPrompt(Seq<char>),
    ClosePrompt,
}

impl View for Request {
    type V = RequestView;

    open spec fn view(&self) -> RequestView {
        match self {
            Request::Edit(e) => RequestView::Edit(*e),
            Request::ShowCursor => RequestView::ShowCursor,
            Request::Resize => RequestView::Resize,
            Request::SetAlert(text) => RequestView::SetAlert(text@),
            Request::ClearAlert => RequestView::ClearAlert,
            Request::OpenPrompt(text) => RequestView::OpenPrompt(text@),
            Request::ClosePrompt => RequestView::ClosePrompt,
        }
    }
}

/// The views of a sequence of requests, in the same order.
pub open spec fn requests_view(requests: Seq<Request>) -> Seq<RequestView> {
    Seq::new(requests.len(), |i: int| requests[i]@)
}

/// Collects the requests made by the dispatch core and by editing
/// operations until the owner of the terminal takes them.
pub struct Environment {
    requests: Vec<Request>,
}

impl View for Environment {
    type V = Seq<RequestView>;

    /// The requests not yet taken, oldest first.
    closed spec fn view(&self) -> Seq<RequestView> {
        requests_view(self.requests@)
    }
}

impl Environment {
    /// An environment with no request outstanding.
    pub fn new() -> (env: Environment)
        ensures
            env@ == Seq::<RequestView>::empty(),
    {
        let env = Environment { requests: Vec::new() };
        assert(env@ =~= Seq::<RequestView>::empty());
        env
    }

    /// Adds a request behind those already outstanding.
    pub fn emit(&mut self, request: Request)
        ensures
            final(self)@ == old(self)@.push(request@),
    {
        self.requests.push(request);
        assert(self@ =~= old(self)@.push(request@));
    }

    /// Asks for an edit of the active editing surface.
    pub fn edit(&mut self, edit: Edit)
        ensures
            final(self)@ == old(self)@.push(RequestView::Edit(edit)),
    {
        self.emit(Request::Edit(edit));
    }

    /// The outstanding requests, oldest first.
    pub fn requests(&self) -> (requests: &Vec<Request>)
        ensures
            requests_view(requests@) == self@,
    {
        &self.requests
    }

    /// Hands the outstanding requests over, oldest first, and leaves none
    /// behind.
    pub fn take(&mut self) -> (requests: Vec<Request>)
        ensures
            requests_view(requests@) == old(self)@,
            final(self)@ == Seq::<RequestView>::empty(),
    {
        let mut requests: Vec<Request> = Vec::new();
        std::mem::swap(&mut self.requests, &mut requests);
        assert(self@ =~= Seq::<RequestView>::empty());
        requests
    }
}

} // verus!
