//! Taking a running editor to a record. The conversation with the editor is
//! a fixed run of remote calls, each of which may fail; this module decides,
//! reply by reply, which call comes next, and leaves the calling to its user.
//!
//! The steps, in order: connect; take the first window that shows an
//! ordinary buffer; take the buffer that bears the record's file name or,
//! if there is none, make one and load the file into it behind the user's
//! back; show that buffer in the window; put the cursor on the record.

use vstd::prelude::*;

use crate::error::{Error, ErrorView};
use crate::symbol::{Ref, RefView};

verus! {

/// A window of the editor, by the number under which the caller knows it.
#[derive(Debug, Clone, Copy, PartialEq, Eq, Hash, Structural)]
pub struct Window(pub u64);

/// A buffer of the editor, by the number under which the caller knows it.
#[derive(Debug, Clone, Copy, PartialEq, Eq, Hash, Structural)]
pub struct Buffer(pub u64);

/// The remote call to make next, or the end of the conversation.
#[derive(Debug, PartialEq, Eq)]
pub enum Request {
    /// Connect to the editor's endpoint.
    Connect,
    /// List the windows.
    ListWindows,
    /// Ask which buffer a window shows.
    WindowBuffer(Window),
    /// Ask for a buffer's option `buftype`.
    BufferType(Buffer),
    /// List the buffers.
    ListBuffers,
    /// Ask for a buffer's file name.
    BufferName(Buffer),
    /// Set a buffer's option `buflisted`.
    ListBuffer(Buffer),
    /// Ask which buffer is the current one.
    CurrentBuffer,
    /// Create a listed buffer that is no scratch buffer.
    CreateBuffer,
    /// Make a buffer the current one.
    SetCurrentBuffer(Buffer),
    /// Run an editor command.
    Command(String),
    /// Show a buffer in a window.
    SetWindowBuffer(Window, Buffer),
    /// Put a window's cursor at a line and a column, both counted from one.
    /// `cursor_call` gives the argument of the editor's call.
    SetCursor(Window, usize, usize),
    /// Nothing more to do: the navigation went through, or failed so.
    Finish(Result<(), Error>),
}

/// A request as a plain value.
pub enum RequestView {
    Connect,
    ListWindows,
    WindowBuffer(Window),
    BufferType(Buffer),
    ListBuffers,
    BufferName(Buffer),
    ListBuffer(Buffer),
    CurrentBuffer,
    CreateBuffer,
    SetCurrentBuffer(Buffer),
    Command(Seq<char>),
    SetWindowBuffer(Window, Buffer),
    SetCursor(Window, usize, usize),
    Finish(Result<(), ErrorView>),
}

/// An outcome as a plain value.
pub open spec fn outcome_view(outcome: Result<(), Error>) -> Result<(), ErrorView> {
    match outcome {
        Ok(_) => Ok(()),
        Err(e) => Err(e@),
    }
}

impl View for Request {
    type V = RequestView;

    open spec fn view(&self) -> RequestView {
        match self {
            Request::Connect => RequestView::Connect,
            Request::ListWindows => RequestView::ListWindows,
            Request::WindowBuffer(w) => RequestView::WindowBuffer(*w),
            Request::BufferType(b) => RequestView::BufferType(*b),
            Request::ListBuffers => RequestView::ListBuffers,
            Request::BufferName(b) => RequestView::BufferName(*b),
            Request::ListBuffer(b) => RequestView::ListBuffer(*b),
            Request::CurrentBuffer => RequestView::CurrentBuffer,
            Request::CreateBuffer => RequestView::CreateBuffer,
            Request::SetCurrentBuffer(b) => RequestView::SetCurrentBuffer(*b),
            Request::Command(c) => RequestView::Command(c@),
            Request::SetWindowBuffer(w, b) => RequestView::SetWindowBuffer(*w, *b),
            Request::SetCursor(w, line, column) => RequestView::SetCursor(*w, *line, *column),
            Request::Finish(outcome) => RequestView::Finish(outcome_view(*outcome)),
        }
    }
}

/// What the editor answered to the last request.
#[derive(Debug, PartialEq, Eq)]
pub enum Reply {
    /// The call went through and has nothing to report.
    Done,
    /// The windows, in the editor's order.
    Windows(Vec<Window>),
    /// The buffers, in the editor's order.
    Buffers(Vec<Buffer>),
    /// A buffer.
    Buffer(Buffer),
    /// A name, or the value of an option that is text.
    Text(String),
    /// The value of an option that is no text.
    Other,
    /// The call failed; the reason.
    Failed(String),
}

/// A reply as a plain value.
pub enum ReplyView {
    Done,
    Windows(Seq<Window>),
    Buffers(Seq<Buffer>),
    Buffer(Buffer),
    Text(Seq<char>),
    Other,
    Failed(Seq<char>),
}

impl View for Reply {
    type V = ReplyView;

    open spec fn view(&self) -> ReplyView {
        match self {
            Reply::Done => ReplyView::Done,
            Reply::Windows(w) => ReplyView::Windows(w@),
            Reply::Buffers(b) => ReplyView::Buffers(b@),
            Reply::Buffer(b) => ReplyView::Buffer(*b),
            Reply::Text(t) => ReplyView::Text(t@),
            Reply::Other => ReplyView::Other,
            Reply::Failed(why) => ReplyView::Failed(why@),
        }
    }
}

/// How far the conversation has come: the call that is under way, with
/// what has been found so far.
enum Stage {
    Connecting,
    ListingWindows,
    WindowBuffer { windows: Vec<Window>, at: usize },
    WindowType { windows: Vec<Window>, at: usize },
    ListingBuffers { window: Window },
    BufferName { window: Window, buffers: Vec<Buffer>, at: usize },
    Listing { window: Window, buffer: Buffer },
    SavingCurrent { window: Window },
    Creating { window: Window, previous: Buffer },
    Switching { window: Window, previous: Buffer, buffer: Buffer },
    Opening { window: Window, previous: Buffer, buffer: Buffer },
    Restoring { window: Window, buffer: Buffer },
    Binding { window: Window },
    Placing,
    Finished(Result<(), Error>),
}

/// A stage as a plain value.
pub enum StageView {
    /// Connecting to the endpoint.
    Connecting,
    /// Waiting for the list of windows.
    ListingWindows,
    /// Asked which buffer window `at` of `windows` shows.
    WindowBuffer { windows: Seq<Window>, at: int },
    /// Asked of what type the buffer of window `at` is.
    WindowType { windows: Seq<Window>, at: int },
    /// Found the window; waiting for the list of buffers.
    ListingBuffers { window: Window },
    /// Asked for the name of buffer `at` of `buffers`.
    BufferName { window: Window, buffers: Seq<Buffer>, at: int },
    /// Found the file's buffer; having it listed.
    Listing { window: Window, buffer: Buffer },
    /// No buffer has the file; asked which buffer is current.
    SavingCurrent { window: Window },
    /// Asked for a new buffer.
    Creating { window: Window, previous: Buffer },
    /// Making the new buffer the current one.
    Switching { window: Window, previous: Buffer, buffer: Buffer },
    /// Loading the file into the current buffer.
    Opening { window: Window, previous: Buffer, buffer: Buffer },
    /// Making the user's buffer the current one again.
    Restoring { window: Window, buffer: Buffer },
    /// Showing the file's buffer in the window.
    Binding { window: Window },
    /// Putting the cursor on the record.
    Placing,
    /// The conversation is over, with this outcome.
    Finished(Result<(), ErrorView>),
}

impl View for Stage {
    type V = StageView;

    closed spec fn view(&self) -> StageView {
        match self {
            Stage::Connecting => StageView::Connecting,
            Stage::ListingWindows => StageView::ListingWindows,
            Stage::WindowBuffer { windows, at } => StageView::WindowBuffer {
                windows: windows@,
                at: *at as int,
            },
            Stage::WindowType { windows, at } => StageView::WindowType {
                windows: windows@,
                at: *at as int,
            },
            Stage::ListingBuffers { window } => StageView::ListingBuffers { window: *window },
            Stage::BufferName { window, buffers, at } => StageView::BufferName {
                window: *window,
                buffers: buffers@,
                at: *at as int,
            },
            Stage::Listing { window, buffer } => StageView::Listing {
                window: *window,
                buffer: *buffer,
            },
            Stage::SavingCurrent { window } => StageView::SavingCurrent { window: *window },
            Stage::Creating { window, previous } => StageView::Creating {
                window: *window,
                previous: *previous,
            },
            Stage::Switching { window, previous, buffer } => StageView::Switching {
                window: *window,
                previous: *previous,
                buffer: *buffer,
            },
            Stage::Opening { window, previous, buffer } => StageView::Opening {
                window: *window,
                previous: *previous,
                buffer: *buffer,
            },
            Stage::Restoring { window, buffer } => StageView::Restoring {
                window: *window,
                buffer: *buffer,
            },
            Stage::Binding { window } => StageView::Binding { window: *window },
            Stage::Placing => StageView::Placing,
            Stage::Finished(outcome) => StageView::Finished(outcome_view(*outcome)),
        }
    }
}

/// A line or column as the editor's calls take it: the number itself, or
/// the greatest that the call can take.
pub open spec fn call_number(n: int) -> i64 {
    if n <= i64::MAX {
        n as i64
    } else {
        i64::MAX
    }
}

/// The argument of the editor's cursor call for a place whose line and
/// column are counted from one: the editor counts lines from one and
/// columns from zero. A column before the first is taken as the first.
pub open spec fn cursor_argument(line: usize, column: usize) -> (i64, i64) {
    (
        call_number(line as int),
        if column == 0 {
            0i64
        } else {
            call_number(column - 1)
        },
    )
}

/// Computes the argument of the editor's cursor call for the line and
/// column of a `SetCursor` request.
pub fn cursor_call(line: usize, column: usize) -> (res: (i64, i64))
    ensures
        res == cursor_argument(line, column),
{
    let row = if line as u64 <= 0x7fff_ffff_ffff_ffff {
        line as i64
    } else {
        i64::MAX
    };
    let col = if column == 0 {
        0
    } else if (column - 1) as u64 <= 0x7fff_ffff_ffff_ffff {
        (column - 1) as i64
    } else {
        i64::MAX
    };
    (row, col)
}

/// The reason given when the editor answers with something that was not
/// asked for.
pub open spec fn unexpected_reply() -> Seq<char> {
    "unexpected reply from the editor"@
}

/// The editor command that loads a file into the current buffer.
pub open spec fn edit_command(file: Seq<char>) -> Seq<char> {
    "edit "@ + file
}

/// A navigation as a plain value: the record to go to, and the stage.
pub struct NavView {
    pub record: RefView,
    pub stage: StageView,
}

impl NavView {
    /// A navigation at its start: the connection is asked for.
    pub open spec fn start(record: RefView) -> NavView {
        NavView { record, stage: StageView::Connecting }
    }

    /// What holds of every navigation: a window or buffer that is being
    /// asked about is one of those that the editor listed.
    pub open spec fn wf(self) -> bool {
        match self.stage {
            StageView::WindowBuffer { windows, at } => 0 <= at < windows.len(),
            StageView::WindowType { windows, at } => 0 <= at < windows.len(),
            StageView::BufferName { window, buffers, at } => 0 <= at < buffers.len(),
            _ => true,
        }
    }

    /// Goes on to `stage` by making `request`.
    pub open spec fn asking(self, stage: StageView, request: RequestView) -> (
        NavView,
        RequestView,
    ) {
        (NavView { record: self.record, stage }, request)
    }

    /// Ends the navigation with a failure.
    pub open spec fn failing(self, error: ErrorView) -> (NavView, RequestView) {
        (
            NavView { record: self.record, stage: StageView::Finished(Err(error)) },
            RequestView::Finish(Err(error)),
        )
    }

    /// Turns to window `at` of those listed or, past the last of them, ends:
    /// the editor shows no window on an ordinary buffer.
    pub open spec fn trying_window(self, windows: Seq<Window>, at: int) -> (NavView, RequestView) {
        if 0 <= at < windows.len() {
            self.asking(
                StageView::WindowBuffer { windows, at },
                RequestView::WindowBuffer(windows[at]),
            )
        } else {
            self.failing(ErrorView::NoWindow)
        }
    }

    /// Turns to buffer `at` of those listed or, past the last of them, sets
    /// out to make a buffer for the file.
    pub open spec fn trying_buffer(self, window: Window, buffers: Seq<Buffer>, at: int) -> (
        NavView,
        RequestView,
    ) {
        if 0 <= at < buffers.len() {
            self.asking(
                StageView::BufferName { window, buffers, at },
                RequestView::BufferName(buffers[at]),
            )
        } else {
            self.asking(StageView::SavingCurrent { window }, RequestView::CurrentBuffer)
        }
    }

    /// The navigation after the editor's reply to the request under way,
    /// with the request to make next.
    ///
    /// A navigation that is over stays over and repeats its outcome. A call
    /// that failed ends the navigation with the reason: as a failure to
    /// reach the editor while connecting, as a failure of the editor
    /// afterwards. A reply of a kind that the request cannot have ends it
    /// as a failure of the editor.
    pub open spec fn step(self, reply: ReplyView) -> (NavView, RequestView) {
        match (self.stage, reply) {
            (StageView::Finished(outcome), _) => (self, RequestView::Finish(outcome)),
            (StageView::Connecting, ReplyView::Failed(why)) => self.failing(ErrorView::Io(why)),
            (_, ReplyView::Failed(why)) => self.failing(ErrorView::Nvim(why)),
            (StageView::Connecting, ReplyView::Done) => self.asking(
                StageView::ListingWindows,
                RequestView::ListWindows,
            ),
            (StageView::ListingWindows, ReplyView::Windows(windows)) => self.trying_window(
                windows,
                0,
            ),
            (StageView::WindowBuffer { windows, at }, ReplyView::Buffer(buffer)) => self.asking(
                StageView::WindowType { windows, at },
                RequestView::BufferType(buffer),
            ),
            (StageView::WindowType { windows, at }, ReplyView::Text(kind)) => if kind.len() == 0 {
                self.asking(
                    StageView::ListingBuffers { window: windows[at] },
                    RequestView::ListBuffers,
                )
            } else {
                self.trying_window(windows, at + 1)
            },
            (StageView::WindowType { windows, at }, ReplyView::Other) => self.trying_window(
                windows,
                at + 1,
            ),
            (StageView::ListingBuffers { window }, ReplyView::Buffers(buffers)) => {
                self.trying_buffer(window, buffers, 0)
            },
            (StageView::BufferName { window, buffers, at }, ReplyView::Text(name)) => if name
                == self.record.file {
                self.asking(
                    StageView::Listing { window, buffer: buffers[at] },
                    RequestView::ListBuffer(buffers[at]),
                )
            } else {
                self.trying_buffer(window, buffers, at + 1)
            },
            (StageView::Listing { window, buffer }, ReplyView::Done) => self.asking(
                StageView::Binding { window },
                RequestView::SetWindowBuffer(window, buffer),
            ),
            (StageView::SavingCurrent { window }, ReplyView::Buffer(previous)) => self.asking(
                StageView::Creating { window, previous },
                RequestView::CreateBuffer,
            ),
            (StageView::Creating { window, previous }, ReplyView::Buffer(buffer)) => self.asking(
                StageView::Switching { window, previous, buffer },
                RequestView::SetCurrentBuffer(buffer),
            ),
            (StageView::Switching { window, previous, buffer }, ReplyView::Done) => self.asking(
                StageView::Opening { window, previous, buffer },
                RequestView::Command(edit_command(self.record.file)),
            ),
            (StageView::Opening { window, previous, buffer }, ReplyView::Done) => self.asking(
                StageView::Restoring { window, buffer },
                RequestView::SetCurrentBuffer(previous),
            ),
            (StageView::Restoring { window, buffer }, ReplyView::Done) => self.asking(
                StageView::Binding { window },
                RequestView::SetWindowBuffer(window, buffer),
            ),
            (StageView::Binding { window }, ReplyView::Done) => self.asking(
                StageView::Placing,
                RequestView::SetCursor(window, self.record.line, self.record.column),
            ),
            (StageView::Placing, ReplyView::Done) => (
                NavView { record: self.record, stage: StageView::Finished(Ok(())) },
                RequestView::Finish(Ok(())),
            ),
            _ => self.failing(ErrorView::Nvim(unexpected_reply())),
        }
    }
}

/// The place of a stage in the order of the steps.
pub open spec fn step_number(stage: StageView) -> nat {
    match stage {
        StageView::Connecting => 0,
        StageView::ListingWindows => 1,
        StageView::WindowBuffer { .. } => 2,
        StageView::WindowType { .. } => 2,
        StageView::ListingBuffers { .. } => 3,
        StageView::BufferName { .. } => 4,
        StageView::SavingCurrent { .. } => 5,
        StageView::Creating { .. } => 6,
        StageView::Switching { .. } => 7,
        StageView::Opening { .. } => 8,
        StageView::Restoring { .. } => 9,
        StageView::Listing { .. } => 9,
        StageView::Binding { .. } => 10,
        StageView::Placing => 11,
        StageView::Finished(_) => 12,
    }
}

/// How many calls a stage may still make before it gives way to a later
/// step: two for each window, one for each buffer, that is still to be
/// looked at.
pub open spec fn calls_left(stage: StageView) -> nat {
    match stage {
        StageView::WindowBuffer { windows, at } => (2 * (windows.len() - at)) as nat,
        StageView::WindowType { windows, at } => (2 * (windows.len() - at) - 1) as nat,
        StageView::BufferName { window, buffers, at } => (buffers.len() - at) as nat,
        _ => 0,
    }
}

/// A navigation at its start is well formed.
pub proof fn start_is_well_formed(record: RefView)
    ensures
        NavView::start(record).wf(),
{
}

/// Whatever the editor answers, a well-formed navigation stays well formed.
pub proof fn step_keeps_well_formed(nav: NavView, reply: ReplyView)
    requires
        nav.wf(),
    ensures
        nav.step(reply).0.wf(),
        nav.step(reply).0.record == nav.record,
{
}

/// The steps come in their order and none is made twice: each reply either
/// takes the navigation to a later step, or leaves it at the step it is at
/// with fewer calls to make. So every navigation ends.
pub proof fn step_makes_progress(nav: NavView, reply: ReplyView)
    requires
        nav.wf(),
        !(nav.stage is Finished),
    ensures
        step_number(nav.step(reply).0.stage) > step_number(nav.stage) || (step_number(
            nav.step(reply).0.stage,
        ) == step_number(nav.stage) && calls_left(nav.step(reply).0.stage) < calls_left(
            nav.stage,
        )),
{
}

/// A call that fails ends the navigation at once, with the reason that the
/// editor gave; nothing is tried again.
pub proof fn failure_ends(nav: NavView, why: Seq<char>)
    requires
        !(nav.stage is Finished),
    ensures
        nav.step(ReplyView::Failed(why)).0.stage is Finished,
        nav.step(ReplyView::Failed(why)).1 == RequestView::Finish(
            Err(
                if nav.stage is Connecting {
                    ErrorView::Io(why)
                } else {
                    ErrorView::Nvim(why)
                },
            ),
        ),
{
}

/// The navigation goes through only by the cursor being put: the last call
/// before a good end is the one that places the cursor.
pub proof fn success_follows_the_cursor(nav: NavView, reply: ReplyView)
    requires
        !(nav.stage is Finished),
        nav.step(reply).1 == RequestView::Finish(Ok(())),
    ensures
        nav.stage is Placing,
        reply is Done,
{
}

/// The request that the editor is asked first.
pub open spec fn first_request() -> RequestView {
    RequestView::Connect
}

/// One navigation to one record.
pub struct Navigator {
    record: Ref,
    stage: Stage,
}

impl View for Navigator {
    type V = NavView;

    closed spec fn view(&self) -> NavView {
        NavView { record: self.record@, stage: self.stage@ }
    }
}

impl Navigator {
    /// The navigation is well formed.
    #[verifier::type_invariant]
    spec fn inv(self) -> bool {
        self@.wf()
    }

    /// Starts a navigation to `record`. The first request is to connect.
    pub fn new(record: Ref) -> (nav: Navigator)
        ensures
            nav@ == NavView::start(record@),
    {
        Navigator { record, stage: Stage::Connecting }
    }

    /// The request with which every navigation starts.
    pub fn first(&self) -> (request: Request)
        ensures
            request@ == first_request(),
    {
        Request::Connect
    }

    /// The record to go to.
    pub fn record(&self) -> (record: &Ref)
        ensures
            record@ == self@.record,
    {
        &self.record
    }

    /// Whether the navigation is over, and how it ended.
    pub fn outcome(&self) -> (outcome: Option<Result<(), Error>>)
        ensures
            match outcome {
                Some(o) => self@.stage == StageView::Finished(outcome_view(o)),
                None => !(self@.stage is Finished),
            },
    {
        match &self.stage {
            Stage::Finished(Ok(_)) => Some(Ok(())),
            Stage::Finished(Err(e)) => Some(Err(e.clone())),
            _ => None,
        }
    }

    /// Goes on to `stage` by making `request`.
    fn ask(record: Ref, stage: Stage, request: Request) -> (next: (Navigator, Request))
        requires
            (NavView { record: record@, stage: stage@ }).wf(),
        ensures
            (next.0@, next.1@) == NavView::start(record@).asking(stage@, request@),
    {
        (Navigator { record, stage }, request)
    }

    /// Ends the navigation with a failure.
    fn fail(record: Ref, error: Error) -> (next: (Navigator, Request))
        ensures
            (next.0@, next.1@) == NavView::start(record@).failing(error@),
    {
        let again = error.clone();
        (Navigator { record, stage: Stage::Finished(Err(error)) }, Request::Finish(Err(again)))
    }

    /// Turns to window `at` or, past the last window, gives up.
    fn try_window(record: Ref, windows: Vec<Window>, at: usize) -> (next: (Navigator, Request))
        ensures
            (next.0@, next.1@) == NavView::start(record@).trying_window(windows@, at as int),
    {
        if at < windows.len() {
            let window = windows[at];
            Self::ask(record, Stage::WindowBuffer { windows, at }, Request::WindowBuffer(window))
        } else {
            Self::fail(record, Error::NoWindow)
        }
    }

    /// Turns to buffer `at` or, past the last buffer, sets out to make one.
    fn try_buffer(record: Ref, window: Window, buffers: Vec<Buffer>, at: usize) -> (next: (
        Navigator,
        Request,
    ))
        ensures
            (next.0@, next.1@) == NavView::start(record@).trying_buffer(
                window,
                buffers@,
                at as int,
            ),
    {
        if at < buffers.len() {
            let buffer = buffers[at];
            Self::ask(
                record,
                Stage::BufferName { window, buffers, at },
                Request::BufferName(buffer),
            )
        } else {
            Self::ask(record, Stage::SavingCurrent { window }, Request::CurrentBuffer)
        }
    }

    /// Takes the editor's reply to the request under way and says which
    /// request to make next.
    pub fn advance(self, reply: Reply) -> (next: (Navigator, Request))
        ensures
            (next.0@, next.1@) == self@.step(reply@),
            next.0@.wf(),
    {
        proof {
            use_type_invariant(&self);
            step_keeps_well_formed(self@, reply@);
        }
        let Navigator { record, stage } = self;
        assert((NavView { record: record@, stage: stage@ }).wf());
        match (stage, reply) {
            (Stage::Finished(outcome), _) => {
                let again = match &outcome {
                    Ok(_) => Ok(()),
                    Err(e) => Err(e.clone()),
                };
                (Navigator { record, stage: Stage::Finished(outcome) }, Request::Finish(again))
            },
            (Stage::Connecting, Reply::Failed(why)) => Self::fail(record, Error::Io(why)),
            (_, Reply::Failed(why)) => Self::fail(record, Error::Nvim(why)),
            (Stage::Connecting, Reply::Done) => Self::ask(
                record,
                Stage::ListingWindows,
                Request::ListWindows,
            ),
            (Stage::ListingWindows, Reply::Windows(windows)) => Self::try_window(
                record,
                windows,
                0,
            ),
            (Stage::WindowBuffer { windows, at }, Reply::Buffer(buffer)) => Self::ask(
                record,
                Stage::WindowType { windows, at },
                Request::BufferType(buffer),
            ),
            (Stage::WindowType { windows, at }, Reply::Text(kind)) => {
                if kind.as_str().is_empty() {
                    let window = windows[at];
                    Self::ask(record, Stage::ListingBuffers { window }, Request::ListBuffers)
                } else {
                    assert(at < windows.len());
                    Self::try_window(record, windows, at + 1)
                }
            },
            (Stage::WindowType { windows, at }, Reply::Other) => {
                assert(at < windows.len());
                Self::try_window(record, windows, at + 1)
            },
            (Stage::ListingBuffers { window }, Reply::Buffers(buffers)) => Self::try_buffer(
                record,
                window,
                buffers,
                0,
            ),
            (Stage::BufferName { window, buffers, at }, Reply::Text(name)) => {
                if name == record.file {
                    let buffer = buffers[at];
                    Self::ask(
                        record,
                        Stage::Listing { window, buffer },
                        Request::ListBuffer(buffer),
                    )
                } else {
                    assert(at < buffers.len());
                    Self::try_buffer(record, window, buffers, at + 1)
                }
            },
            (Stage::Listing { window, buffer }, Reply::Done) => Self::ask(
                record,
                Stage::Binding { window },
                Request::SetWindowBuffer(window, buffer),
            ),
            (Stage::SavingCurrent { window }, Reply::Buffer(previous)) => Self::ask(
                record,
                Stage::Creating { window, previous },
                Request::CreateBuffer,
            ),
            (Stage::Creating { window, previous }, Reply::Buffer(buffer)) => Self::ask(
                record,
                Stage::Switching { window, previous, buffer },
                Request::SetCurrentBuffer(buffer),
            ),
            (Stage::Switching { window, previous, buffer }, Reply::Done) => {
                let command = "edit ".to_owned().concat(record.file.as_str());
                Self::ask(
                    record,
                    Stage::Opening { window, previous, buffer },
                    Request::Command(command),
                )
            },
            (Stage::Opening { window, previous, buffer }, Reply::Done) => Self::ask(
                record,
                Stage::Restoring { window, buffer },
                Request::SetCurrentBuffer(previous),
            ),
            (Stage::Restoring { window, buffer }, Reply::Done) => Self::ask(
                record,
                Stage::Binding { window },
                Request::SetWindowBuffer(window, buffer),
            ),
            (Stage::Binding { window }, Reply::Done) => {
                let request = Request::SetCursor(window, record.line, record.column);
                Self::ask(record, Stage::Placing, request)
            },
            (Stage::Placing, Reply::Done) => (
                Navigator { record, stage: Stage::Finished(Ok(())) },
                Request::Finish(Ok(())),
            ),
            _ => Self::fail(record, Error::Nvim("unexpected reply from the editor".to_owned())),
        }
    }
}

} // verus!
