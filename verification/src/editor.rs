//! What a navigation does to an editor. The editor is taken as a plain
//! value: its windows and buffers, which buffer each window shows, which
//! buffer is current, and where the cursors stand. Each request changes it
//! as the editor's manual says, and every call goes through. Against this
//! editor the conversation of `nvim` is run to its end, and what it leaves
//! behind is proved.

use vstd::prelude::*;

use crate::error::ErrorView;
use crate::nvim::{edit_command, Buffer, NavView, ReplyView, RequestView, StageView, Window};
use crate::symbol::RefView;

verus! {

/// What the navigation can learn of a buffer: its file name, its option
/// `buftype` where that is text, and whether it is listed.
pub struct BufferState {
    pub name: Seq<char>,
    pub kind: Option<Seq<char>>,
    pub listed: bool,
}

/// An editor, as far as the navigation can tell.
#[verifier::ext_equal]
pub struct Editor {
    /// The windows, in the editor's order.
    pub windows: Seq<Window>,
    /// The buffer that each window shows.
    pub shown: Map<Window, Buffer>,
    /// The buffers, in the editor's order.
    pub buffers: Seq<Buffer>,
    /// What is known of each buffer.
    pub state: Map<Buffer, BufferState>,
    /// The buffer in which the user is working.
    pub current: Buffer,
    /// The cursor of each window: line and column.
    pub cursors: Map<Window, (usize, usize)>,
    /// The buffer that the editor makes when it is asked for a new one.
    pub spare: Buffer,
}

/// A buffer just made: listed, ordinary, and without a name.
pub open spec fn blank_buffer() -> BufferState {
    BufferState { name: Seq::empty(), kind: Some(Seq::empty()), listed: true }
}

impl Editor {
    /// What holds of every editor: each window shows one of the buffers, the
    /// current buffer is one of them, no buffer is there twice, something
    /// is known of each, and a new buffer is none of them.
    pub open spec fn wf(self) -> bool {
        &&& self.buffers.no_duplicates()
        &&& self.buffers.contains(self.current)
        &&& !self.buffers.contains(self.spare)
        &&& forall|i: int|
            0 <= i < self.buffers.len() ==> self.state.dom().contains(#[trigger] self.buffers[i])
        &&& forall|i: int|
            0 <= i < self.windows.len() ==> self.shown.dom().contains(#[trigger] self.windows[i])
                && self.buffers.contains(self.shown[self.windows[i]])
    }

    /// Whether a window shows an ordinary buffer: one whose `buftype` is
    /// the empty text.
    pub open spec fn ordinary(self, window: Window) -> bool {
        self.state[self.shown[window]].kind matches Some(kind) && kind.len() == 0
    }

    /// Whether window `k` is the first that shows an ordinary buffer.
    pub open spec fn first_ordinary(self, k: int) -> bool {
        &&& 0 <= k < self.windows.len()
        &&& self.ordinary(self.windows[k])
        &&& forall|j: int| 0 <= j < k ==> !self.ordinary(#[trigger] self.windows[j])
    }

    /// Whether no window shows an ordinary buffer.
    pub open spec fn none_ordinary(self) -> bool {
        forall|j: int| 0 <= j < self.windows.len() ==> !self.ordinary(#[trigger] self.windows[j])
    }

    /// Whether buffer `k` is the first that bears the name `file`.
    pub open spec fn first_named(self, file: Seq<char>, k: int) -> bool {
        &&& 0 <= k < self.buffers.len()
        &&& self.state[self.buffers[k]].name == file
        &&& forall|j: int| 0 <= j < k ==> self.state[#[trigger] self.buffers[j]].name != file
    }

    /// Whether no buffer bears the name `file`.
    pub open spec fn none_named(self, file: Seq<char>) -> bool {
        forall|j: int|
            0 <= j < self.buffers.len() ==> self.state[#[trigger] self.buffers[j]].name != file
    }

    /// The editor after a command. `edit` with a file name loads that file
    /// into the current buffer, which then bears its name; no other command
    /// is modelled.
    pub open spec fn commanded(self, text: Seq<char>) -> Editor {
        if text.len() >= 5 && text.subrange(0, 5) == "edit "@ {
            Editor {
                state: self.state.insert(
                    self.current,
                    BufferState {
                        name: text.subrange(5, text.len() as int),
                        kind: self.state[self.current].kind,
                        listed: self.state[self.current].listed,
                    },
                ),
                ..self
            }
        } else {
            self
        }
    }

    /// The editor after a request, and its reply.
    pub open spec fn respond(self, request: RequestView) -> (Editor, ReplyView) {
        match request {
            RequestView::Connect => (self, ReplyView::Done),
            RequestView::ListWindows => (self, ReplyView::Windows(self.windows)),
            RequestView::WindowBuffer(w) => (self, ReplyView::Buffer(self.shown[w])),
            RequestView::BufferType(b) => (
                self,
                match self.state[b].kind {
                    Some(kind) => ReplyView::Text(kind),
                    None => ReplyView::Other,
                },
            ),
            RequestView::ListBuffers => (self, ReplyView::Buffers(self.buffers)),
            RequestView::BufferName(b) => (self, ReplyView::Text(self.state[b].name)),
            RequestView::ListBuffer(b) => (
                Editor {
                    state: self.state.insert(
                        b,
                        BufferState {
                            name: self.state[b].name,
                            kind: self.state[b].kind,
                            listed: true,
                        },
                    ),
                    ..self
                },
                ReplyView::Done,
            ),
            RequestView::CurrentBuffer => (self, ReplyView::Buffer(self.current)),
            RequestView::CreateBuffer => (
                Editor {
                    buffers: self.buffers.push(self.spare),
                    state: self.state.insert(self.spare, blank_buffer()),
                    ..self
                },
                ReplyView::Buffer(self.spare),
            ),
            RequestView::SetCurrentBuffer(b) => (Editor { current: b, ..self }, ReplyView::Done),
            RequestView::Command(text) => (self.commanded(text), ReplyView::Done),
            RequestView::SetWindowBuffer(w, b) => (
                Editor { shown: self.shown.insert(w, b), ..self },
                ReplyView::Done,
            ),
            RequestView::SetCursor(w, line, column) => (
                Editor { cursors: self.cursors.insert(w, (line, column)), ..self },
                ReplyView::Done,
            ),
            RequestView::Finish(_) => (self, ReplyView::Done),
        }
    }

    /// How many calls a navigation may need at most in this editor.
    pub open spec fn patience(self) -> nat {
        2 * self.windows.len() + self.buffers.len() + 12
    }

    /// The editor after a navigation to `record` that found `buffer` to
    /// bear the file's name: the buffer is listed, `window` shows it, and
    /// the window's cursor stands on the record. Nothing else has changed.
    pub open spec fn reusing(self, window: Window, buffer: Buffer, record: RefView) -> Editor {
        Editor {
            state: self.state.insert(
                buffer,
                BufferState {
                    name: self.state[buffer].name,
                    kind: self.state[buffer].kind,
                    listed: true,
                },
            ),
            shown: self.shown.insert(window, buffer),
            cursors: self.cursors.insert(window, (record.line, record.column)),
            ..self
        }
    }

    /// The editor after a navigation to `record` that found no buffer for
    /// the file: there is one more buffer, which bears the file's name;
    /// `window` shows it, and the window's cursor stands on the record.
    /// Nothing else has changed: the current buffer is the one it was.
    pub open spec fn opening(self, window: Window, record: RefView) -> Editor {
        Editor {
            buffers: self.buffers.push(self.spare),
            state: self.state.insert(
                self.spare,
                BufferState { name: record.file, kind: Some(Seq::empty()), listed: true },
            ),
            shown: self.shown.insert(window, self.spare),
            cursors: self.cursors.insert(window, (record.line, record.column)),
            ..self
        }
    }
}

/// The conversation between a navigation and an editor, from the request
/// under way, for at most `calls` calls: the navigation, the editor and the
/// request at which it stops. It stops at the end of the navigation.
pub open spec fn converse(nav: NavView, editor: Editor, request: RequestView, calls: nat) -> (
    NavView,
    Editor,
    RequestView,
)
    decreases calls,
{
    if calls == 0 || request is Finish {
        (nav, editor, request)
    } else {
        let (answered, reply) = editor.respond(request);
        let (next, asked) = nav.step(reply);
        converse(next, answered, asked, (calls - 1) as nat)
    }
}

/// A whole navigation to `record` in `editor`: the editor that it leaves
/// behind, and how it ended.
pub open spec fn navigate(record: RefView, editor: Editor) -> (
    Editor,
    Option<Result<(), ErrorView>>,
) {
    let end = converse(NavView::start(record), editor, RequestView::Connect, editor.patience());
    (
        end.1,
        match end.2 {
            RequestView::Finish(outcome) => Some(outcome),
            _ => None,
        },
    )
}

/// A navigation at a stage.
spec fn at(record: RefView, stage: StageView) -> NavView {
    NavView { record, stage }
}

/// A conversation of `a + b` calls is one of `a` calls, gone on with for
/// `b` calls.
proof fn lemma_converse_split(nav: NavView, editor: Editor, request: RequestView, a: nat, b: nat)
    ensures
        converse(nav, editor, request, a + b) == ({
            let mid = converse(nav, editor, request, a);
            converse(mid.0, mid.1, mid.2, b)
        }),
    decreases a,
{
    if a == 0 {
    } else if request is Finish {
    } else {
        let (answered, reply) = editor.respond(request);
        let (next, asked) = nav.step(reply);
        lemma_converse_split(next, answered, asked, (a - 1) as nat, b);
    }
}

/// If `a` calls lead from one point of a conversation to another, then a
/// longer conversation from the first point is the rest of it from the
/// second.
proof fn lemma_go_on(
    nav: NavView,
    editor: Editor,
    request: RequestView,
    a: nat,
    calls: nat,
    mid: (NavView, Editor, RequestView),
)
    requires
        a <= calls,
        converse(nav, editor, request, a) == mid,
    ensures
        converse(nav, editor, request, calls) == converse(mid.0, mid.1, mid.2, (calls - a) as nat),
{
    lemma_converse_split(nav, editor, request, a, (calls - a) as nat);
}

/// One call of a conversation.
proof fn lemma_one_call(nav: NavView, editor: Editor, request: RequestView, calls: nat)
    requires
        calls > 0,
        !(request is Finish),
    ensures
        converse(nav, editor, request, calls) == ({
            let (answered, reply) = editor.respond(request);
            let (next, asked) = nav.step(reply);
            converse(next, answered, asked, (calls - 1) as nat)
        }),
{
}

/// Looking through the windows from window `from` on finds the first
/// ordinary one, at two calls a window, and leaves the editor alone.
proof fn lemma_find_window(record: RefView, editor: Editor, from: int, k: int)
    requires
        editor.first_ordinary(k),
        0 <= from <= k,
    ensures
        converse(
            at(record, StageView::WindowBuffer { windows: editor.windows, at: from }),
            editor,
            RequestView::WindowBuffer(editor.windows[from]),
            (2 * (k - from) + 2) as nat,
        ) == (
            at(record, StageView::ListingBuffers { window: editor.windows[k] }),
            editor,
            RequestView::ListBuffers,
        ),
    decreases k - from,
{
    let windows = editor.windows;
    let calls = (2 * (k - from) + 2) as nat;
    let nav = at(record, StageView::WindowBuffer { windows, at: from });
    let buffer = editor.shown[windows[from]];
    lemma_one_call(nav, editor, RequestView::WindowBuffer(windows[from]), calls);
    let nav2 = at(record, StageView::WindowType { windows, at: from });
    lemma_one_call(nav2, editor, RequestView::BufferType(buffer), (calls - 1) as nat);
    if from < k {
        assert(!editor.ordinary(windows[from]));
        lemma_find_window(record, editor, from + 1, k);
    }
}

/// Looking through windows of which none is ordinary ends the navigation:
/// there is no window to use. The editor is left alone.
proof fn lemma_find_no_window(record: RefView, editor: Editor, from: int)
    requires
        editor.none_ordinary(),
        0 <= from < editor.windows.len(),
    ensures
        converse(
            at(record, StageView::WindowBuffer { windows: editor.windows, at: from }),
            editor,
            RequestView::WindowBuffer(editor.windows[from]),
            (2 * (editor.windows.len() - from)) as nat,
        ) == (
            at(record, StageView::Finished(Err(ErrorView::NoWindow))),
            editor,
            RequestView::Finish(Err(ErrorView::NoWindow)),
        ),
    decreases editor.windows.len() - from,
{
    let windows = editor.windows;
    let calls = (2 * (windows.len() - from)) as nat;
    let nav = at(record, StageView::WindowBuffer { windows, at: from });
    let buffer = editor.shown[windows[from]];
    lemma_one_call(nav, editor, RequestView::WindowBuffer(windows[from]), calls);
    let nav2 = at(record, StageView::WindowType { windows, at: from });
    lemma_one_call(nav2, editor, RequestView::BufferType(buffer), (calls - 1) as nat);
    assert(!editor.ordinary(windows[from]));
    if from + 1 < windows.len() {
        lemma_find_no_window(record, editor, from + 1);
    }
}

/// Looking through the buffers from buffer `from` on finds the first that
/// bears the record's file name, at one call a buffer, and leaves the
/// editor alone.
proof fn lemma_find_buffer(record: RefView, editor: Editor, window: Window, from: int, k: int)
    requires
        editor.first_named(record.file, k),
        0 <= from <= k,
    ensures
        converse(
            at(record, StageView::BufferName { window, buffers: editor.buffers, at: from }),
            editor,
            RequestView::BufferName(editor.buffers[from]),
            (k - from + 1) as nat,
        ) == (
            at(record, StageView::Listing { window, buffer: editor.buffers[k] }),
            editor,
            RequestView::ListBuffer(editor.buffers[k]),
        ),
    decreases k - from,
{
    let buffers = editor.buffers;
    let calls = (k - from + 1) as nat;
    let nav = at(record, StageView::BufferName { window, buffers, at: from });
    lemma_one_call(nav, editor, RequestView::BufferName(buffers[from]), calls);
    if from < k {
        assert(editor.state[buffers[from]].name != record.file);
        lemma_find_buffer(record, editor, window, from + 1, k);
    }
}

/// Looking through buffers of which none bears the record's file name
/// ends with the navigation setting out to make one. The editor is left
/// alone.
proof fn lemma_find_no_buffer(record: RefView, editor: Editor, window: Window, from: int)
    requires
        editor.none_named(record.file),
        0 <= from < editor.buffers.len(),
    ensures
        converse(
            at(record, StageView::BufferName { window, buffers: editor.buffers, at: from }),
            editor,
            RequestView::BufferName(editor.buffers[from]),
            (editor.buffers.len() - from) as nat,
        ) == (
            at(record, StageView::SavingCurrent { window }),
            editor,
            RequestView::CurrentBuffer,
        ),
    decreases editor.buffers.len() - from,
{
    let buffers = editor.buffers;
    let calls = (buffers.len() - from) as nat;
    let nav = at(record, StageView::BufferName { window, buffers, at: from });
    lemma_one_call(nav, editor, RequestView::BufferName(buffers[from]), calls);
    assert(editor.state[buffers[from]].name != record.file);
    if from + 1 < buffers.len() {
        lemma_find_no_buffer(record, editor, window, from + 1);
    }
}

/// From the start of a navigation to the list of buffers: the connection is
/// made, and the first ordinary window is found.
proof fn lemma_to_the_buffers(record: RefView, editor: Editor, k: int)
    requires
        editor.first_ordinary(k),
    ensures
        converse(
            NavView::start(record),
            editor,
            RequestView::Connect,
            (2 * k + 4) as nat,
        ) == (
            at(record, StageView::ListingBuffers { window: editor.windows[k] }),
            editor,
            RequestView::ListBuffers,
        ),
{
    let calls = (2 * k + 4) as nat;
    lemma_one_call(NavView::start(record), editor, RequestView::Connect, calls);
    lemma_one_call(
        at(record, StageView::ListingWindows),
        editor,
        RequestView::ListWindows,
        (calls - 1) as nat,
    );
    lemma_find_window(record, editor, 0, k);
}

/// The end of every navigation that goes through: the buffer is shown in
/// the window, and the cursor is put on the record.
proof fn lemma_show_and_place(record: RefView, editor: Editor, window: Window, buffer: Buffer)
    ensures
        converse(
            at(record, StageView::Binding { window }),
            editor,
            RequestView::SetWindowBuffer(window, buffer),
            2,
        ) == (
            at(record, StageView::Finished(Ok(()))),
            Editor {
                shown: editor.shown.insert(window, buffer),
                cursors: editor.cursors.insert(window, (record.line, record.column)),
                ..editor
            },
            RequestView::Finish(Ok(())),
        ),
{
    let shown = Editor { shown: editor.shown.insert(window, buffer), ..editor };
    lemma_one_call(
        at(record, StageView::Binding { window }),
        editor,
        RequestView::SetWindowBuffer(window, buffer),
        2,
    );
    lemma_one_call(
        at(record, StageView::Placing),
        shown,
        RequestView::SetCursor(window, record.line, record.column),
        1,
    );
}

/// Where the editor shows no window on an ordinary buffer, the navigation
/// fails for want of a window and leaves the editor as it found it.
pub proof fn navigation_needs_a_window(record: RefView, editor: Editor)
    requires
        editor.wf(),
        editor.none_ordinary(),
    ensures
        navigate(record, editor) == (editor, Some(Err::<(), ErrorView>(ErrorView::NoWindow))),
{
    let calls = editor.patience();
    let end = (
        at(record, StageView::Finished(Err(ErrorView::NoWindow))),
        editor,
        RequestView::Finish(Err(ErrorView::NoWindow)),
    );
    lemma_one_call(NavView::start(record), editor, RequestView::Connect, calls);
    lemma_one_call(
        at(record, StageView::ListingWindows),
        editor,
        RequestView::ListWindows,
        (calls - 1) as nat,
    );
    if editor.windows.len() > 0 {
        lemma_find_no_window(record, editor, 0);
        lemma_go_on(
            at(record, StageView::WindowBuffer { windows: editor.windows, at: 0 }),
            editor,
            RequestView::WindowBuffer(editor.windows[0]),
            (2 * editor.windows.len()) as nat,
            (calls - 2) as nat,
            end,
        );
    }
}

/// Where a buffer bears the record's file name, the navigation reuses the
/// first such buffer: it has it listed, shows it in the first ordinary
/// window and puts that window's cursor on the record. No buffer is made,
/// and the current buffer stays the current one.
pub proof fn navigation_reuses_the_buffer(record: RefView, editor: Editor, w: int, b: int)
    requires
        editor.wf(),
        editor.first_ordinary(w),
        editor.first_named(record.file, b),
    ensures
        navigate(record, editor) == (
            editor.reusing(editor.windows[w], editor.buffers[b], record),
            Some(Ok::<(), ErrorView>(())),
        ),
        navigate(record, editor).0.buffers == editor.buffers,
        navigate(record, editor).0.current == editor.current,
{
    let window = editor.windows[w];
    let buffer = editor.buffers[b];
    let calls = editor.patience();
    let listing = (
        at(record, StageView::ListingBuffers { window }),
        editor,
        RequestView::ListBuffers,
    );
    lemma_to_the_buffers(record, editor, w);
    lemma_go_on(
        NavView::start(record),
        editor,
        RequestView::Connect,
        (2 * w + 4) as nat,
        calls,
        listing,
    );
    let left = (calls - (2 * w + 4)) as nat;
    lemma_one_call(listing.0, editor, RequestView::ListBuffers, left);
    let found = (
        at(record, StageView::Listing { window, buffer }),
        editor,
        RequestView::ListBuffer(buffer),
    );
    lemma_find_buffer(record, editor, window, 0, b);
    lemma_go_on(
        at(record, StageView::BufferName { window, buffers: editor.buffers, at: 0 }),
        editor,
        RequestView::BufferName(editor.buffers[0]),
        (b + 1) as nat,
        (left - 1) as nat,
        found,
    );
    let left = (left - 1 - (b + 1)) as nat;
    lemma_one_call(found.0, editor, RequestView::ListBuffer(buffer), left);
    let listed = editor.respond(RequestView::ListBuffer(buffer)).0;
    let end = (
        at(record, StageView::Finished(Ok(()))),
        Editor {
            shown: listed.shown.insert(window, buffer),
            cursors: listed.cursors.insert(window, (record.line, record.column)),
            ..listed
        },
        RequestView::Finish(Ok(())),
    );
    lemma_show_and_place(record, listed, window, buffer);
    lemma_go_on(
        at(record, StageView::Binding { window }),
        listed,
        RequestView::SetWindowBuffer(window, buffer),
        2,
        (left - 1) as nat,
        end,
    );
    assert(end.1 =~= editor.reusing(window, buffer, record));
}

/// Where no buffer bears the record's file name, the navigation makes one:
/// afterwards there is exactly one more buffer, it bears the file's name,
/// the first ordinary window shows it with the cursor on the record, and
/// the buffer that was current is current again.
pub proof fn navigation_opens_the_file(record: RefView, editor: Editor, w: int)
    requires
        editor.wf(),
        editor.first_ordinary(w),
        editor.none_named(record.file),
    ensures
        navigate(record, editor) == (
            editor.opening(editor.windows[w], record),
            Some(Ok::<(), ErrorView>(())),
        ),
        navigate(record, editor).0.buffers.len() == editor.buffers.len() + 1,
        navigate(record, editor).0.current == editor.current,
        navigate(record, editor).0.first_named(record.file, editor.buffers.len() as int),
{
    let window = editor.windows[w];
    let calls = editor.patience();
    let listing = (
        at(record, StageView::ListingBuffers { window }),
        editor,
        RequestView::ListBuffers,
    );
    lemma_to_the_buffers(record, editor, w);
    lemma_go_on(
        NavView::start(record),
        editor,
        RequestView::Connect,
        (2 * w + 4) as nat,
        calls,
        listing,
    );
    let left = (calls - (2 * w + 4)) as nat;
    lemma_one_call(listing.0, editor, RequestView::ListBuffers, left);
    let saving = (
        at(record, StageView::SavingCurrent { window }),
        editor,
        RequestView::CurrentBuffer,
    );
    let n = editor.buffers.len();
    if n > 0 {
        lemma_find_no_buffer(record, editor, window, 0);
        lemma_go_on(
            at(record, StageView::BufferName { window, buffers: editor.buffers, at: 0 }),
            editor,
            RequestView::BufferName(editor.buffers[0]),
            n,
            (left - 1) as nat,
            saving,
        );
    }
    let left = (left - 1 - n) as nat;
    assert(converse(NavView::start(record), editor, RequestView::Connect, calls) == converse(
        saving.0,
        saving.1,
        saving.2,
        left,
    ));
    let previous = editor.current;
    let buffer = editor.spare;
    lemma_one_call(saving.0, editor, RequestView::CurrentBuffer, left);
    lemma_one_call(
        at(record, StageView::Creating { window, previous }),
        editor,
        RequestView::CreateBuffer,
        (left - 1) as nat,
    );
    let made = editor.respond(RequestView::CreateBuffer).0;
    lemma_one_call(
        at(record, StageView::Switching { window, previous, buffer }),
        made,
        RequestView::SetCurrentBuffer(buffer),
        (left - 2) as nat,
    );
    let switched = Editor { current: buffer, ..made };
    let command = edit_command(record.file);
    lemma_one_call(
        at(record, StageView::Opening { window, previous, buffer }),
        switched,
        RequestView::Command(command),
        (left - 3) as nat,
    );
    assert(switched.commanded(command).state[buffer].name == record.file) by {
        reveal_strlit("edit ");
        assert(command.subrange(0, 5) =~= "edit "@);
        assert(command.subrange(5, command.len() as int) =~= record.file);
    }
    let loaded = switched.commanded(command);
    lemma_one_call(
        at(record, StageView::Restoring { window, buffer }),
        loaded,
        RequestView::SetCurrentBuffer(previous),
        (left - 4) as nat,
    );
    let restored = Editor { current: previous, ..loaded };
    let end = (
        at(record, StageView::Finished(Ok(()))),
        Editor {
            shown: restored.shown.insert(window, buffer),
            cursors: restored.cursors.insert(window, (record.line, record.column)),
            ..restored
        },
        RequestView::Finish(Ok(())),
    );
    lemma_show_and_place(record, restored, window, buffer);
    lemma_go_on(
        at(record, StageView::Binding { window }),
        restored,
        RequestView::SetWindowBuffer(window, buffer),
        2,
        (left - 5) as nat,
        end,
    );
    assert(end.1 =~= editor.opening(window, record)) by {
        reveal_strlit("edit ");
        assert(command.subrange(0, 5) =~= "edit "@);
        assert(command.subrange(5, command.len() as int) =~= record.file);
    }
    let after = editor.opening(window, record);
    assert(after.first_named(record.file, n as int)) by {
        assert forall|j: int| 0 <= j < n implies after.state[#[trigger] after.buffers[j]].name
            != record.file by {
            assert(editor.buffers.contains(editor.buffers[j]));
            assert(editor.state[editor.buffers[j]].name != record.file);
        }
    }
}

} // verus!
