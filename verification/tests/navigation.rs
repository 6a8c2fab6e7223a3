use symbol_finder::error::Error;
use symbol_finder::nvim::{cursor_call, Buffer, Navigator, Reply, Request, Window};
use symbol_finder::symbol::Ref;

/// A buffer of the editor that the tests talk to.
struct Buf {
    id: u64,
    name: String,
    kind: String,
    listed: bool,
}

/// A stand-in for the editor: it answers each request as an editor would
/// and keeps a log of the requests it got.
struct Editor {
    windows: Vec<(u64, u64)>,
    buffers: Vec<Buf>,
    current: u64,
    cursors: Vec<(u64, usize, usize)>,
    next_buffer: u64,
    log: Vec<Request>,
    fail_at: Option<usize>,
}

impl Editor {
    fn new(buffers: Vec<(u64, &str, &str)>, windows: Vec<(u64, u64)>, current: u64) -> Editor {
        Editor {
            windows,
            buffers: buffers
                .into_iter()
                .map(|(id, name, kind)| Buf {
                    id,
                    name: name.to_string(),
                    kind: kind.to_string(),
                    listed: false,
                })
                .collect(),
            current,
            cursors: Vec::new(),
            next_buffer: 100,
            log: Vec::new(),
            fail_at: None,
        }
    }

    fn buffer(&mut self, id: u64) -> &mut Buf {
        self.buffers.iter_mut().find(|b| b.id == id).unwrap()
    }

    fn answer(&mut self, request: Request) -> Reply {
        let n = self.log.len();
        let reply = if self.fail_at == Some(n) {
            Reply::Failed(format!("call {} failed", n))
        } else {
            match &request {
                Request::Connect => Reply::Done,
                Request::ListWindows => {
                    Reply::Windows(self.windows.iter().map(|w| Window(w.0)).collect())
                }
                Request::WindowBuffer(w) => {
                    Reply::Buffer(Buffer(self.windows.iter().find(|x| x.0 == w.0).unwrap().1))
                }
                Request::BufferType(b) => Reply::Text(self.buffer(b.0).kind.clone()),
                Request::ListBuffers => {
                    Reply::Buffers(self.buffers.iter().map(|b| Buffer(b.id)).collect())
                }
                Request::BufferName(b) => Reply::Text(self.buffer(b.0).name.clone()),
                Request::ListBuffer(b) => {
                    self.buffer(b.0).listed = true;
                    Reply::Done
                }
                Request::CurrentBuffer => Reply::Buffer(Buffer(self.current)),
                Request::CreateBuffer => {
                    let id = self.next_buffer;
                    self.next_buffer += 1;
                    self.buffers.push(Buf {
                        id,
                        name: String::new(),
                        kind: String::new(),
                        listed: true,
                    });
                    Reply::Buffer(Buffer(id))
                }
                Request::SetCurrentBuffer(b) => {
                    self.current = b.0;
                    Reply::Done
                }
                Request::Command(text) => {
                    let file = text.strip_prefix("edit ").unwrap().to_string();
                    let current = self.current;
                    self.buffer(current).name = file;
                    Reply::Done
                }
                Request::SetWindowBuffer(w, b) => {
                    self.windows.iter_mut().find(|x| x.0 == w.0).unwrap().1 = b.0;
                    Reply::Done
                }
                Request::SetCursor(w, line, column) => {
                    self.cursors.retain(|c| c.0 != w.0);
                    self.cursors.push((w.0, *line, *column));
                    Reply::Done
                }
                Request::Finish(_) => unreachable!(),
            }
        };
        self.log.push(request);
        reply
    }

    fn named(&self, name: &str) -> Vec<u64> {
        self.buffers.iter().filter(|b| b.name == name).map(|b| b.id).collect()
    }

    fn shown_in(&self, window: u64) -> u64 {
        self.windows.iter().find(|w| w.0 == window).unwrap().1
    }
}

fn record() -> Ref {
    Ref { line: 12, column: 4, file: "/p/foo.rs".to_string(), sig: "fn foo()".to_string() }
}

fn navigate(editor: &mut Editor, record: Ref) -> Result<(), Error> {
    let mut nav = Navigator::new(record);
    let mut request = nav.first();
    for _ in 0..1000 {
        match request {
            Request::Finish(outcome) => {
                assert_eq!(nav.outcome(), Some(outcome.clone()));
                return outcome;
            }
            other => {
                assert_eq!(nav.outcome(), None);
                let reply = editor.answer(other);
                let (next, asked) = nav.advance(reply);
                nav = next;
                request = asked;
            }
        }
    }
    panic!("the navigation did not end");
}

#[test]
fn a_file_that_is_not_open_is_loaded_into_a_new_buffer() {
    let mut editor =
        Editor::new(vec![(1, "/p/main.rs", ""), (2, "", "terminal")], vec![(10, 2), (11, 1)], 1);
    assert_eq!(navigate(&mut editor, record()), Ok(()));
    assert_eq!(editor.buffers.len(), 3);
    assert_eq!(editor.named("/p/foo.rs"), vec![100]);
    assert_eq!(editor.current, 1);
    assert_eq!(editor.shown_in(11), 100);
    assert_eq!(editor.shown_in(10), 2);
    assert_eq!(editor.cursors, vec![(11, 12, 4)]);
}

#[test]
fn a_file_that_is_open_is_reused() {
    let mut editor = Editor::new(
        vec![(1, "/p/main.rs", ""), (2, "/p/foo.rs", ""), (3, "/p/bar.rs", "")],
        vec![(10, 1)],
        1,
    );
    assert_eq!(navigate(&mut editor, record()), Ok(()));
    assert_eq!(editor.buffers.len(), 3);
    assert_eq!(editor.named("/p/foo.rs"), vec![2]);
    assert!(editor.buffers[1].listed);
    assert!(!editor.buffers[0].listed);
    assert_eq!(editor.shown_in(10), 2);
    assert_eq!(editor.current, 1);
    assert_eq!(editor.cursors, vec![(10, 12, 4)]);
    assert!(!editor.log.contains(&Request::CreateBuffer));
}

#[test]
fn the_calls_come_in_the_order_of_the_steps_for_a_new_file() {
    let mut editor = Editor::new(vec![(1, "/p/main.rs", "")], vec![(10, 1)], 1);
    assert_eq!(navigate(&mut editor, record()), Ok(()));
    assert_eq!(
        editor.log,
        vec![
            Request::Connect,
            Request::ListWindows,
            Request::WindowBuffer(Window(10)),
            Request::BufferType(Buffer(1)),
            Request::ListBuffers,
            Request::BufferName(Buffer(1)),
            Request::CurrentBuffer,
            Request::CreateBuffer,
            Request::SetCurrentBuffer(Buffer(100)),
            Request::Command("edit /p/foo.rs".to_string()),
            Request::SetCurrentBuffer(Buffer(1)),
            Request::SetWindowBuffer(Window(10), Buffer(100)),
            Request::SetCursor(Window(10), 12, 4),
        ]
    );
}

#[test]
fn the_calls_come_in_the_order_of_the_steps_for_an_open_file() {
    let mut editor =
        Editor::new(vec![(1, "/p/main.rs", "help"), (2, "/p/foo.rs", "")], vec![(10, 1), (11, 2)], 1);
    assert_eq!(navigate(&mut editor, record()), Ok(()));
    assert_eq!(
        editor.log,
        vec![
            Request::Connect,
            Request::ListWindows,
            Request::WindowBuffer(Window(10)),
            Request::BufferType(Buffer(1)),
            Request::WindowBuffer(Window(11)),
            Request::BufferType(Buffer(2)),
            Request::ListBuffers,
            Request::BufferName(Buffer(1)),
            Request::BufferName(Buffer(2)),
            Request::ListBuffer(Buffer(2)),
            Request::SetWindowBuffer(Window(11), Buffer(2)),
            Request::SetCursor(Window(11), 12, 4),
        ]
    );
}

#[test]
fn the_first_ordinary_window_is_taken() {
    let mut editor = Editor::new(
        vec![(1, "", "terminal"), (2, "/p/a.rs", ""), (3, "/p/b.rs", ""), (4, "", "help")],
        vec![(10, 1), (11, 4), (12, 3), (13, 2)],
        3,
    );
    assert_eq!(navigate(&mut editor, record()), Ok(()));
    assert_eq!(editor.shown_in(12), 100);
    assert_eq!(editor.shown_in(13), 2);
    assert_eq!(editor.cursors, vec![(12, 12, 4)]);
    assert_eq!(editor.current, 3);
}

#[test]
fn the_first_buffer_of_that_name_is_taken() {
    let mut editor = Editor::new(
        vec![(1, "/p/main.rs", ""), (2, "/p/foo.rs", ""), (3, "/p/foo.rs", "")],
        vec![(10, 1)],
        1,
    );
    assert_eq!(navigate(&mut editor, record()), Ok(()));
    assert_eq!(editor.shown_in(10), 2);
    assert!(!editor.log.contains(&Request::BufferName(Buffer(3))));
}

#[test]
fn names_are_compared_exactly() {
    let mut editor = Editor::new(
        vec![(1, "/p/FOO.rs", ""), (2, "/p/foo.rs ", ""), (3, "p/foo.rs", ""), (4, "/p/foo.r", "")],
        vec![(10, 1)],
        1,
    );
    assert_eq!(navigate(&mut editor, record()), Ok(()));
    assert_eq!(editor.buffers.len(), 5);
    assert_eq!(editor.named("/p/foo.rs"), vec![100]);
}

#[test]
fn without_windows_the_navigation_fails() {
    let mut editor = Editor::new(vec![(1, "/p/foo.rs", "")], Vec::new(), 1);
    assert_eq!(navigate(&mut editor, record()), Err(Error::NoWindow));
    assert_eq!(editor.log, vec![Request::Connect, Request::ListWindows]);
}

#[test]
fn without_an_ordinary_window_the_navigation_fails() {
    let mut editor = Editor::new(
        vec![(1, "", "terminal"), (2, "", "help"), (3, "/p/foo.rs", "nofile")],
        vec![(10, 1), (11, 2), (12, 3)],
        1,
    );
    assert_eq!(navigate(&mut editor, record()), Err(Error::NoWindow));
    assert_eq!(editor.buffers.len(), 3);
    assert!(editor.cursors.is_empty());
    assert!(!editor.log.contains(&Request::ListBuffers));
}

#[test]
fn an_editor_without_buffers_gets_one() {
    let mut nav = Navigator::new(record());
    let mut request = nav.first();
    let replies = vec![
        Reply::Done,
        Reply::Windows(vec![Window(7)]),
        Reply::Buffer(Buffer(1)),
        Reply::Text(String::new()),
        Reply::Buffers(Vec::new()),
    ];
    for reply in replies {
        let (next, asked) = nav.advance(reply);
        nav = next;
        request = asked;
    }
    assert_eq!(request, Request::CurrentBuffer);
}

#[test]
fn an_option_that_is_no_text_marks_no_ordinary_buffer() {
    let mut nav = Navigator::new(record());
    for reply in [Reply::Done, Reply::Windows(vec![Window(7), Window(8)]), Reply::Buffer(Buffer(1))] {
        nav = nav.advance(reply).0;
    }
    let (nav, request) = nav.advance(Reply::Other);
    assert_eq!(request, Request::WindowBuffer(Window(8)));
    let (nav, request) = nav.advance(Reply::Buffer(Buffer(2)));
    assert_eq!(request, Request::BufferType(Buffer(2)));
    let (_, request) = nav.advance(Reply::Other);
    assert_eq!(request, Request::Finish(Err(Error::NoWindow)));
}

#[test]
fn a_failed_connection_is_reported_as_such() {
    let mut editor = Editor::new(vec![(1, "/p/main.rs", "")], vec![(10, 1)], 1);
    editor.fail_at = Some(0);
    assert_eq!(navigate(&mut editor, record()), Err(Error::Io("call 0 failed".to_string())));
    assert_eq!(editor.log, vec![Request::Connect]);
}

#[test]
fn every_failed_call_ends_the_navigation() {
    for at in 1..13 {
        let mut editor = Editor::new(vec![(1, "/p/main.rs", "")], vec![(10, 1)], 1);
        editor.fail_at = Some(at);
        assert_eq!(
            navigate(&mut editor, record()),
            Err(Error::Nvim(format!("call {} failed", at)))
        );
        assert_eq!(editor.log.len(), at + 1);
    }
    for at in 1..9 {
        let mut editor = Editor::new(vec![(2, "/p/foo.rs", "")], vec![(10, 2)], 2);
        editor.fail_at = Some(at);
        assert_eq!(
            navigate(&mut editor, record()),
            Err(Error::Nvim(format!("call {} failed", at)))
        );
        assert_eq!(editor.log.len(), at + 1);
    }
}

#[test]
fn a_failed_cursor_leaves_the_buffer_shown() {
    let mut editor = Editor::new(vec![(1, "/p/main.rs", "")], vec![(10, 1)], 1);
    editor.fail_at = Some(12);
    assert_eq!(navigate(&mut editor, record()), Err(Error::Nvim("call 12 failed".to_string())));
    assert_eq!(editor.named("/p/foo.rs"), vec![100]);
    assert_eq!(editor.shown_in(10), 100);
    assert_eq!(editor.current, 1);
    assert!(editor.cursors.is_empty());
}

#[test]
fn a_reply_of_the_wrong_kind_ends_the_navigation() {
    let wrong = Err(Error::Nvim("unexpected reply from the editor".to_string()));
    let (_, request) = Navigator::new(record()).advance(Reply::Windows(Vec::new()));
    assert_eq!(request, Request::Finish(wrong.clone()));
    let (nav, _) = Navigator::new(record()).advance(Reply::Done);
    let (nav, request) = nav.advance(Reply::Buffers(vec![Buffer(1)]));
    assert_eq!(request, Request::Finish(wrong.clone()));
    assert_eq!(nav.outcome(), Some(wrong.clone()));
    let (nav, _) = Navigator::new(record()).advance(Reply::Done);
    let (nav, _) = nav.advance(Reply::Windows(vec![Window(1)]));
    let (_, request) = nav.advance(Reply::Text("".to_string()));
    assert_eq!(request, Request::Finish(wrong));
}

#[test]
fn a_finished_navigation_repeats_its_outcome() {
    let (nav, _) = Navigator::new(record()).advance(Reply::Failed("refused".to_string()));
    let failed = Err(Error::Io("refused".to_string()));
    assert_eq!(nav.outcome(), Some(failed.clone()));
    let (nav, request) = nav.advance(Reply::Done);
    assert_eq!(request, Request::Finish(failed.clone()));
    let (nav, request) = nav.advance(Reply::Failed("again".to_string()));
    assert_eq!(request, Request::Finish(failed.clone()));
    assert_eq!(nav.outcome(), Some(failed));
    let mut editor = Editor::new(vec![(2, "/p/foo.rs", "")], vec![(10, 2)], 2);
    let mut nav = Navigator::new(record());
    let mut request = nav.first();
    while !matches!(request, Request::Finish(_)) {
        let (next, asked) = nav.advance(editor.answer(request));
        nav = next;
        request = asked;
    }
    assert_eq!(request, Request::Finish(Ok(())));
    let (nav, request) = nav.advance(Reply::Done);
    assert_eq!(request, Request::Finish(Ok(())));
    assert_eq!(nav.outcome(), Some(Ok(())));
}

#[test]
fn the_navigator_keeps_its_record() {
    let nav = Navigator::new(record());
    assert_eq!(nav.record(), &record());
    assert_eq!(nav.first(), Request::Connect);
    let (nav, _) = nav.advance(Reply::Done);
    assert_eq!(nav.record(), &record());
}

#[test]
fn the_cursor_goes_to_the_records_line_and_column() {
    let mut editor = Editor::new(vec![(1, "/q/lib.rs", "")], vec![(3, 1)], 1);
    let target = Ref { line: 301, column: 17, file: "/q/lib.rs".to_string(), sig: "x".to_string() };
    assert_eq!(navigate(&mut editor, target), Ok(()));
    assert_eq!(editor.cursors, vec![(3, 301, 17)]);
    assert_eq!(editor.log.last(), Some(&Request::SetCursor(Window(3), 301, 17)));
}

#[test]
fn the_editor_counts_columns_from_zero() {
    assert_eq!(cursor_call(12, 4), (12, 3));
    assert_eq!(cursor_call(5, 1), (5, 0));
    assert_eq!(cursor_call(1, 0), (1, 0));
    assert_eq!(cursor_call(0, 0), (0, 0));
    assert_eq!(cursor_call(usize::MAX, usize::MAX), (i64::MAX, i64::MAX));
    assert_eq!(cursor_call(i64::MAX as usize, i64::MAX as usize), (i64::MAX, i64::MAX - 1));
}
