//! The interactive session: a query that grows and shrinks by one character,
//! the ranking that follows it, and a selection that moves over the ranking
//! until the user confirms a record or leaves.

use vstd::prelude::*;

use crate::keys::{key_input, Input, Key};
use crate::rank::{
    is_ranking, rank, ranking, ranking_exists, ranking_of_empty_query, ranking_unique, scores_for,
    RankedResult,
};
use crate::symbol::{catalogue, Ref, RefView};

verus! {

/// `String::push` appends the given character to the end of the string.
pub assume_specification[ String::push ](text: &mut String, ch: char)
    ensures
        final(text)@ == old(text)@.push(ch),
;

/// `String::pop` removes the last character and returns it, or returns
/// `None` and leaves the string alone if it is empty.
pub assume_specification[ String::pop ](text: &mut String) -> (ch: Option<char>)
    ensures
        old(text)@.len() == 0 ==> ch is None && final(text)@ == old(text)@,
        old(text)@.len() > 0 ==> ch == Some(old(text)@.last()) && final(text)@ == old(
            text,
        )@.drop_last(),
;

/// Where a session stands.
#[derive(Debug, PartialEq, Eq)]
pub enum Phase {
    /// The user is still typing and choosing.
    Editing,
    /// The user has chosen this record; the session is over.
    Confirmed(Ref),
    /// The user has left without choosing; the session is over.
    Cancelled,
}

/// A phase as a plain value.
pub enum PhaseView {
    Editing,
    Confirmed(RefView),
    Cancelled,
}

impl View for Phase {
    type V = PhaseView;

    open spec fn view(&self) -> PhaseView {
        match self {
            Phase::Editing => PhaseView::Editing,
            Phase::Confirmed(r) => PhaseView::Confirmed(r@),
            Phase::Cancelled => PhaseView::Cancelled,
        }
    }
}

/// What the caller is to do after a request has been handled.
#[derive(Debug, PartialEq, Eq)]
pub enum Action {
    /// Nothing has changed.
    Ignore,
    /// Draw the session again.
    Render,
    /// Take the editor to this record, then end.
    Navigate(Ref),
    /// End.
    Quit,
}

/// An action as a plain value.
pub enum ActionView {
    Ignore,
    Render,
    Navigate(RefView),
    Quit,
}

impl View for Action {
    type V = ActionView;

    open spec fn view(&self) -> ActionView {
        match self {
            Action::Ignore => ActionView::Ignore,
            Action::Render => ActionView::Render,
            Action::Navigate(r) => ActionView::Navigate(r@),
            Action::Quit => ActionView::Quit,
        }
    }
}

/// The selection over a ranking of `len` lines, given where it was: it
/// stays where it was if that line is still there, and moves to the last
/// line if not; if no line was selected, the first line is. When no line is
/// left there is no selection. So a line is selected whenever there is one.
pub open spec fn clamped(cursor: Option<int>, len: int) -> Option<int> {
    if len <= 0 {
        None
    } else {
        match cursor {
            Some(i) => if i < len {
                Some(i)
            } else {
                Some(len - 1)
            },
            None => Some(0),
        }
    }
}

/// A selection moved one line down over `len` lines: it stops at the last
/// line.
pub open spec fn moved_down(cursor: Option<int>, len: int) -> Option<int> {
    match clamped(cursor, len) {
        Some(i) => if i + 1 < len {
            Some(i + 1)
        } else {
            Some(i)
        },
        None => None,
    }
}

/// A selection moved one line up over `len` lines: it stops at the first
/// line.
pub open spec fn moved_up(cursor: Option<int>, len: int) -> Option<int> {
    match clamped(cursor, len) {
        Some(i) => if i > 0 {
            Some(i - 1)
        } else {
            Some(i)
        },
        None => None,
    }
}

/// A session as a plain value: the catalogue, the query, the selection as a
/// line of the ranking, and the phase. The ranking is no part of it: it
/// follows from the catalogue and the query.
pub struct AppView {
    pub index: Seq<RefView>,
    pub query: Seq<char>,
    pub cursor: Option<int>,
    pub phase: PhaseView,
}

impl AppView {
    /// The ranking of the catalogue against the query.
    pub open spec fn results(self) -> Seq<RankedResult> {
        ranking(scores_for(self.index, self.query))
    }

    /// The label of line `k` of the ranking.
    pub open spec fn label(self, k: int) -> Seq<char> {
        self.index[self.results()[k].index as int].sig
    }

    /// The record under the selection, if a line is selected.
    pub open spec fn selected(self) -> Option<RefView> {
        match self.cursor {
            Some(i) => if 0 <= i < self.results().len() {
                Some(self.index[self.results()[i].index as int])
            } else {
                None
            },
            None => None,
        }
    }

    /// What holds of every session: a selection points at a line of the
    /// ranking, a line is selected whenever the ranking has one, and a
    /// confirmed record is the one under the selection.
    pub open spec fn wf(self) -> bool {
        &&& self.index.len() <= usize::MAX
        &&& self.cursor matches Some(i) ==> 0 <= i < self.results().len()
        &&& self.results().len() > 0 ==> self.cursor is Some
        &&& self.phase matches PhaseView::Confirmed(r) ==> self.selected() == Some(r)
    }

    /// The session of a catalogue just built: nothing typed, and the first
    /// record selected if there is one.
    pub open spec fn start(index: Seq<RefView>) -> AppView {
        AppView {
            index,
            query: Seq::empty(),
            cursor: clamped(None, index.len() as int),
            phase: PhaseView::Editing,
        }
    }

    /// The session with another query: the selection is clamped to the new
    /// ranking.
    pub open spec fn retyped(self, query: Seq<char>) -> AppView {
        AppView {
            index: self.index,
            query,
            cursor: clamped(self.cursor, ranking(scores_for(self.index, query)).len() as int),
            phase: self.phase,
        }
    }

    /// The session with the selection at another line.
    pub open spec fn pointed(self, cursor: Option<int>) -> AppView {
        AppView { index: self.index, query: self.query, cursor, phase: self.phase }
    }

    /// The session in another phase.
    pub open spec fn turned(self, phase: PhaseView) -> AppView {
        AppView { index: self.index, query: self.query, cursor: self.cursor, phase }
    }

    /// The session after one request. A session that is over stays as it is.
    pub open spec fn step(self, input: Input) -> AppView {
        if !(self.phase is Editing) {
            self
        } else {
            match input {
                Input::Char(c) => self.retyped(self.query.push(c)),
                Input::Backspace => if self.query.len() == 0 {
                    self
                } else {
                    self.retyped(self.query.drop_last())
                },
                Input::MoveUp => self.pointed(moved_up(self.cursor, self.results().len() as int)),
                Input::MoveDown => self.pointed(
                    moved_down(self.cursor, self.results().len() as int),
                ),
                Input::Confirm => match self.selected() {
                    Some(r) => self.turned(PhaseView::Confirmed(r)),
                    None => self,
                },
                Input::Cancel => self.turned(PhaseView::Cancelled),
            }
        }
    }

    /// What the caller is to do after that request: nothing if the session
    /// has not changed; else go to the record on a confirmation, end on a
    /// cancellation, and draw again otherwise.
    pub open spec fn action(self, input: Input) -> ActionView {
        let next = self.step(input);
        if next == self {
            ActionView::Ignore
        } else {
            match next.phase {
                PhaseView::Confirmed(r) => ActionView::Navigate(r),
                PhaseView::Cancelled => ActionView::Quit,
                PhaseView::Editing => ActionView::Render,
            }
        }
    }

    /// The session after one key: after the request that the key stands
    /// for, or unchanged if it stands for none.
    pub open spec fn pressed(self, key: Key) -> AppView {
        match key.input() {
            Some(input) => self.step(input),
            None => self,
        }
    }

    /// The session after a run of keys.
    pub open spec fn run(self, keys: Seq<Key>) -> AppView
        decreases keys.len(),
    {
        if keys.len() == 0 {
            self
        } else {
            self.pressed(keys[0]).run(keys.drop_first())
        }
    }
}

/// A session just started is well formed.
pub proof fn start_is_well_formed(index: Seq<RefView>)
    requires
        index.len() <= usize::MAX,
    ensures
        AppView::start(index).wf(),
{
    ranking_of_empty_query(index);
}

/// Whenever the ranking has a line, a line is selected, and it is a line of
/// the ranking.
pub proof fn selection_is_in_range(s: AppView)
    requires
        s.wf(),
        s.results().len() > 0,
    ensures
        s.cursor matches Some(i) && 0 <= i < s.results().len(),
{
}

/// The selection never leaves the ranking, and never leaves it without a
/// selection: whatever is asked of a well-formed session, the session that
/// follows is well formed.
pub proof fn step_keeps_well_formed(s: AppView, input: Input)
    requires
        s.wf(),
    ensures
        s.step(input).wf(),
{
}

/// Nothing can be confirmed while the ranking is empty: the request leaves
/// the session as it is.
pub proof fn confirm_needs_a_line(s: AppView)
    requires
        s.wf(),
        s.results().len() == 0,
    ensures
        s.step(Input::Confirm) == s,
        s.action(Input::Confirm) == ActionView::Ignore,
{
}

/// A session is confirmed only on a selected line, and it is the record of
/// that line that is confirmed.
pub proof fn confirm_takes_the_selection(s: AppView)
    requires
        s.wf(),
        s.phase is Editing,
    ensures
        s.step(Input::Confirm).phase is Confirmed <==> s.cursor is Some,
        s.cursor matches Some(i) ==> s.step(Input::Confirm).phase == PhaseView::Confirmed(
            s.index[s.results()[i].index as int],
        ),
{
}

/// A session that is over stays as it is and asks for nothing: after a
/// cancellation, then, the editor is never steered.
pub proof fn ended_session_asks_nothing(s: AppView, input: Input)
    requires
        !(s.phase is Editing),
    ensures
        s.step(input) == s,
        s.action(input) == ActionView::Ignore,
{
}

/// The editor is steered once at most: the request that confirms a record
/// asks for the navigation, and no request after it asks for anything.
pub proof fn navigation_is_asked_once(s: AppView, input: Input, later: Input)
    requires
        s.action(input) is Navigate,
    ensures
        s.phase is Editing,
        input == Input::Confirm,
        s.step(input).phase == PhaseView::Confirmed(s.action(input)->Navigate_0),
        s.step(input).action(later) == ActionView::Ignore,
{
}

/// Typing a character and erasing it at once brings back the query, and
/// with it the ranking: the same lines in the same order.
pub proof fn append_then_remove(s: AppView, c: char)
    requires
        s.phase is Editing,
    ensures
        s.step(Input::Char(c)).step(Input::Backspace).query == s.query,
        s.step(Input::Char(c)).step(Input::Backspace).results() == s.results(),
{
    assert(s.query.push(c).drop_last() =~= s.query);
}

/// A session that is over ignores every key.
pub proof fn run_of_ended(s: AppView, keys: Seq<Key>)
    requires
        !(s.phase is Editing),
    ensures
        s.run(keys) == s,
    decreases keys.len(),
{
    if keys.len() > 0 {
        run_of_ended(s, keys.drop_first());
    }
}

/// A run of keys keeps a session well formed.
pub proof fn run_keeps_well_formed(s: AppView, keys: Seq<Key>)
    requires
        s.wf(),
    ensures
        s.run(keys).wf(),
    decreases keys.len(),
{
    if keys.len() > 0 {
        match keys[0].input() {
            Some(input) => step_keeps_well_formed(s, input),
            None => {},
        }
        run_keeps_well_formed(s.pressed(keys[0]), keys.drop_first());
    }
}

/// What the user sees: the query, its ranking and the selected line.
struct Listing {
    input: String,
    search_results: Vec<RankedResult>,
    selected: Option<usize>,
}

/// The session of one user over one catalogue.
pub struct App {
    refs: Vec<Ref>,
    listing: Listing,
    phase: Phase,
}

impl View for App {
    type V = AppView;

    closed spec fn view(&self) -> AppView {
        AppView {
            index: catalogue(self.refs@),
            query: self.listing.input@,
            cursor: cursor_of(self.listing.selected),
            phase: self.phase@,
        }
    }
}

/// Clamps a selection to a ranking of `len` lines.
fn clamp(selected: Option<usize>, len: usize) -> (res: Option<usize>)
    ensures
        cursor_of(res) == clamped(cursor_of(selected), len as int),
{
    if len == 0 {
        None
    } else {
        match selected {
            Some(i) => if i < len {
                Some(i)
            } else {
                Some(len - 1)
            },
            None => Some(0),
        }
    }
}

/// Moves a selection one line down over `len` lines.
fn move_down(selected: Option<usize>, len: usize) -> (res: Option<usize>)
    ensures
        cursor_of(res) == moved_down(cursor_of(selected), len as int),
{
    match clamp(selected, len) {
        Some(i) => if i + 1 < len {
            Some(i + 1)
        } else {
            Some(i)
        },
        None => None,
    }
}

/// Moves a selection one line up over `len` lines.
fn move_up(selected: Option<usize>, len: usize) -> (res: Option<usize>)
    ensures
        cursor_of(res) == moved_up(cursor_of(selected), len as int),
{
    match clamp(selected, len) {
        Some(i) => if i > 0 {
            Some(i - 1)
        } else {
            Some(i)
        },
        None => None,
    }
}

/// The listing for a query: the ranking of the catalogue against it, with
/// the selection clamped to that ranking.
fn listing_for(refs: &Vec<Ref>, input: String, selected: Option<usize>) -> (listing: Listing)
    ensures
        listing.input == input,
        is_ranking(scores_for(catalogue(refs@), input@), listing.search_results@),
        listing.search_results@ == ranking(scores_for(catalogue(refs@), input@)),
        cursor_of(listing.selected) == clamped(
            cursor_of(selected),
            listing.search_results@.len() as int,
        ),
{
    let search_results = rank(refs, input.as_str());
    let selected = clamp(selected, search_results.len());
    Listing { input, search_results, selected }
}

/// A selection as a plain value.
pub open spec fn cursor_of(selected: Option<usize>) -> Option<int> {
    match selected {
        Some(i) => Some(i as int),
        None => None,
    }
}

impl App {
    /// The ranking held is that of the catalogue against the query, and
    /// the session is well formed.
    #[verifier::type_invariant]
    spec fn inv(self) -> bool {
        &&& is_ranking(
            scores_for(catalogue(self.refs@), self.listing.input@),
            self.listing.search_results@,
        )
        &&& self@.wf()
    }

    /// The ranking that the session holds is the ranking of its catalogue
    /// against its query.
    proof fn lemma_results(self)
        requires
            self.inv(),
        ensures
            self.listing.search_results@ == self@.results(),
    {
        let scores = scores_for(catalogue(self.refs@), self.listing.input@);
        ranking_exists(scores);
        ranking_unique(scores, self.listing.search_results@, ranking(scores));
    }

    /// Starts a session over a catalogue: the query is empty, every record
    /// is listed, and the first is selected.
    pub fn new(refs: Vec<Ref>) -> (app: App)
        ensures
            app@ == AppView::start(catalogue(refs@)),
            app@.wf(),
    {
        let search_results = rank(&refs, "");
        let input = String::new();
        let selected = clamp(None, refs.len());
        proof {
            reveal_strlit("");
            assert(input@ =~= ""@);
            assert(catalogue(refs@).len() == refs.len());
            ranking_of_empty_query(catalogue(refs@));
        }
        App { refs, listing: Listing { input, search_results, selected }, phase: Phase::Editing }
    }

    /// Handles one request of the user and says what is to be done next.
    pub fn handle(&mut self, input: Input) -> (action: Action)
        ensures
            final(self)@ == old(self)@.step(input),
            action@ == old(self)@.action(input),
            final(self)@.wf(),
    {
        proof {
            use_type_invariant(&*self);
            self.lemma_results();
            step_keeps_well_formed(self@, input);
        }
        match &self.phase {
            Phase::Editing => {},
            _ => {
                return Action::Ignore;
            },
        }
        match input {
            Input::Char(c) => {
                let mut query = self.listing.input.clone();
                query.push(c);
                self.listing = listing_for(&self.refs, query, self.listing.selected);
                assert(self@.query.len() != old(self)@.query.len());
                Action::Render
            },
            Input::Backspace => {
                if self.listing.input.as_str().is_empty() {
                    return Action::Ignore;
                }
                let mut query = self.listing.input.clone();
                query.pop();
                self.listing = listing_for(&self.refs, query, self.listing.selected);
                assert(self@.query.len() != old(self)@.query.len());
                Action::Render
            },
            Input::MoveUp => {
                let next = move_up(self.listing.selected, self.listing.search_results.len());
                if next == self.listing.selected {
                    Action::Ignore
                } else {
                    self.listing.selected = next;
                    Action::Render
                }
            },
            Input::MoveDown => {
                let next = move_down(self.listing.selected, self.listing.search_results.len());
                if next == self.listing.selected {
                    Action::Ignore
                } else {
                    self.listing.selected = next;
                    Action::Render
                }
            },
            Input::Confirm => match self.listing.selected {
                Some(i) => {
                    let chosen = self.refs[self.listing.search_results[i].index].clone();
                    self.phase = Phase::Confirmed(chosen.clone());
                    Action::Navigate(chosen)
                },
                None => Action::Ignore,
            },
            Input::Cancel => {
                self.phase = Phase::Cancelled;
                Action::Quit
            },
        }
    }

    /// Handles one key: the request that it stands for, if any.
    pub fn press(&mut self, key: &Key) -> (action: Action)
        ensures
            final(self)@ == old(self)@.pressed(*key),
            action@ == match key.input() {
                Some(input) => old(self)@.action(input),
                None => ActionView::Ignore,
            },
            final(self)@.wf(),
    {
        proof {
            use_type_invariant(&*self);
        }
        match key_input(key) {
            Some(input) => self.handle(input),
            None => Action::Ignore,
        }
    }

    /// Handles a run of keys, one after the other, and stops when the
    /// session is over. Says whether it is.
    pub fn run(&mut self, keys: &Vec<Key>) -> (over: bool)
        ensures
            final(self)@ == old(self)@.run(keys@),
            over == !(final(self)@.phase is Editing),
            final(self)@.wf(),
    {
        proof {
            use_type_invariant(&*self);
            assert(keys@.skip(0) =~= keys@);
        }
        let mut i: usize = 0;
        while i < keys.len() && !self.is_over()
            invariant
                i <= keys.len(),
                self@.wf(),
                old(self)@.run(keys@) == self@.run(keys@.skip(i as int)),
            decreases keys.len() - i,
        {
            assert(keys@.skip(i as int).drop_first() =~= keys@.skip(i + 1));
            self.press(&keys[i]);
            i += 1;
        }
        proof {
            if i < keys.len() {
                run_of_ended(self@, keys@.skip(i as int));
            }
        }
        self.is_over()
    }

    /// Whether the session is over: confirmed or cancelled.
    pub fn is_over(&self) -> (over: bool)
        ensures
            over == !(self@.phase is Editing),
    {
        match &self.phase {
            Phase::Editing => false,
            _ => true,
        }
    }

    /// The catalogue.
    pub fn refs(&self) -> (refs: &Vec<Ref>)
        ensures
            catalogue(refs@) == self@.index,
    {
        &self.refs
    }

    /// The query as typed so far.
    pub fn input(&self) -> (input: &str)
        ensures
            input@ == self@.query,
    {
        self.listing.input.as_str()
    }

    /// The ranking of the catalogue against the query.
    pub fn search_results(&self) -> (results: &Vec<RankedResult>)
        ensures
            results@ == self@.results(),
    {
        proof {
            use_type_invariant(self);
            self.lemma_results();
        }
        &self.listing.search_results
    }

    /// The selected line of the ranking. It is a line of the ranking, and
    /// there is one whenever the ranking has a line.
    pub fn selected(&self) -> (selected: Option<usize>)
        ensures
            cursor_of(selected) == self@.cursor,
            selected matches Some(i) ==> i < self@.results().len(),
            self@.results().len() > 0 ==> selected is Some,
    {
        proof {
            use_type_invariant(self);
        }
        self.listing.selected
    }

    /// Where the session stands.
    pub fn phase(&self) -> (phase: &Phase)
        ensures
            phase@ == self@.phase,
            self@.wf(),
    {
        proof {
            use_type_invariant(self);
        }
        &self.phase
    }

    /// The record under the selection, if a line is selected.
    pub fn get_selected_ref(&self) -> (chosen: Option<Ref>)
        ensures
            match chosen {
                Some(r) => self@.selected() == Some(r@),
                None => self@.selected() is None,
            },
    {
        proof {
            use_type_invariant(self);
            self.lemma_results();
        }
        match self.listing.selected {
            Some(i) => Some(self.refs[self.listing.search_results[i].index].clone()),
            None => None,
        }
    }

    /// The labels of the ranking, line by line.
    pub fn labels(&self) -> (labels: Vec<String>)
        ensures
            labels@.len() == self@.results().len(),
            forall|k: int|
                0 <= k < labels@.len() ==> (#[trigger] labels@[k])@ == self@.label(k),
    {
        proof {
            use_type_invariant(self);
            self.lemma_results();
        }
        let mut labels: Vec<String> = Vec::new();
        let mut k: usize = 0;
        while k < self.listing.search_results.len()
            invariant
                k <= self.listing.search_results.len(),
                labels@.len() == k,
                self.listing.search_results@ == self@.results(),
                self@.index == catalogue(self.refs@),
                forall|j: int|
                    0 <= j < self.listing.search_results@.len() ==> (
                    #[trigger] self.listing.search_results@[j]).index < self.refs@.len(),
                forall|j: int| 0 <= j < k ==> (#[trigger] labels@[j])@ == self@.label(j),
            decreases self.listing.search_results.len() - k,
        {
            labels.push(self.refs[self.listing.search_results[k].index].sig.clone());
            k += 1;
        }
        labels
    }
}

} // verus!
