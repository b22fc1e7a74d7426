//! The interaction engine: one session owns the line store, the query,
//! the mode, the filtered set and the selection, and applies one command
//! at a time. The caller runs the event loop; it hands each translated
//! command to [`Session::apply`] and stops as soon as an outcome comes
//! back.

use vstd::prelude::*;

use crate::lines::spec_lines;
use crate::lines::split_lines;
use crate::matcher::Mode;
use crate::matcher::lemma_matching_indices_correct;
use crate::matcher::matching_indices;
use crate::matcher::search;
use crate::render::RenderRow;
use crate::render::pad_spec;
use crate::render::pad_to_width;
use vstd::string::StringExecFns;

verus! {

/// Relies on `String::push`: appends the character to the end.
pub assume_specification[ String::push ](s: &mut String, ch: char)
    ensures
        final(s)@ == old(s)@.push(ch),
;

/// Relies on `String::pop`: removes and returns the last character, or
/// returns `None` and leaves the string unchanged when it is empty.
pub assume_specification[ String::pop ](s: &mut String) -> (r: Option<char>)
    ensures
        old(s)@.len() == 0 ==> r is None && final(s)@ == old(s)@,
        old(s)@.len() > 0 ==> r == Some(old(s)@.last()) && final(s)@ == old(s)@.drop_last(),
;

/// One step of the session, as produced by the event translator.
#[derive(Clone, Copy, Debug, PartialEq, Eq, Structural)]
pub enum Command {
    /// Append one typed character to the query.
    AppendChar(char),
    /// Remove the last query character; a no-op on an empty query.
    RemoveLastChar,
    /// Move the selection one row up, stopping at the top.
    MoveUp,
    /// Move the selection one row down, stopping at the bottom.
    MoveDown,
    /// Switch between literal and pattern matching.
    ToggleMode,
    /// End the session with the selected line, if any line is selected.
    Confirm,
    /// End the session with no selection.
    Cancel,
    /// An unrecognized input; changes nothing.
    Ignore,
}

/// What one session returns to its caller.
#[derive(Clone, Debug, PartialEq)]
pub enum Outcome {
    /// The user confirmed while a line was selected: its exact text.
    Selected(String),
    /// The user canceled, or confirmed with nothing to select.
    NoSelection,
}

/// Where the selection lands after the filtered set changed length: it is
/// pulled down to the last row if it now points past the end, left alone
/// otherwise, and never moved up when the set grows.
pub open spec fn clamp_spec(sel: int, len: int) -> int {
    if len > 0 && sel >= len {
        len - 1
    } else {
        sel
    }
}

/// Clamp the selection index to the bounds of a filtered set of length
/// `len`.
pub fn clamp(sel: usize, len: usize) -> (r: usize)
    ensures
        r as int == clamp_spec(sel as int, len as int),
{
    if len > 0 && sel >= len {
        len - 1
    } else {
        sel
    }
}

/// One interactive session: the immutable line store and the mutable
/// query, mode, filtered set and selection.
pub struct Session {
    lines: Vec<String>,
    query: String,
    mode: Mode,
    filtered: Vec<usize>,
    selection: usize,
}

impl Session {
    /// The line store, one character sequence per line.
    pub closed spec fn lines_model(self) -> Seq<Seq<char>> {
        self.lines.deep_view()
    }

    /// The query typed so far.
    pub closed spec fn query_model(self) -> Seq<char> {
        self.query@
    }

    /// The active matching mode.
    pub closed spec fn mode_model(self) -> Mode {
        self.mode
    }

    /// The filtered set, as indices into the line store.
    pub closed spec fn filtered_model(self) -> Seq<int> {
        self.filtered@.map_values(|u: usize| u as int)
    }

    /// The selection cursor into the filtered set.
    pub closed spec fn selection_model(self) -> int {
        self.selection as int
    }

    /// Session invariant: the filtered set is exactly the filter of the
    /// line store by the current query and mode, and the selection is in
    /// bounds whenever the filtered set is non-empty.
    pub open spec fn wf(self) -> bool {
        &&& self.filtered_model() == matching_indices(
            self.lines_model(),
            self.query_model(),
            self.mode_model(),
        )
        &&& self.filtered_model().len() > 0 ==> 0 <= self.selection_model()
            < self.filtered_model().len()
    }

    /// Start a session on the given text: the line store is split once,
    /// the query starts empty so the filtered set holds every line, and
    /// the selection sits on the first row.
    pub fn new(text: &str, mode: Mode) -> (s: Session)
        ensures
            s.wf(),
            s.lines_model() == spec_lines(text@),
            s.query_model() == Seq::<char>::empty(),
            s.mode_model() == mode,
            s.selection_model() == 0,
            s.filtered_model().len() == s.lines_model().len(),
    {
        let lines = split_lines(text);
        let query = String::new();
        let filtered = search(&lines, query.as_str(), mode);
        Session { lines, query, mode, filtered, selection: 0 }
    }

    /// Recompute the filtered set for the current query and mode, then
    /// clamp the selection to the new bounds.
    fn refilter(&mut self)
        ensures
            final(self).lines == old(self).lines,
            final(self).query == old(self).query,
            final(self).mode == old(self).mode,
            final(self).filtered_model() == matching_indices(
                final(self).lines_model(),
                final(self).query_model(),
                final(self).mode_model(),
            ),
            final(self).selection as int == clamp_spec(
                old(self).selection as int,
                final(self).filtered_model().len() as int,
            ),
    {
        let f = search(&self.lines, self.query.as_str(), self.mode);
        let sel = clamp(self.selection, f.len());
        self.filtered = f;
        self.selection = sel;
    }

    /// Apply one command. `None` keeps the session running; `Some`
    /// carries the session outcome and ends it. Confirming with a
    /// non-empty filtered set selects the line the cursor is on;
    /// confirming with an empty one, or canceling, selects nothing.
    /// Unlike the raw down-arrow handling of a deferred-clamp engine,
    /// [`Command::MoveDown`] stops at the last row at once; at
    /// confirmation time the two behave identically.
    pub fn apply(&mut self, cmd: Command) -> (r: Option<Outcome>)
        requires
            old(self).wf(),
        ensures
            final(self).wf(),
            final(self).lines_model() == old(self).lines_model(),
            match cmd {
                Command::AppendChar(c) => {
                    &&& r is None
                    &&& final(self).query_model() == old(self).query_model().push(c)
                    &&& final(self).mode_model() == old(self).mode_model()
                    &&& final(self).selection_model() == clamp_spec(
                        old(self).selection_model(),
                        final(self).filtered_model().len() as int,
                    )
                },
                Command::RemoveLastChar => {
                    &&& r is None
                    &&& final(self).query_model() == if old(self).query_model().len() == 0 {
                        old(self).query_model()
                    } else {
                        old(self).query_model().drop_last()
                    }
                    &&& final(self).mode_model() == old(self).mode_model()
                    &&& final(self).selection_model() == clamp_spec(
                        old(self).selection_model(),
                        final(self).filtered_model().len() as int,
                    )
                    &&& old(self).query_model().len() == 0 ==> final(self).filtered_model()
                        == old(self).filtered_model() && final(self).selection_model() == old(
                        self,
                    ).selection_model()
                },
                Command::MoveUp => {
                    &&& r is None
                    &&& final(self).query_model() == old(self).query_model()
                    &&& final(self).mode_model() == old(self).mode_model()
                    &&& final(self).filtered_model() == old(self).filtered_model()
                    &&& final(self).selection_model() == if old(self).selection_model() > 0 {
                        old(self).selection_model() - 1
                    } else {
                        0
                    }
                },
                Command::MoveDown => {
                    &&& r is None
                    &&& final(self).query_model() == old(self).query_model()
                    &&& final(self).mode_model() == old(self).mode_model()
                    &&& final(self).filtered_model() == old(self).filtered_model()
                    &&& final(self).selection_model() == if old(self).selection_model() + 1 < old(
                        self,
                    ).filtered_model().len() {
                        old(self).selection_model() + 1
                    } else {
                        old(self).selection_model()
                    }
                },
                Command::ToggleMode => {
                    &&& r is None
                    &&& final(self).query_model() == old(self).query_model()
                    &&& final(self).mode_model() == old(self).mode_model().toggled()
                    &&& final(self).selection_model() == clamp_spec(
                        old(self).selection_model(),
                        final(self).filtered_model().len() as int,
                    )
                },
                Command::Confirm => {
                    &&& *final(self) == *old(self)
                    &&& if old(self).filtered_model().len() == 0 {
                        r == Some(Outcome::NoSelection)
                    } else {
                        r matches Some(Outcome::Selected(line)) && line@ == old(
                            self,
                        ).lines_model()[old(self).filtered_model()[old(self).selection_model()]]
                    }
                },
                Command::Cancel => {
                    &&& *final(self) == *old(self)
                    &&& r == Some(Outcome::NoSelection)
                },
                Command::Ignore => {
                    &&& *final(self) == *old(self)
                    &&& r is None
                },
            },
    {
        match cmd {
            Command::AppendChar(c) => {
                self.query.push(c);
                self.refilter();
                None
            },
            Command::RemoveLastChar => {
                if !self.query.as_str().is_empty() {
                    let _ = self.query.pop();
                }
                self.refilter();
                None
            },
            Command::MoveUp => {
                if self.selection > 0 {
                    self.selection = self.selection - 1;
                }
                None
            },
            Command::MoveDown => {
                if self.filtered.len() > 0 && self.selection < self.filtered.len() - 1 {
                    self.selection = self.selection + 1;
                }
                None
            },
            Command::ToggleMode => {
                self.mode = match self.mode {
                    Mode::Literal => Mode::Pattern,
                    Mode::Pattern => Mode::Literal,
                };
                self.refilter();
                None
            },
            Command::Confirm => {
                if self.filtered.len() > 0 {
                    let idx = self.filtered[self.selection];
                    proof {
                        lemma_matching_indices_correct(
                            self.lines_model(),
                            self.query_model(),
                            self.mode_model(),
                        );
                        assert(self.filtered_model()[self.selection as int] == idx as int);
                    }
                    let line = self.lines[idx].clone();
                    Some(Outcome::Selected(line))
                } else {
                    Some(Outcome::NoSelection)
                }
            },
            Command::Cancel => Some(Outcome::NoSelection),
            Command::Ignore => None,
        }
    }

    /// The prompt line of the frame: the fixed prompt text followed by
    /// the query typed so far.
    pub fn prompt_row(&self) -> (r: String)
        ensures
            r@ == "QUERY> "@ + self.query_model(),
    {
        let mut r: String = "QUERY> ".to_owned();
        r.append(self.query.as_str());
        r
    }

    /// The rows of the frame below the prompt: the filtered lines in
    /// order, with exactly the selection row highlighted and padded to
    /// the surface width.
    pub fn render_rows(&self, width: usize) -> (rows: Vec<RenderRow>)
        requires
            self.wf(),
        ensures
            rows@.len() == self.filtered_model().len(),
            forall|i: int|
                0 <= i < rows@.len() ==> {
                    &&& (#[trigger] rows@[i]).highlighted == (i == self.selection_model())
                    &&& rows@[i].text@ == if i == self.selection_model() {
                        pad_spec(self.lines_model()[self.filtered_model()[i]], width as int)
                    } else {
                        self.lines_model()[self.filtered_model()[i]]
                    }
                },
    {
        let mut rows: Vec<RenderRow> = Vec::new();
        let mut i: usize = 0;
        while i < self.filtered.len()
            invariant
                self.wf(),
                0 <= i <= self.filtered.len(),
                self.filtered@.len() == self.filtered_model().len(),
                rows@.len() == i,
                forall|k: int|
                    0 <= k < i ==> {
                        &&& (#[trigger] rows@[k]).highlighted == (k == self.selection_model())
                        &&& rows@[k].text@ == if k == self.selection_model() {
                            pad_spec(self.lines_model()[self.filtered_model()[k]], width as int)
                        } else {
                            self.lines_model()[self.filtered_model()[k]]
                        }
                    },
            decreases self.filtered.len() - i,
        {
            proof {
                lemma_matching_indices_correct(
                    self.lines_model(),
                    self.query_model(),
                    self.mode_model(),
                );
                assert(self.filtered_model()[i as int] == self.filtered@[i as int] as int);
            }
            let idx = self.filtered[i];
            let highlighted = i == self.selection;
            let text = if highlighted {
                pad_to_width(self.lines[idx].as_str(), width)
            } else {
                self.lines[idx].clone()
            };
            rows.push(RenderRow { text, highlighted });
            i += 1;
        }
        rows
    }

    /// The query typed so far, for display after the prompt.
    pub fn query_str(&self) -> (r: &str)
        ensures
            r@ == self.query_model(),
    {
        self.query.as_str()
    }

    /// The active matching mode.
    pub fn mode(&self) -> (r: Mode)
        ensures
            r == self.mode_model(),
    {
        self.mode
    }

    /// How many lines the filtered set currently holds.
    pub fn filtered_len(&self) -> (r: usize)
        ensures
            r as int == self.filtered_model().len() as int,
    {
        self.filtered.len()
    }

    /// The selection cursor into the filtered set.
    pub fn selection(&self) -> (r: usize)
        ensures
            r as int == self.selection_model(),
    {
        self.selection
    }
}

impl Mode {
    /// The other mode: literal becomes pattern and pattern becomes
    /// literal.
    pub open spec fn toggled(self) -> Mode {
        match self {
            Mode::Literal => Mode::Pattern,
            Mode::Pattern => Mode::Literal,
        }
    }
}

} // verus!
