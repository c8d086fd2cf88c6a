//! The session and its navigation: which row is selected, whether the detail
//! popup is open, and how far the popup is scrolled.
//!
//! While the table has the focus, moving changes the selection and never
//! leaves the table's rows. Activating opens the popup only on a finding row.
//! While the popup is open, moving scrolls it, and activating or dismissing
//! closes it. Opening and closing both start the scroll offset at zero.

use vstd::prelude::*;
use crate::detail::{blocks_view, build_detail, detail_blocks, DisplayBlock};
use crate::rows::{
    finding_at, finding_rows_resolve, flat_rows, flatten, rows_view, table_opens_with_a_heading, Row,
};
use crate::trivy::{FindingView, ReportView, Trivy, Vulnerabilities};

verus! {

/// A key as the session tells keys apart.
#[derive(Debug, Clone, Copy, PartialEq, Eq, Structural)]
pub enum Key {
    Quit,
    Escape,
    Down,
    Up,
    Enter,
    Other,
}

/// What a key asks for.
#[derive(Debug, Clone, Copy, PartialEq, Eq, Structural)]
pub enum Input {
    MoveDown,
    MoveUp,
    ScrollDown,
    ScrollUp,
    Activate,
    Dismiss,
}

/// Whether the session goes on after an input.
#[derive(Debug, Clone, Copy, PartialEq, Eq, Structural)]
pub enum Outcome {
    Continue,
    Exit,
}

/// The row at which an unset selection starts: the one after the first
/// group's three heading rows.
pub const FIRST_SELECTION: usize = 3;

/// The largest scroll offset.
pub const SCROLL_LIMIT: u16 = 65535;

/// Mathematical value of a session.
pub struct Session {
    pub image_name: Seq<char>,
    pub report: ReportView,
    pub selected: Option<int>,
    pub popup_open: bool,
    pub scroll: int,
}

/// The session that is the focus of one run of the viewer.
pub struct App {
    selected: Option<usize>,
    image_name: String,
    trivy: Trivy,
    show_popup: bool,
    pop_scroll: u16,
}

/// The smaller of two integers.
pub open spec fn least(a: int, b: int) -> int {
    if a <= b {
        a
    } else {
        b
    }
}

/// The selection after a move down in a table of `rows` rows: one further,
/// from the starting row where none was selected, and never past the last
/// row. An empty table has no selection.
pub open spec fn moved_down(selected: Option<int>, rows: int) -> Option<int> {
    if rows <= 0 {
        None
    } else {
        match selected {
            Some(i) => Some(least(i + 1, rows - 1)),
            None => Some(least(FIRST_SELECTION as int, rows - 1)),
        }
    }
}

/// The selection after a move up in a table of `rows` rows: one back, from
/// the starting row where none was selected, never before the first row and
/// never past the last. An empty table has no selection.
pub open spec fn moved_up(selected: Option<int>, rows: int) -> Option<int> {
    if rows <= 0 {
        None
    } else {
        match selected {
            Some(i) => if i <= 0 {
                Some(0)
            } else {
                Some(least(i - 1, rows - 1))
            },
            None => Some(least(FIRST_SELECTION as int, rows - 1)),
        }
    }
}

/// The selection after a sequence of moves, `true` for down and `false` for
/// up.
pub open spec fn after_moves(selected: Option<int>, rows: int, moves: Seq<bool>) -> Option<int>
    decreases moves.len(),
{
    if moves.len() == 0 {
        selected
    } else {
        let before = after_moves(selected, rows, moves.drop_last());
        if moves.last() {
            moved_down(before, rows)
        } else {
            moved_up(before, rows)
        }
    }
}

/// Whether the selected row is a finding row.
pub open spec fn selects_finding(s: Session) -> bool {
    match s.selected {
        Some(i) => 0 <= i < flat_rows(s.report).len() && flat_rows(s.report)[i] is Finding,
        None => false,
    }
}

/// The finding under the selection, where the selected row is a finding row.
pub open spec fn selected_finding_of(s: Session) -> FindingView {
    let row = flat_rows(s.report)[s.selected.unwrap()];
    s.report.results[row->group].vulnerabilities.unwrap()[row->item]
}

/// What holds of every session that began with `App::new`: a selection is a
/// row of the table, the popup is open only on a finding row, and the scroll
/// offset is within its limit and zero while the popup is closed.
pub open spec fn session_ok(s: Session) -> bool {
    &&& match s.selected {
        Some(i) => 0 <= i < flat_rows(s.report).len(),
        None => true,
    }
    &&& s.popup_open ==> selects_finding(s)
    &&& 0 <= s.scroll <= SCROLL_LIMIT
    &&& !s.popup_open ==> s.scroll == 0
}

/// The input that a key stands for, by whether the popup is open.
pub open spec fn input_of(popup_open: bool, key: Key) -> Option<Input> {
    match key {
        Key::Quit => Some(Input::Dismiss),
        Key::Escape => Some(Input::Dismiss),
        Key::Down => Some(
            if popup_open {
                Input::ScrollDown
            } else {
                Input::MoveDown
            },
        ),
        Key::Up => Some(
            if popup_open {
                Input::ScrollUp
            } else {
                Input::MoveUp
            },
        ),
        Key::Enter => Some(Input::Activate),
        Key::Other => None,
    }
}

/// The session after an input.
pub open spec fn step(s: Session, input: Input) -> Session {
    let rows = flat_rows(s.report).len() as int;
    match input {
        Input::MoveDown => if s.popup_open {
            s
        } else {
            Session { selected: moved_down(s.selected, rows), ..s }
        },
        Input::MoveUp => if s.popup_open {
            s
        } else {
            Session { selected: moved_up(s.selected, rows), ..s }
        },
        Input::ScrollDown => if s.popup_open {
            Session { scroll: least(s.scroll + 1, SCROLL_LIMIT as int), ..s }
        } else {
            s
        },
        Input::ScrollUp => if s.popup_open && s.scroll > 0 {
            Session { scroll: s.scroll - 1, ..s }
        } else {
            s
        },
        Input::Activate => if s.popup_open {
            Session { popup_open: false, scroll: 0, ..s }
        } else if selects_finding(s) {
            Session { popup_open: true, scroll: 0, ..s }
        } else {
            s
        },
        Input::Dismiss => if s.popup_open {
            Session { popup_open: false, scroll: 0, ..s }
        } else {
            s
        },
    }
}

/// Whether the session ends with an input: only a dismissal while the table
/// has the focus ends it.
pub open spec fn outcome_of(s: Session, input: Input) -> Outcome {
    if input == Input::Dismiss && !s.popup_open {
        Outcome::Exit
    } else {
        Outcome::Continue
    }
}

/// The session after a key.
pub open spec fn after_key(s: Session, key: Key) -> Session {
    match input_of(s.popup_open, key) {
        Some(input) => step(s, input),
        None => s,
    }
}

/// Whether the session ends with a key.
pub open spec fn outcome_of_key(s: Session, key: Key) -> Outcome {
    match input_of(s.popup_open, key) {
        Some(input) => outcome_of(s, input),
        None => Outcome::Continue,
    }
}

/// The input that a key stands for, by whether the popup is open.
pub fn input_for(popup_open: bool, key: Key) -> (r: Option<Input>)
    ensures
        r == input_of(popup_open, key),
{
    match key {
        Key::Quit => Some(Input::Dismiss),
        Key::Escape => Some(Input::Dismiss),
        Key::Down => if popup_open {
            Some(Input::ScrollDown)
        } else {
            Some(Input::MoveDown)
        },
        Key::Up => if popup_open {
            Some(Input::ScrollUp)
        } else {
            Some(Input::MoveUp)
        },
        Key::Enter => Some(Input::Activate),
        Key::Other => None,
    }
}

impl View for App {
    type V = Session;

    closed spec fn view(&self) -> Session {
        Session {
            image_name: self.image_name@,
            report: self.trivy@,
            selected: match self.selected {
                Some(i) => Some(i as int),
                None => None,
            },
            popup_open: self.show_popup,
            scroll: self.pop_scroll as int,
        }
    }
}

impl App {
    /// A session on a report: nothing selected, the popup closed.
    pub fn new(image_name: String, trivy: Trivy) -> (app: App)
        ensures
            app@ == (Session {
                image_name: image_name@,
                report: trivy@,
                selected: None,
                popup_open: false,
                scroll: 0,
            }),
            session_ok(app@),
    {
        App { selected: None, image_name, trivy, show_popup: false, pop_scroll: 0 }
    }

    /// The image that was scanned.
    pub fn image_name(&self) -> (r: &String)
        ensures
            r@ == self@.image_name,
    {
        &self.image_name
    }

    /// The report that the session shows.
    pub fn trivy(&self) -> (r: &Trivy)
        ensures
            r@ == self@.report,
    {
        &self.trivy
    }

    /// The selected row, if any.
    pub fn selected(&self) -> (r: Option<usize>)
        ensures
            match r {
                Some(i) => self@.selected == Some(i as int),
                None => self@.selected.is_none(),
            },
    {
        self.selected
    }

    /// Whether the popup is open.
    pub fn show_popup(&self) -> (r: bool)
        ensures
            r == self@.popup_open,
    {
        self.show_popup
    }

    /// The popup's scroll offset.
    pub fn pop_scroll(&self) -> (r: u16)
        ensures
            r == self@.scroll,
    {
        self.pop_scroll
    }

    /// The table's rows.
    pub fn rows(&self) -> (rows: Vec<Row>)
        ensures
            rows_view(rows@) == flat_rows(self@.report),
    {
        flatten(&self.trivy)
    }

    /// Moves the selection one row down.
    pub fn next(&mut self)
        ensures
            final(self)@ == (Session {
                selected: moved_down(old(self)@.selected, flat_rows(old(self)@.report).len() as int),
                ..old(self)@
            }),
            match final(self)@.selected {
                Some(i) => 0 <= i < flat_rows(old(self)@.report).len(),
                None => flat_rows(old(self)@.report).len() == 0,
            },
    {
        let rows = flatten(&self.trivy);
        let n: usize = rows.len();
        assert(rows_view(rows@).len() == n);
        if n == 0 {
            self.selected = None;
        } else {
            let i: usize = match self.selected {
                Some(i) => if i >= n - 1 {
                    n - 1
                } else {
                    i + 1
                },
                None => if FIRST_SELECTION >= n - 1 {
                    n - 1
                } else {
                    FIRST_SELECTION
                },
            };
            self.selected = Some(i);
        }
    }

    /// Moves the selection one row up.
    pub fn previous(&mut self)
        ensures
            final(self)@ == (Session {
                selected: moved_up(old(self)@.selected, flat_rows(old(self)@.report).len() as int),
                ..old(self)@
            }),
            match final(self)@.selected {
                Some(i) => 0 <= i < flat_rows(old(self)@.report).len(),
                None => flat_rows(old(self)@.report).len() == 0,
            },
    {
        let rows = flatten(&self.trivy);
        let n: usize = rows.len();
        assert(rows_view(rows@).len() == n);
        if n == 0 {
            self.selected = None;
        } else {
            let i: usize = match self.selected {
                Some(i) => if i == 0 {
                    0
                } else if i - 1 >= n - 1 {
                    n - 1
                } else {
                    i - 1
                },
                None => if FIRST_SELECTION >= n - 1 {
                    n - 1
                } else {
                    FIRST_SELECTION
                },
            };
            self.selected = Some(i);
        }
    }

    /// The finding under the selection: the record of the selected row where
    /// that is a finding row, nothing on a spacer, on a header or without a
    /// selection.
    pub fn selected_finding(&self) -> (r: Option<&Vulnerabilities>)
        ensures
            match r {
                Some(f) => selects_finding(self@) && f@ == selected_finding_of(self@),
                None => !selects_finding(self@),
            },
    {
        let rows = flatten(&self.trivy);
        assert(rows_view(rows@).len() == rows.len());
        match self.selected {
            Some(i) => {
                if i < rows.len() {
                    assert(rows_view(rows@)[i as int] == rows[i as int]@);
                    proof {
                        finding_rows_resolve(
                            self.trivy@,
                            self.trivy@.results.len() as int,
                            i as int,
                        );
                    }
                    finding_at(&self.trivy, &rows[i])
                } else {
                    None
                }
            },
            None => None,
        }
    }

    /// The popup's content: the detail view of the selected finding while the
    /// popup is open on one, nothing otherwise.
    pub fn popup_detail(&self) -> (r: Option<Vec<DisplayBlock>>)
        ensures
            match r {
                Some(blocks) => self@.popup_open && selects_finding(self@) && blocks_view(blocks@)
                    == detail_blocks(selected_finding_of(self@)),
                None => !(self@.popup_open && selects_finding(self@)),
            },
    {
        if self.show_popup {
            match self.selected_finding() {
                Some(f) => Some(build_detail(f)),
                None => None,
            }
        } else {
            None
        }
    }

    /// Applies one input to the session and says whether the session goes on.
    pub fn handle(&mut self, input: Input) -> (outcome: Outcome)
        ensures
            final(self)@ == step(old(self)@, input),
            outcome == outcome_of(old(self)@, input),
            session_ok(old(self)@) ==> session_ok(final(self)@),
    {
        proof {
            step_keeps_session_ok(self@, input);
        }
        match input {
            Input::MoveDown => {
                if !self.show_popup {
                    self.next();
                }
                Outcome::Continue
            },
            Input::MoveUp => {
                if !self.show_popup {
                    self.previous();
                }
                Outcome::Continue
            },
            Input::ScrollDown => {
                if self.show_popup && self.pop_scroll < SCROLL_LIMIT {
                    self.pop_scroll = self.pop_scroll + 1;
                }
                Outcome::Continue
            },
            Input::ScrollUp => {
                if self.show_popup && self.pop_scroll > 0 {
                    self.pop_scroll = self.pop_scroll - 1;
                }
                Outcome::Continue
            },
            Input::Activate => {
                if self.show_popup {
                    self.show_popup = false;
                    self.pop_scroll = 0;
                } else if self.selected_finding().is_some() {
                    self.show_popup = true;
                    self.pop_scroll = 0;
                }
                Outcome::Continue
            },
            Input::Dismiss => {
                if self.show_popup {
                    self.show_popup = false;
                    self.pop_scroll = 0;
                    Outcome::Continue
                } else {
                    Outcome::Exit
                }
            },
        }
    }

    /// Applies one key to the session and says whether the session goes on.
    pub fn on_key(&mut self, key: Key) -> (outcome: Outcome)
        ensures
            final(self)@ == after_key(old(self)@, key),
            outcome == outcome_of_key(old(self)@, key),
            session_ok(old(self)@) ==> session_ok(final(self)@),
    {
        match input_for(self.show_popup, key) {
            Some(input) => self.handle(input),
            None => Outcome::Continue,
        }
    }
}

/// One move, down or up, leaves the selection on a row of a table that has
/// rows, and leaves an empty table without a selection, whatever was selected
/// before.
pub proof fn move_stays_in_table(selected: Option<int>, rows: int)
    requires
        selected is Some ==> selected.unwrap() >= 0,
    ensures
        rows > 0 ==> moved_down(selected, rows) is Some && 0 <= moved_down(selected, rows).unwrap()
            < rows,
        rows > 0 ==> moved_up(selected, rows) is Some && 0 <= moved_up(selected, rows).unwrap()
            < rows,
        rows <= 0 ==> moved_down(selected, rows).is_none() && moved_up(selected, rows).is_none(),
{
}

/// After any sequence of moves the selection is a row of the table, where the
/// table has rows; on an empty table nothing is ever selected. This holds
/// from no selection and from any selection that is a row of the table.
pub proof fn moves_stay_in_table(selected: Option<int>, rows: int, moves: Seq<bool>)
    requires
        selected is Some ==> 0 <= selected.unwrap() < rows,
    ensures
        after_moves(selected, rows, moves) is Some ==> 0 <= after_moves(
            selected,
            rows,
            moves,
        ).unwrap() < rows,
        rows <= 0 ==> after_moves(selected, rows, moves).is_none(),
        rows > 0 && moves.len() > 0 ==> after_moves(selected, rows, moves) is Some,
    decreases moves.len(),
{
    if moves.len() > 0 {
        moves_stay_in_table(selected, rows, moves.drop_last());
        move_stays_in_table(after_moves(selected, rows, moves.drop_last()), rows);
    }
}

/// The first move on a table that has rows selects a finding row, so the
/// popup can be opened right after it.
pub proof fn first_move_selects_a_finding(s: Session, down: bool)
    requires
        s.selected is None,
        !s.popup_open,
        flat_rows(s.report).len() > 0,
    ensures
        selects_finding(
            step(
                s,
                if down {
                    Input::MoveDown
                } else {
                    Input::MoveUp
                },
            ),
        ),
        step(
            s,
            if down {
                Input::MoveDown
            } else {
                Input::MoveUp
            },
        ).selected == Some(FIRST_SELECTION as int),
{
    table_opens_with_a_heading(s.report, s.report.results.len() as int);
}

/// Whenever an input opens or closes the popup, the scroll offset is zero
/// right after it.
pub proof fn popup_change_resets_scroll(s: Session, input: Input)
    ensures
        step(s, input).popup_open != s.popup_open ==> step(s, input).scroll == 0,
{
}

/// Every input keeps what holds of a session; the report and the image name
/// never change.
pub proof fn step_keeps_session_ok(s: Session, input: Input)
    ensures
        session_ok(s) ==> session_ok(step(s, input)),
        step(s, input).report == s.report,
        step(s, input).image_name == s.image_name,
{
}

} // verus!
