//! The mathematical model of a view: its state as plain values, and every
//! operation as a function from state to state.
//!
//! Rows are never read by the view itself. An operation that needs other
//! rows than the loaded ones leaves the state as it is and answers with a
//! pending reload; the state moves on when the rows are handed in.

use crate::control::{Control, CursorMove};
use crate::filter::{ColumnsFilterView, RowsFilterView};
use crate::row::project_rows;
use crate::selection::{SelectionDimensionView, SelectionView};
use regex::Regex;
use vstd::prelude::*;

verus! {

/// The rows to ask the data source for.
pub enum FetchView {
    /// `num_rows` consecutive rows starting at `rows_from`.
    Range { rows_from: nat, num_rows: nat },
    /// The rows at these absolute positions, in this order.
    Indices { indices: Seq<u64> },
}

/// The one part of the window description that a reload replaces.
pub enum ChangeView {
    /// The window is to start at this offset.
    RowsFrom(nat),
    /// The window is to hold this many rows.
    NumRows(nat),
    /// The row filter is to be this one, or none.
    Filter(Option<RowsFilterView>),
    /// The column filter is to be this one, or none.
    ColumnsFilter(Option<ColumnsFilterView>),
}

/// A reload that has been decided on and waits for its rows.
pub struct ReloadView {
    /// What the reload changes about the window.
    pub change: ChangeView,
    /// What the row cursor does once the rows are in.
    pub cursor: CursorMove,
}

/// The position of the first element of `s` that equals `x`.
pub open spec fn position_of(s: Seq<Seq<char>>, x: Seq<char>) -> Option<nat>
    decreases s.len(),
{
    if s.len() == 0 {
        None
    } else {
        match position_of(s.drop_last(), x) {
            Some(i) => Some(i),
            None => if s.last() == x {
                Some((s.len() - 1) as nat)
            } else {
                None
            },
        }
    }
}

/// `position_of` finds the first position that holds `x`, and finds none
/// only where no position holds it.
pub proof fn lemma_position_of(s: Seq<Seq<char>>, x: Seq<char>)
    ensures
        match position_of(s, x) {
            Some(i) => i < s.len() && s[i as int] == x && forall|j: int| 0 <= j < i ==> s[j] != x,
            None => forall|j: int| 0 <= j < s.len() ==> s[j] != x,
        },
    decreases s.len(),
{
    if s.len() > 0 {
        let front = s.drop_last();
        lemma_position_of(front, x);
        assert(forall|j: int| 0 <= j < front.len() ==> front[j] == s[j]);
    }
}

/// The state of a view.
pub struct ViewState {
    /// The headers of all columns, as the data source names them.
    pub source_headers: Seq<Seq<char>>,
    /// The exact number of rows in the data source, once it is known.
    pub total_line_numbers: Option<nat>,
    /// An estimate of the number of rows, for as long as the count runs.
    pub total_line_numbers_approx: Option<nat>,
    /// The loaded rows, already narrowed to the filtered columns.
    pub rows: Seq<Seq<Seq<char>>>,
    /// The size of the window.
    pub num_rows: nat,
    /// The absolute position at which the window starts.
    pub rows_from: nat,
    /// The row filter, if a search has set one.
    pub filter: Option<RowsFilterView>,
    /// The column filter, if a pattern has set one.
    pub columns_filter: Option<ColumnsFilterView>,
    /// The row cursor and the column cursor.
    pub selection: SelectionView,
    /// How long the last reload took.
    pub elapsed: Option<nat>,
}

impl ViewState {
    /// Both cursors and the column filter are well formed.
    pub open spec fn wf(self) -> bool {
        &&& self.selection.wf()
        &&& self.columns_filter matches Some(columns_filter) ==> columns_filter.wf()
    }

    /// A fresh view over the first rows of a data source.
    pub open spec fn initial(
        source_headers: Seq<Seq<char>>,
        rows: Seq<Seq<Seq<char>>>,
        num_rows: nat,
    ) -> Self {
        ViewState {
            source_headers,
            total_line_numbers: None,
            total_line_numbers_approx: None,
            rows,
            num_rows,
            rows_from: 0,
            filter: None,
            columns_filter: None,
            selection: SelectionView::initial(num_rows),
            elapsed: None,
        }
    }

    /// The headers on display: the filtered ones under a column filter.
    pub open spec fn headers(self) -> Seq<Seq<char>> {
        match self.columns_filter {
            Some(columns_filter) => columns_filter.filtered_headers,
            None => self.source_headers,
        }
    }

    /// The number of rows that can be scrolled through: the matches under a
    /// row filter, else the exact count of the data source, else its estimate.
    pub open spec fn get_total(self) -> Option<nat> {
        match self.filter {
            Some(filter) => Some(filter.total),
            None => match self.total_line_numbers {
                Some(n) => Some(n),
                None => self.total_line_numbers_approx,
            },
        }
    }

    /// The highest offset at which the window is still full.
    pub open spec fn bottom_rows_from(self) -> Option<nat> {
        match self.get_total() {
            Some(total) => Some(
                if total >= self.num_rows {
                    (total - self.num_rows) as nat
                } else {
                    0
                },
            ),
            None => None,
        }
    }

    /// `rows_from` kept from passing the highest offset, where one is known.
    pub open spec fn clamp_rows_from(self, rows_from: nat) -> nat {
        match self.bottom_rows_from() {
            Some(bottom) => if rows_from <= bottom {
                rows_from
            } else {
                bottom
            },
            None => rows_from,
        }
    }

    /// The offset `delta` rows further down, as far as offsets go.
    pub open spec fn rows_from_plus(self, delta: nat) -> nat {
        if self.rows_from + delta <= u64::MAX {
            self.rows_from + delta
        } else {
            u64::MAX as nat
        }
    }

    /// The offset `delta` rows further up, or the top.
    pub open spec fn rows_from_minus(self, delta: nat) -> nat {
        if self.rows_from >= delta {
            (self.rows_from - delta) as nat
        } else {
            0
        }
    }

    /// The absolute position of the selected row.
    pub open spec fn selected_offset(self) -> Option<nat> {
        match self.selection.row.index {
            Some(i) => Some(
                if i + self.rows_from <= u64::MAX {
                    i + self.rows_from
                } else {
                    u64::MAX as nat
                },
            ),
            None => None,
        }
    }

    /// Whether the row at this absolute position lies in the window.
    pub open spec fn in_view(self, row_index: nat) -> bool {
        self.rows_from <= row_index < self.rows_from + self.num_rows
    }

    /// The field of the selected row under the first header on display that
    /// reads `column_name`.
    pub open spec fn cell_value(self, column_name: Seq<char>) -> Option<Seq<char>> {
        match (position_of(self.headers(), column_name), self.selection.row.index) {
            (Some(column), Some(row)) => if row < self.rows.len() && column
                < self.rows[row as int].len() {
                Some(self.rows[row as int][column as int])
            } else {
                None
            },
            _ => None,
        }
    }

    /// The rows that the window description asks for: those of the row
    /// filter where there is one, else the window's range.
    pub open spec fn fetch(self) -> FetchView {
        match self.filter {
            Some(filter) => FetchView::Indices { indices: filter.indices },
            None => FetchView::Range { rows_from: self.rows_from, num_rows: self.num_rows },
        }
    }

    /// The state with one part of the window description replaced.
    pub open spec fn apply(self, change: ChangeView) -> Self {
        match change {
            ChangeView::RowsFrom(rows_from) => ViewState { rows_from, ..self },
            ChangeView::NumRows(num_rows) => ViewState { num_rows, ..self },
            ChangeView::Filter(filter) => ViewState { filter, ..self },
            ChangeView::ColumnsFilter(columns_filter) => ViewState { columns_filter, ..self },
        }
    }

    /// The state once freshly read rows have replaced the loaded ones: the
    /// rows are narrowed to the filtered columns, and both cursors are
    /// brought back under the new numbers of rows and of columns.
    pub open spec fn load(self, rows: Seq<Seq<Seq<char>>>, elapsed: nat) -> Self {
        let shown = match self.columns_filter {
            Some(columns_filter) => project_rows(rows, columns_filter.indices),
            None => rows,
        };
        ViewState {
            rows: shown,
            elapsed: Some(elapsed),
            selection: SelectionView {
                row: self.selection.row.set_bound(shown.len()),
                column: if shown.len() > 0 {
                    self.selection.column.set_bound(shown[0].len())
                } else {
                    self.selection.column
                },
            },
            ..self
        }
    }

    /// The state after the row cursor has made the given move.
    pub open spec fn move_cursor(self, cursor: CursorMove) -> Self {
        let row = match cursor {
            CursorMove::Stay => self.selection.row,
            CursorMove::First => self.selection.row.select_first(),
            CursorMove::Last => self.selection.row.select_last(),
        };
        ViewState { selection: SelectionView { row, column: self.selection.column }, ..self }
    }

    /// The state with another row cursor.
    pub open spec fn with_row(self, row: SelectionDimensionView) -> Self {
        ViewState { selection: SelectionView { row, column: self.selection.column }, ..self }
    }

    /// The state once a pending reload has received its rows.
    pub open spec fn complete(self, reload: ReloadView, rows: Seq<Seq<Seq<char>>>, elapsed: nat)
        -> Self {
        self.apply(reload.change).load(rows, elapsed).move_cursor(reload.cursor)
    }

    /// The reload that a window of another size calls for; none if the
    /// window has that size.
    pub open spec fn set_num_rows(self, num_rows: nat) -> Option<ReloadView> {
        if num_rows == self.num_rows {
            None
        } else {
            Some(ReloadView { change: ChangeView::NumRows(num_rows), cursor: CursorMove::Stay })
        }
    }

    /// Whether rows must be read anew when `filter` takes the place of the
    /// present row filter: unless both show the same rows.
    pub open spec fn filter_needs_reload(self, filter: RowsFilterView) -> bool {
        match self.filter {
            Some(current) => current.indices != filter.indices,
            None => true,
        }
    }

    /// The state right after `filter` was handed in: in place at once where
    /// it shows the same rows as the present one, else unchanged.
    pub open spec fn set_filter_now(self, filter: RowsFilterView) -> Self {
        if self.filter_needs_reload(filter) {
            self
        } else {
            ViewState { filter: Some(filter), ..self }
        }
    }

    /// The reload that `filter` calls for, if it shows other rows than the
    /// present one.
    pub open spec fn set_filter(self, filter: RowsFilterView) -> Option<ReloadView> {
        if self.filter_needs_reload(filter) {
            Some(
                ReloadView {
                    change: ChangeView::Filter(Some(filter)),
                    cursor: CursorMove::Stay,
                },
            )
        } else {
            None
        }
    }

    /// The reload that lifts the row filter; none if no filter is set.
    pub open spec fn reset_filter(self) -> Option<ReloadView> {
        match self.filter {
            Some(_) => Some(
                ReloadView { change: ChangeView::Filter(None), cursor: CursorMove::Stay },
            ),
            None => None,
        }
    }

    /// The reload that narrows the columns to those whose header the pattern
    /// matches among the headers of the data source.
    pub open spec fn set_columns_filter(self, pattern: Regex) -> ReloadView {
        ReloadView {
            change: ChangeView::ColumnsFilter(
                Some(ColumnsFilterView::of(pattern, self.source_headers)),
            ),
            cursor: CursorMove::Stay,
        }
    }

    /// The reload that lifts the column filter.
    pub open spec fn reset_columns_filter(self) -> ReloadView {
        ReloadView { change: ChangeView::ColumnsFilter(None), cursor: CursorMove::Stay }
    }

    /// The reload that moves the window to `rows_from`, clamped; none if the
    /// window starts there already.
    pub open spec fn set_rows_from(self, rows_from: nat) -> Option<ReloadView> {
        let target = self.clamp_rows_from(rows_from);
        if target == self.rows_from {
            None
        } else {
            Some(ReloadView { change: ChangeView::RowsFrom(target), cursor: CursorMove::Stay })
        }
    }

    /// The offset that a command moves the window to and what it does to the
    /// row cursor afterwards; `None` for a command that leaves the window alone.
    pub open spec fn destination(self, control: Control) -> Option<(nat, CursorMove)> {
        match control {
            Control::ScrollDown => match self.selection.row.index {
                Some(i) => if i + 1 == self.num_rows {
                    Some((self.rows_from_plus(1), CursorMove::Stay))
                } else {
                    None
                },
                None => Some((self.rows_from_plus(1), CursorMove::Stay)),
            },
            Control::ScrollUp => match self.selection.row.index {
                Some(i) => if i == 0 {
                    Some((self.rows_from_minus(1), CursorMove::Stay))
                } else {
                    None
                },
                None => Some((self.rows_from_minus(1), CursorMove::Stay)),
            },
            Control::ScrollPageDown => Some((self.rows_from_plus(self.num_rows), CursorMove::First)),
            Control::ScrollPageUp => Some((self.rows_from_minus(self.num_rows), CursorMove::First)),
            Control::ScrollTop => Some((0, CursorMove::First)),
            Control::ScrollBottom => match self.bottom_rows_from() {
                Some(bottom) => Some((bottom, CursorMove::Last)),
                None => Some((self.rows_from, CursorMove::Last)),
            },
            Control::ScrollTo(n) => Some(
                (
                    if n == 0 {
                        0
                    } else {
                        (n - 1) as nat
                    },
                    CursorMove::First,
                ),
            ),
            Control::Other => None,
        }
    }

    /// The reload that a command calls for, if it moves the window.
    pub open spec fn handle_control(self, control: Control) -> Option<ReloadView> {
        match self.destination(control) {
            Some((rows_from, cursor)) => {
                let target = self.clamp_rows_from(rows_from);
                if target == self.rows_from {
                    None
                } else {
                    Some(ReloadView { change: ChangeView::RowsFrom(target), cursor })
                }
            },
            None => None,
        }
    }

    /// The state right after a command: the cursor has moved where the
    /// window stays; where the window moves, nothing has changed yet.
    pub open spec fn handle_control_now(self, control: Control) -> Self {
        match self.destination(control) {
            Some((rows_from, cursor)) => if self.clamp_rows_from(rows_from) == self.rows_from {
                self.move_cursor(cursor)
            } else {
                self
            },
            None => match control {
                Control::ScrollDown => self.with_row(self.selection.row.select_next()),
                Control::ScrollUp => self.with_row(self.selection.row.select_previous()),
                _ => self,
            },
        }
    }
}

} // verus!
