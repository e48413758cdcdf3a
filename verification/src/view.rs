//! The view itself: the window, the loaded rows, the filters and the
//! selection, and the commands that move them.

use crate::control::{Control, CursorMove};
use crate::filter::{ColumnsFilter, ColumnsFilterView, RowsFilter, RowsFilterView};
use crate::row::{project_rows, Row};
use crate::selection::Selection;
use crate::state::{lemma_position_of, position_of, ChangeView, FetchView, ReloadView, ViewState};
use regex::Regex;
use vstd::prelude::*;

verus! {

/// The rows to ask the data source for.
#[derive(Clone, Debug, PartialEq, Eq)]
pub enum Fetch {
    /// `num_rows` consecutive rows starting at `rows_from`.
    Range { rows_from: u64, num_rows: u64 },
    /// The rows at these absolute positions, in this order.
    Indices { indices: Vec<u64> },
}

impl View for Fetch {
    type V = FetchView;

    open spec fn view(&self) -> FetchView {
        match self {
            Fetch::Range { rows_from, num_rows } => FetchView::Range {
                rows_from: *rows_from as nat,
                num_rows: *num_rows as nat,
            },
            Fetch::Indices { indices } => FetchView::Indices { indices: indices@ },
        }
    }
}

/// The one part of the window description that a reload replaces.
#[derive(Debug)]
enum Change {
    RowsFrom(u64),
    NumRows(u64),
    Filter(Option<RowsFilter>),
    ColumnsFilter(Option<ColumnsFilter>),
}

/// A reload that a view has decided on and that waits for its rows.
///
/// The view that issued it is unchanged until [`RowsView::complete`] hands
/// the rows in. A reload whose rows could not be read is simply dropped.
#[derive(Debug)]
pub struct Reload {
    change: Change,
    cursor: CursorMove,
}

impl View for Reload {
    type V = ReloadView;

    closed spec fn view(&self) -> ReloadView {
        ReloadView {
            change: match self.change {
                Change::RowsFrom(rows_from) => ChangeView::RowsFrom(rows_from as nat),
                Change::NumRows(num_rows) => ChangeView::NumRows(num_rows as nat),
                Change::Filter(filter) => ChangeView::Filter(filter.deep_view()),
                Change::ColumnsFilter(columns_filter) => ChangeView::ColumnsFilter(
                    columns_filter.deep_view(),
                ),
            },
            cursor: self.cursor,
        }
    }
}

impl DeepView for Reload {
    type V = ReloadView;

    open spec fn deep_view(&self) -> ReloadView {
        self.view()
    }
}

/// The window onto a table: which rows are loaded, through which filters
/// they are seen, and where the cursor stands.
pub struct RowsView {
    headers: Vec<String>,
    total_line_numbers: Option<usize>,
    total_line_numbers_approx: Option<usize>,
    rows: Vec<Row>,
    num_rows: u64,
    rows_from: u64,
    filter: Option<RowsFilter>,
    columns_filter: Option<ColumnsFilter>,
    selection: Selection,
    elapsed: Option<u128>,
}

/// An optional count as an optional natural number.
pub open spec fn count_view(n: Option<usize>) -> Option<nat> {
    match n {
        Some(n) => Some(n as nat),
        None => None,
    }
}

impl View for RowsView {
    type V = ViewState;

    closed spec fn view(&self) -> ViewState {
        ViewState {
            source_headers: self.headers.deep_view(),
            total_line_numbers: count_view(self.total_line_numbers),
            total_line_numbers_approx: count_view(self.total_line_numbers_approx),
            rows: self.rows.deep_view(),
            num_rows: self.num_rows as nat,
            rows_from: self.rows_from as nat,
            filter: self.filter.deep_view(),
            columns_filter: self.columns_filter.deep_view(),
            selection: self.selection@,
            elapsed: match self.elapsed {
                Some(t) => Some(t as nat),
                None => None,
            },
        }
    }
}

/// The position of the first header that reads `name`.
fn position(headers: &Vec<String>, name: &String) -> (found: Option<usize>)
    ensures
        count_view(found) == position_of(headers.deep_view(), name@),
        found matches Some(i) ==> i < headers@.len(),
{
    let mut i: usize = 0;
    while i < headers.len()
        invariant
            i <= headers@.len(),
            forall|j: int| 0 <= j < i ==> headers.deep_view()[j] != name@,
        decreases headers@.len() - i,
    {
        if headers[i] == *name {
            proof {
                let texts = headers.deep_view();
                lemma_position_of(texts, name@);
                assert(texts[i as int] == name@);
                let first = position_of(texts, name@)->0;
                assert(first <= i) by {
                    if first > i {
                        assert(texts[i as int] != name@);
                    }
                }
                assert(first >= i) by {
                    if first < i {
                        assert(texts[first as int] != name@);
                    }
                }
            }
            return Some(i);
        }
        i += 1;
    }
    proof {
        lemma_position_of(headers.deep_view(), name@);
    }
    None
}

impl RowsView {
    /// A view of `num_rows` rows over the start of a data source with these
    /// headers, of which `rows` are the first ones. The first row is
    /// selected; no filter is set; the number of rows is not yet known.
    pub fn new(headers: Vec<String>, rows: Vec<Row>, num_rows: u64) -> (view: RowsView)
        ensures
            view@ == ViewState::initial(headers.deep_view(), rows.deep_view(), num_rows as nat),
    {
        RowsView {
            headers,
            total_line_numbers: None,
            total_line_numbers_approx: None,
            rows,
            num_rows,
            rows_from: 0,
            filter: None,
            columns_filter: None,
            selection: Selection::default(num_rows),
            elapsed: None,
        }
    }

    /// The row cursor and the column cursor.
    pub fn selection(&self) -> (selection: &Selection)
        ensures
            selection@ == self@.selection,
            selection@.wf(),
    {
        proof {
            use_type_invariant(&self.selection.row);
            use_type_invariant(&self.selection.column);
        }
        &self.selection
    }

    /// The two cursors, for the caller to move. Whatever the caller does to
    /// them is part of the view's state afterwards; nothing else changes.
    pub fn selection_mut(&mut self) -> (selection: &mut Selection)
        ensures
            selection@ == old(self)@.selection,
            final(self)@ == (ViewState { selection: final(selection)@, ..old(self)@ }),
    {
        &mut self.selection
    }

    /// The headers on display: the filtered ones under a column filter,
    /// else those of the data source.
    pub fn headers(&self) -> (headers: &Vec<String>)
        ensures
            headers.deep_view() == self@.headers(),
    {
        match &self.columns_filter {
            Some(columns_filter) => columns_filter.filtered_headers(),
            None => &self.headers,
        }
    }

    /// The loaded rows, narrowed to the filtered columns.
    pub fn rows(&self) -> (rows: &Vec<Row>)
        ensures
            rows.deep_view() == self@.rows,
    {
        &self.rows
    }

    /// The field of the selected row in the column whose header on display
    /// reads `column_name`; nothing if there is no such column, no selected
    /// row, or no such field in the row.
    pub fn get_cell_value(&self, column_name: &str) -> (value: Option<String>)
        ensures
            value.deep_view() == self@.cell_value(column_name@),
    {
        let name = column_name.to_owned();
        let column = position(self.headers(), &name);
        match (column, self.selection.row.index()) {
            (Some(column), Some(row)) => {
                if row < self.rows.len() as u64 {
                    let fields = &self.rows[row as usize].fields;
                    if column < fields.len() {
                        Some(fields[column].clone())
                    } else {
                        None
                    }
                } else {
                    None
                }
            },
            _ => None,
        }
    }

    /// The size of the window.
    pub fn num_rows(&self) -> (num_rows: u64)
        ensures
            num_rows == self@.num_rows,
    {
        self.num_rows
    }

    /// The absolute position at which the window starts.
    pub fn rows_from(&self) -> (rows_from: u64)
        ensures
            rows_from == self@.rows_from,
    {
        self.rows_from
    }

    /// Whether a row filter is set.
    pub fn is_filter(&self) -> (set: bool)
        ensures
            set == self@.filter is Some,
    {
        self.filter.is_some()
    }

    /// The column filter, if one is set.
    pub fn columns_filter(&self) -> (columns_filter: Option<&ColumnsFilter>)
        ensures
            columns_filter.deep_view() == self@.columns_filter,
            self@.columns_filter matches Some(filter) ==> filter.wf(),
    {
        proof {
            if let Some(columns_filter) = &self.columns_filter {
                use_type_invariant(columns_filter);
            }
        }
        self.columns_filter.as_ref()
    }

    /// How long the last reload took, as its caller measured it.
    pub fn elapsed(&self) -> (elapsed: Option<u128>)
        ensures
            self@.elapsed == match elapsed {
                Some(t) => Some(t as nat),
                None => None,
            },
    {
        self.elapsed
    }

    /// The exact number of rows in the data source, if the view was told.
    pub fn get_total_line_numbers(&self) -> (n: Option<usize>)
        ensures
            count_view(n) == self@.total_line_numbers,
    {
        self.total_line_numbers
    }

    /// The estimated number of rows in the data source, if the view was told.
    pub fn get_total_line_numbers_approx(&self) -> (n: Option<usize>)
        ensures
            count_view(n) == self@.total_line_numbers_approx,
    {
        self.total_line_numbers_approx
    }

    /// Takes note of the exact number of rows in the data source.
    pub fn set_total_line_numbers(&mut self, n: Option<usize>)
        ensures
            final(self)@ == (ViewState { total_line_numbers: count_view(n), ..old(self)@ }),
    {
        self.total_line_numbers = n;
    }

    /// Takes note of an estimate of the number of rows in the data source.
    pub fn set_total_line_numbers_approx(&mut self, n: Option<usize>)
        ensures
            final(self)@ == (ViewState { total_line_numbers_approx: count_view(n), ..old(self)@ }),
    {
        self.total_line_numbers_approx = n;
    }

    /// The number of rows that can be scrolled through: the matches under a
    /// row filter, else the exact count of the data source, else its
    /// estimate, else nothing.
    pub fn get_total(&self) -> (total: Option<usize>)
        ensures
            count_view(total) == self@.get_total(),
    {
        match &self.filter {
            Some(filter) => Some(filter.total()),
            None => match self.total_line_numbers {
                Some(n) => Some(n),
                None => self.total_line_numbers_approx,
            },
        }
    }

    /// The highest offset at which the window is still full, where the
    /// number of rows is known.
    pub fn bottom_rows_from(&self) -> (bottom: Option<u64>)
        ensures
            self@.bottom_rows_from() == match bottom {
                Some(n) => Some(n as nat),
                None => None,
            },
    {
        match self.get_total() {
            Some(total) => Some((total as u64).saturating_sub(self.num_rows)),
            None => None,
        }
    }

    /// The absolute position of the selected row, if one is selected.
    pub fn selected_offset(&self) -> (offset: Option<u64>)
        ensures
            self@.selected_offset() == match offset {
                Some(n) => Some(n as nat),
                None => None,
            },
    {
        match self.selection.row.index() {
            Some(i) => Some(i.saturating_add(self.rows_from)),
            None => None,
        }
    }

    /// Whether the row at this absolute position lies in the window.
    pub fn in_view(&self, row_index: u64) -> (inside: bool)
        ensures
            inside == self@.in_view(row_index as nat),
            inside == (self@.rows_from <= row_index < self@.rows_from + self@.num_rows),
    {
        row_index >= self.rows_from && row_index - self.rows_from < self.num_rows
    }

    /// Asks for a window of another size. Nothing to do if it is the size
    /// the window has.
    #[must_use]
    pub fn set_num_rows(&self, num_rows: u64) -> (reload: Option<Reload>)
        ensures
            reload.deep_view() == self@.set_num_rows(num_rows as nat),
    {
        if num_rows == self.num_rows {
            return None;
        }
        Some(Reload { change: Change::NumRows(num_rows), cursor: CursorMove::Stay })
    }

    /// Hands in the latest outcome of the search. The new filter is in
    /// place at once if it shows the same rows as the one before, so that
    /// its total is current without any row being read again. If it shows
    /// other rows, or there was no filter before, it comes into force with
    /// the reload.
    #[must_use]
    pub fn set_filter(&mut self, filter: RowsFilter) -> (reload: Option<Reload>)
        ensures
            reload.deep_view() == old(self)@.set_filter(filter@),
            final(self)@ == old(self)@.set_filter_now(filter@),
            reload is Some ==> final(self)@ == old(self)@,
            reload is None ==> final(self)@.rows == old(self)@.rows && final(self)@.get_total()
                == Some(filter@.total),
    {
        let needs_reload = match &self.filter {
            Some(current) => !current.same_indices(&filter),
            None => true,
        };
        if needs_reload {
            Some(Reload { change: Change::Filter(Some(filter)), cursor: CursorMove::Stay })
        } else {
            self.filter = Some(filter);
            None
        }
    }

    /// Asks for the row filter to be lifted. Nothing to do if none is set.
    #[must_use]
    pub fn reset_filter(&self) -> (reload: Option<Reload>)
        ensures
            reload.deep_view() == self@.reset_filter(),
    {
        if !self.is_filter() {
            return None;
        }
        Some(Reload { change: Change::Filter(None), cursor: CursorMove::Stay })
    }

    /// Asks for the columns to be narrowed to those whose header the pattern
    /// matches. The rows are always read again.
    #[must_use]
    pub fn set_columns_filter(&self, target: Regex) -> (reload: Reload)
        ensures
            reload@ == self@.set_columns_filter(target),
    {
        let headers = self.headers.as_slice();
        assert(headers.deep_view() =~= self.headers.deep_view());
        let columns_filter = ColumnsFilter::new(target, headers);
        Reload {
            change: Change::ColumnsFilter(Some(columns_filter)),
            cursor: CursorMove::Stay,
        }
    }

    /// Asks for the column filter to be lifted. The rows are always read
    /// again.
    #[must_use]
    pub fn reset_columns_filter(&self) -> (reload: Reload)
        ensures
            reload@ == self@.reset_columns_filter(),
    {
        Reload { change: Change::ColumnsFilter(None), cursor: CursorMove::Stay }
    }

    /// Asks for the window to start at `rows_from`, or at the highest offset
    /// that still fills it if `rows_from` lies beyond. Nothing to do if the
    /// window starts there already.
    #[must_use]
    pub fn set_rows_from(&self, rows_from: u64) -> (reload: Option<Reload>)
        ensures
            reload.deep_view() == self@.set_rows_from(rows_from as nat),
    {
        let target: u64 = match self.bottom_rows_from() {
            Some(bottom) => if rows_from <= bottom {
                rows_from
            } else {
                bottom
            },
            None => rows_from,
        };
        if target == self.rows_from {
            return None;
        }
        Some(Reload { change: Change::RowsFrom(target), cursor: CursorMove::Stay })
    }

    fn increase_rows_from(&self, delta: u64) -> (reload: Option<Reload>)
        ensures
            reload.deep_view() == self@.set_rows_from(self@.rows_from_plus(delta as nat)),
    {
        self.set_rows_from(self.rows_from.saturating_add(delta))
    }

    fn decrease_rows_from(&self, delta: u64) -> (reload: Option<Reload>)
        ensures
            reload.deep_view() == self@.set_rows_from(self@.rows_from_minus(delta as nat)),
    {
        self.set_rows_from(self.rows_from.saturating_sub(delta))
    }

    fn move_cursor(&mut self, cursor: CursorMove)
        ensures
            final(self)@ == old(self)@.move_cursor(cursor),
    {
        match cursor {
            CursorMove::Stay => {},
            CursorMove::First => self.selection.row.select_first(),
            CursorMove::Last => self.selection.row.select_last(),
        }
    }

    /// Moves the cursor now if the window stays where it is; else leaves
    /// the move to the reload.
    fn with_cursor(&mut self, reload: Option<Reload>, cursor: CursorMove) -> (next: Option<Reload>)
        ensures
            next.deep_view() == match reload.deep_view() {
                Some(r) => Some(ReloadView { change: r.change, cursor }),
                None => None,
            },
            final(self)@ == match reload {
                Some(_) => old(self)@,
                None => old(self)@.move_cursor(cursor),
            },
    {
        match reload {
            Some(reload) => Some(Reload { change: reload.change, cursor }),
            None => {
                self.move_cursor(cursor);
                None
            },
        }
    }

    /// Carries out a navigation command.
    ///
    /// A command that keeps the window in place takes effect at once. One
    /// that moves the window answers with the reload to make, and changes
    /// nothing until the reload is completed.
    #[must_use]
    pub fn handle_control(&mut self, control: &Control) -> (reload: Option<Reload>)
        ensures
            reload.deep_view() == old(self)@.handle_control(*control),
            final(self)@ == old(self)@.handle_control_now(*control),
            reload is Some ==> final(self)@ == old(self)@,
    {
        match control {
            Control::ScrollDown => {
                if let Some(i) = self.selection.row.index() {
                    if self.num_rows > 0 && i == self.num_rows - 1 {
                        let reload = self.increase_rows_from(1);
                        self.with_cursor(reload, CursorMove::Stay)
                    } else {
                        self.selection.row.select_next();
                        None
                    }
                } else {
                    let reload = self.increase_rows_from(1);
                    self.with_cursor(reload, CursorMove::Stay)
                }
            },
            Control::ScrollPageDown => {
                let reload = self.increase_rows_from(self.num_rows);
                self.with_cursor(reload, CursorMove::First)
            },
            Control::ScrollUp => {
                if let Some(i) = self.selection.row.index() {
                    if i == 0 {
                        let reload = self.decrease_rows_from(1);
                        self.with_cursor(reload, CursorMove::Stay)
                    } else {
                        self.selection.row.select_previous();
                        None
                    }
                } else {
                    let reload = self.decrease_rows_from(1);
                    self.with_cursor(reload, CursorMove::Stay)
                }
            },
            Control::ScrollPageUp => {
                let reload = self.decrease_rows_from(self.num_rows);
                self.with_cursor(reload, CursorMove::First)
            },
            Control::ScrollTop => {
                let reload = self.set_rows_from(0);
                self.with_cursor(reload, CursorMove::First)
            },
            Control::ScrollBottom => {
                let reload = match self.bottom_rows_from() {
                    Some(bottom) => self.set_rows_from(bottom),
                    None => None,
                };
                self.with_cursor(reload, CursorMove::Last)
            },
            Control::ScrollTo(n) => {
                let reload = self.set_rows_from(n.saturating_sub(1) as u64);
                self.with_cursor(reload, CursorMove::First)
            },
            Control::Other => None,
        }
    }

    /// The rows to read for a pending reload.
    pub fn fetch(&self, reload: &Reload) -> (fetch: Fetch)
        ensures
            fetch@ == self@.apply(reload@.change).fetch(),
    {
        let filter = match &reload.change {
            Change::Filter(filter) => filter.as_ref(),
            _ => self.filter.as_ref(),
        };
        match filter {
            Some(filter) => Fetch::Indices { indices: filter.indices().clone() },
            None => Fetch::Range {
                rows_from: match &reload.change {
                    Change::RowsFrom(rows_from) => *rows_from,
                    _ => self.rows_from,
                },
                num_rows: match &reload.change {
                    Change::NumRows(num_rows) => *num_rows,
                    _ => self.num_rows,
                },
            },
        }
    }

    fn subset_columns(rows: &Vec<Row>, indices: &[usize]) -> (narrowed: Vec<Row>)
        ensures
            narrowed.deep_view() == project_rows(rows.deep_view(), indices@),
    {
        let ghost narrow = |fields: Seq<Seq<char>>| crate::row::project(fields, indices@);
        let mut out: Vec<Row> = Vec::new();
        let mut k: usize = 0;
        while k < rows.len()
            invariant
                k <= rows@.len(),
                narrow == |fields: Seq<Seq<char>>| crate::row::project(fields, indices@),
                out.deep_view() == rows.deep_view().take(k as int).map_values(narrow),
            decreases rows@.len() - k,
        {
            let row = rows[k].subset(indices);
            proof {
                let before = rows.deep_view().take(k as int);
                assert(rows.deep_view().take(k + 1) =~= before.push(rows@[k as int]@));
                before.lemma_push_map_commute(narrow, rows@[k as int]@);
            }
            let ghost earlier = out.deep_view();
            out.push(row);
            assert(out.deep_view() =~= earlier.push(row@));
            k += 1;
        }
        proof {
            assert(rows.deep_view().take(k as int) =~= rows.deep_view());
        }
        out
    }

    /// Puts freshly read rows in the place of the loaded ones.
    fn do_get_rows(&mut self, rows: Vec<Row>, elapsed: u128)
        ensures
            final(self)@ == old(self)@.load(rows.deep_view(), elapsed as nat),
    {
        let rows = match &self.columns_filter {
            Some(columns_filter) => Self::subset_columns(&rows, columns_filter.indices().as_slice()),
            None => rows,
        };
        self.rows = rows;
        self.elapsed = Some(elapsed);
        self.selection.row.set_bound(self.rows.len() as u64);
        if self.rows.len() > 0 {
            self.selection.column.set_bound(self.rows[0].fields.len() as u64);
        }
    }

    /// Completes a pending reload with the rows that were read for it and
    /// the time, in microseconds, that reading them took.
    ///
    /// The pending change to the window comes into force, the rows are
    /// narrowed to the filtered columns and replace the loaded ones, both
    /// cursors are brought back under the new bounds, and the row cursor
    /// makes the move that the command asked for.
    pub fn complete(&mut self, reload: Reload, rows: Vec<Row>, elapsed: u128)
        ensures
            final(self)@ == old(self)@.complete(reload@, rows.deep_view(), elapsed as nat),
    {
        let Reload { change, cursor } = reload;
        match change {
            Change::RowsFrom(rows_from) => {
                self.rows_from = rows_from;
            },
            Change::NumRows(num_rows) => {
                self.num_rows = num_rows;
            },
            Change::Filter(filter) => {
                self.filter = filter;
            },
            Change::ColumnsFilter(columns_filter) => {
                self.columns_filter = columns_filter;
            },
        }
        self.do_get_rows(rows, elapsed);
        self.move_cursor(cursor);
    }
}

} // verus!
