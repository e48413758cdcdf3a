//! What holds of a view whatever it is asked to do, proved of the model.

use crate::control::Control;
use crate::filter::{all_columns, header_matches, ColumnsFilterView, RowsFilterView};
use crate::pattern::pattern_matches;
use crate::selection::SelectionDimensionView;
use crate::state::{ChangeView, ReloadView, ViewState};
use regex::Regex;
use vstd::prelude::*;

verus! {

/// Whatever bounds are set one after another, a present index ends up
/// below the last of them. The last bound must not be zero: below zero
/// there is no index.
pub proof fn lemma_set_bounds_keeps_index_in_range(dim: SelectionDimensionView, bounds: Seq<nat>)
    requires
        bounds.len() > 0,
        bounds.last() > 0,
    ensures
        dim.set_bounds(bounds).index matches Some(i) ==> i < bounds.last(),
{
    lemma_set_bounds_shape(dim, bounds);
}

/// Whatever bounds are set one after another, the cursor is well formed
/// under the last of them, and a cursor is neither gained nor lost on the
/// way. Under a last bound of zero a present index rests at zero.
pub proof fn lemma_set_bounds_shape(dim: SelectionDimensionView, bounds: Seq<nat>)
    requires
        bounds.len() > 0,
    ensures
        dim.set_bounds(bounds).wf(),
        dim.set_bounds(bounds).bound == bounds.last(),
        dim.set_bounds(bounds).index is Some <==> dim.index is Some,
        dim.set_bounds(bounds).index matches Some(i) ==> i <= dim.set_bounds(bounds).last(),
        bounds.last() == 0 ==> (dim.set_bounds(bounds).index matches Some(i) ==> i == 0),
    decreases bounds.len(),
{
    if bounds.len() > 1 {
        lemma_set_bounds_shape(dim, bounds.drop_last());
    } else {
        assert(dim.set_bounds(bounds.drop_last()) == dim);
    }
}

/// A step forward or backward never takes a present index out of
/// `[0, bound - 1]`, and never makes a cursor appear or disappear.
pub proof fn lemma_steps_stay_in_range(dim: SelectionDimensionView)
    requires
        dim.bound > 0,
    ensures
        dim.select_next().index matches Some(i) ==> i < dim.bound,
        dim.select_previous().index matches Some(i) ==> i < dim.bound,
        dim.select_next().bound == dim.bound,
        dim.select_previous().bound == dim.bound,
        dim.select_next().index is Some <==> dim.index is Some,
        dim.select_previous().index is Some <==> dim.index is Some,
{
}

/// At the last position a step forward changes nothing, and at the first
/// position a step backward changes nothing, however often it is repeated.
pub proof fn lemma_steps_idempotent_at_edges(dim: SelectionDimensionView, times: nat)
    ensures
        dim.index == Some(dim.last()) ==> dim.select_next() == dim,
        dim.index == Some(dim.last()) ==> dim.select_next_times(times) == dim,
        dim.index == Some(0nat) ==> dim.select_previous() == dim,
        dim.index == Some(0nat) ==> dim.select_previous_times(times) == dim,
    decreases times,
{
    if times > 0 {
        lemma_steps_idempotent_at_edges(dim, (times - 1) as nat);
    }
}

/// A pattern that matches no header disables its filter: the filter says
/// so, and shows all headers of the source in column order.
pub proof fn lemma_no_match_keeps_all_columns(pattern: Regex, headers: Seq<Seq<char>>)
    requires
        forall|i: int| 0 <= i < headers.len() ==> !pattern_matches(pattern, headers[i]),
    ensures
        ColumnsFilterView::of(pattern, headers).disabled_because_no_match,
        ColumnsFilterView::of(pattern, headers).filtered_headers == headers,
        ColumnsFilterView::of(pattern, headers).indices == all_columns(headers.len()),
        ColumnsFilterView::of(pattern, headers).num_columns_before_filter == headers.len(),
{
    let matched = header_matches(pattern, headers);
    all_columns(headers.len()).lemma_all_neg_filter_empty(
        |i: usize| i < matched.len() && matched[i as int],
    );
}

/// Whatever a view is asked to do, its cursors and its column filter stay
/// well formed.
pub proof fn lemma_operations_keep_state_well_formed(
    state: ViewState,
    control: Control,
    filter: RowsFilterView,
    reload: ReloadView,
    rows: Seq<Seq<Seq<char>>>,
    elapsed: nat,
)
    requires
        state.wf(),
        reload.change matches ChangeView::ColumnsFilter(Some(columns_filter))
            ==> columns_filter.wf(),
    ensures
        state.handle_control_now(control).wf(),
        state.set_filter_now(filter).wf(),
        state.complete(reload, rows, elapsed).wf(),
{
}

/// A view is changed by the completion of a reload, never by the request
/// for one: if rows cannot be read and the reload is dropped, the view is
/// what it was before the command.
pub proof fn lemma_pending_reload_changes_nothing(
    state: ViewState,
    control: Control,
    filter: RowsFilterView,
)
    ensures
        state.handle_control(control) is Some ==> state.handle_control_now(control) == state,
        state.set_filter(filter) is Some ==> state.set_filter_now(filter) == state,
{
}

/// After a reload the row cursor is bounded by the number of rows loaded
/// and the column cursor by the number of fields of the first of them; a
/// cursor that was present still is, inside those bounds.
pub proof fn lemma_reload_bounds_cursors(
    state: ViewState,
    reload: ReloadView,
    rows: Seq<Seq<Seq<char>>>,
    elapsed: nat,
)
    ensures
        ({
            let after = state.complete(reload, rows, elapsed);
            &&& after.rows.len() == rows.len()
            &&& after.selection.row.bound == after.rows.len()
            &&& after.selection.row.wf()
            &&& after.selection.row.index is Some <==> state.selection.row.index is Some
            &&& after.rows.len() > 0 ==> (after.selection.row.index matches Some(i) ==> i
                < after.rows.len())
            &&& after.rows.len() > 0 ==> after.selection.column.bound == after.rows[0].len()
            &&& after.rows.len() > 0 ==> after.selection.column.wf()
            &&& after.selection.column.index is Some <==> state.selection.column.index is Some
            &&& after.elapsed == Some(elapsed)
        }),
{
}

/// Scrolling down from the last row of the window moves the window down by
/// exactly one row and leaves the cursor on the last row, provided the
/// window is not at the bottom yet and the rows read for it fill it.
pub proof fn lemma_scroll_down_from_last_row(
    state: ViewState,
    rows: Seq<Seq<Seq<char>>>,
    elapsed: nat,
)
    requires
        state.num_rows > 0,
        state.selection.row.index == Some((state.num_rows - 1) as nat),
        state.rows_from < u64::MAX,
        state.bottom_rows_from() matches Some(bottom) ==> state.rows_from < bottom,
        rows.len() >= state.num_rows || state.num_rows == 1,
    ensures
        state.handle_control(Control::ScrollDown) is Some,
        state.handle_control_now(Control::ScrollDown) == state,
        ({
            let reload = state.handle_control(Control::ScrollDown)->0;
            let after = state.complete(reload, rows, elapsed);
            &&& after.rows_from == state.rows_from + 1
            &&& after.selection.row.index == state.selection.row.index
            &&& after.num_rows == state.num_rows
        }),
{
}

/// After a jump to row `n`, counted from one, the selected row is row
/// `n - 1`, or the first row of the bottom window if `n - 1` lies beyond it.
pub proof fn lemma_scroll_to_selects_target(
    state: ViewState,
    n: usize,
    rows: Seq<Seq<Seq<char>>>,
    elapsed: nat,
)
    requires
        state.selection.row.index is Some,
    ensures
        ({
            let wanted: nat = if n == 0 {
                0
            } else {
                (n - 1) as nat
            };
            let target = match state.bottom_rows_from() {
                Some(bottom) => if wanted < bottom {
                    wanted
                } else {
                    bottom
                },
                None => wanted,
            };
            let after = match state.handle_control(Control::ScrollTo(n)) {
                Some(reload) => state.complete(reload, rows, elapsed),
                None => state.handle_control_now(Control::ScrollTo(n)),
            };
            &&& after.rows_from == target
            &&& after.selected_offset() == Some(target)
        }),
{
}

/// A row filter that shows the same rows as the one it replaces is in place
/// at once and without a reload: the rows stay as they are, and the total
/// is the new one.
pub proof fn lemma_same_rows_new_total(state: ViewState, filter: RowsFilterView)
    requires
        state.filter matches Some(current) && current.indices == filter.indices,
    ensures
        state.set_filter(filter) is None,
        state.set_filter_now(filter) == (ViewState { filter: Some(filter), ..state }),
        state.set_filter_now(filter).rows == state.rows,
        state.set_filter_now(filter).get_total() == Some(filter.total),
{
}

/// No offset that a view is asked for takes the window past the bottom.
pub proof fn lemma_window_stays_above_bottom(state: ViewState, rows_from: nat, control: Control)
    requires
        state.bottom_rows_from() is Some,
    ensures
        state.clamp_rows_from(rows_from) <= state.bottom_rows_from()->0,
        state.set_rows_from(rows_from) matches Some(reload) ==> state.apply(
            reload.change,
        ).rows_from <= state.bottom_rows_from()->0,
        state.handle_control(control) matches Some(reload) ==> state.apply(
            reload.change,
        ).rows_from <= state.bottom_rows_from()->0,
{
}

} // verus!
