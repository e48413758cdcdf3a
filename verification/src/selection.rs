//! A clamped cursor over one axis, and the pair of cursors that makes a
//! selection.

use vstd::prelude::*;

verus! {

/// The mathematical value of a [`SelectionDimension`]: an optional index and
/// the exclusive upper bound it is clamped against.
pub struct SelectionDimensionView {
    pub index: Option<nat>,
    pub bound: nat,
}

impl SelectionDimensionView {
    /// The largest index the bound admits. A bound of zero admits index zero:
    /// a cursor over an empty axis rests there until the axis fills again.
    pub open spec fn last(self) -> nat {
        if self.bound == 0 {
            0
        } else {
            (self.bound - 1) as nat
        }
    }

    /// `i` brought down to the largest admissible index.
    pub open spec fn clamp(self, i: nat) -> nat {
        if i <= self.last() {
            i
        } else {
            self.last()
        }
    }

    /// A present index never exceeds the largest admissible one.
    pub open spec fn wf(self) -> bool {
        self.index matches Some(i) ==> i <= self.last()
    }

    /// The cursor with index `i`, clamped.
    pub open spec fn set_index(self, i: nat) -> Self {
        SelectionDimensionView { index: Some(self.clamp(i)), bound: self.bound }
    }

    /// The cursor under another bound: a present index is clamped anew, an
    /// absent one stays absent.
    pub open spec fn set_bound(self, bound: nat) -> Self {
        let rebound = SelectionDimensionView { index: self.index, bound };
        match self.index {
            Some(i) => rebound.set_index(i),
            None => rebound,
        }
    }

    /// The cursor one position further, unless it is at the last or absent.
    pub open spec fn select_next(self) -> Self {
        match self.index {
            Some(i) => self.set_index(i + 1),
            None => self,
        }
    }

    /// The cursor one position back, unless it is at the first or absent.
    pub open spec fn select_previous(self) -> Self {
        match self.index {
            Some(i) => self.set_index(
                if i == 0 {
                    0
                } else {
                    (i - 1) as nat
                },
            ),
            None => self,
        }
    }

    /// The cursor at the first position, unless it is absent.
    pub open spec fn select_first(self) -> Self {
        match self.index {
            Some(_) => SelectionDimensionView { index: Some(0), bound: self.bound },
            None => self,
        }
    }

    /// The cursor at the last position, unless it is absent.
    pub open spec fn select_last(self) -> Self {
        match self.index {
            Some(_) => SelectionDimensionView { index: Some(self.last()), bound: self.bound },
            None => self,
        }
    }

    /// Whether the index is present and equals `i`.
    pub open spec fn is_selected(self, i: nat) -> bool {
        self.index == Some(i)
    }

    /// The cursor after that many steps forward.
    pub open spec fn select_next_times(self, times: nat) -> Self
        decreases times,
    {
        if times == 0 {
            self
        } else {
            self.select_next_times((times - 1) as nat).select_next()
        }
    }

    /// The cursor after that many steps backward.
    pub open spec fn select_previous_times(self, times: nat) -> Self
        decreases times,
    {
        if times == 0 {
            self
        } else {
            self.select_previous_times((times - 1) as nat).select_previous()
        }
    }

    /// The cursor after `set_bound` has been called with each of `bounds` in turn.
    pub open spec fn set_bounds(self, bounds: Seq<nat>) -> Self
        decreases bounds.len(),
    {
        if bounds.len() == 0 {
            self
        } else {
            self.set_bounds(bounds.drop_last()).set_bound(bounds.last())
        }
    }
}

/// A cursor over one axis of the table.
///
/// The index is a position inside the loaded window, not a record number. It
/// is only ever changed through the methods below, each of which clamps it.
#[derive(Clone, Copy, Debug, PartialEq, Eq)]
pub struct SelectionDimension {
    index: Option<u64>,
    bound: u64,
}

impl View for SelectionDimension {
    type V = SelectionDimensionView;

    closed spec fn view(&self) -> SelectionDimensionView {
        SelectionDimensionView {
            index: match self.index {
                Some(i) => Some(i as nat),
                None => None,
            },
            bound: self.bound as nat,
        }
    }
}

impl SelectionDimension {
    #[verifier::type_invariant]
    pub(crate) open spec fn inv(self) -> bool {
        self@.wf()
    }

    /// The currently selected index, if any.
    pub fn index(&self) -> (index: Option<u64>)
        ensures
            self@.wf(),
            self@.index == match index {
                Some(i) => Some(i as nat),
                None => None,
            },
    {
        proof {
            use_type_invariant(self);
        }
        self.index
    }

    /// The exclusive upper limit of the index.
    pub fn bound(&self) -> (bound: u64)
        ensures
            self@.wf(),
            self@.bound == bound,
    {
        proof {
            use_type_invariant(self);
        }
        self.bound
    }

    /// Selects `index`, brought down to the last admissible position.
    pub fn set_index(&mut self, index: u64)
        ensures
            final(self)@ == old(self)@.set_index(index as nat),
            final(self)@.wf(),
    {
        let last: u64 = self.bound.saturating_sub(1);
        *self = SelectionDimension {
            index: Some(if index <= last { index } else { last }),
            bound: self.bound,
        };
    }

    /// Replaces the bound and brings a present index back under it.
    pub fn set_bound(&mut self, bound: u64)
        ensures
            final(self)@ == old(self)@.set_bound(bound as nat),
            final(self)@.wf(),
            final(self)@.bound == bound,
            final(self)@.index is Some <==> old(self)@.index is Some,
            bound > 0 ==> (final(self)@.index matches Some(i) ==> i < bound),
            bound == 0 ==> (final(self)@.index matches Some(i) ==> i == 0),
    {
        let last: u64 = bound.saturating_sub(1);
        *self = SelectionDimension {
            index: match self.index {
                Some(i) => Some(if i <= last { i } else { last }),
                None => None,
            },
            bound,
        };
    }

    /// Moves the index one position down the axis; stays at the last one.
    /// Does nothing if nothing is selected.
    pub fn select_next(&mut self)
        ensures
            final(self)@ == old(self)@.select_next(),
            final(self)@.wf(),
    {
        if let Some(i) = self.index {
            self.set_index(i.saturating_add(1));
        }
    }

    /// Moves the index one position up the axis; stays at the first one.
    /// Does nothing if nothing is selected.
    pub fn select_previous(&mut self)
        ensures
            final(self)@ == old(self)@.select_previous(),
            final(self)@.wf(),
    {
        if let Some(i) = self.index {
            self.set_index(i.saturating_sub(1));
        }
    }

    /// Selects the first position. Does nothing if nothing is selected.
    pub fn select_first(&mut self)
        ensures
            final(self)@ == old(self)@.select_first(),
            final(self)@.wf(),
    {
        if self.index.is_some() {
            self.set_index(0);
        }
    }

    /// Selects the last position. Does nothing if nothing is selected.
    pub fn select_last(&mut self)
        ensures
            final(self)@ == old(self)@.select_last(),
            final(self)@.wf(),
    {
        if self.index.is_some() {
            self.set_index(self.bound.saturating_sub(1));
        }
    }

    /// Whether position `i` is the selected one.
    pub fn is_selected(&self, i: usize) -> (selected: bool)
        ensures
            selected == self@.is_selected(i as nat),
    {
        match self.index {
            Some(selected) => selected == i as u64,
            None => false,
        }
    }
}

/// Which axes of the table hold a cursor.
#[derive(Clone, Copy, Debug, PartialEq, Eq)]
pub enum SelectionType {
    Row,
    Column,
    Cell,
    /// Neither a row nor a column is selected.
    Nothing,
}

/// The mathematical value of a [`Selection`].
pub struct SelectionView {
    pub row: SelectionDimensionView,
    pub column: SelectionDimensionView,
}

impl SelectionView {
    /// Both cursors are well formed.
    pub open spec fn wf(self) -> bool {
        self.row.wf() && self.column.wf()
    }

    /// The selection a view starts with: the first row, no column.
    pub open spec fn initial(row_bound: nat) -> Self {
        SelectionView {
            row: SelectionDimensionView { index: Some(0), bound: row_bound },
            column: SelectionDimensionView { index: None, bound: 0 },
        }
    }

    /// Cell if both cursors are present, Row or Column if only that one is,
    /// Nothing if neither.
    pub open spec fn selection_type(self) -> SelectionType {
        if self.row.index is Some && self.column.index is Some {
            SelectionType::Cell
        } else if self.row.index is Some {
            SelectionType::Row
        } else if self.column.index is Some {
            SelectionType::Column
        } else {
            SelectionType::Nothing
        }
    }
}

/// The row cursor and the column cursor of a view.
#[derive(Clone, Copy, Debug, PartialEq, Eq)]
pub struct Selection {
    pub row: SelectionDimension,
    pub column: SelectionDimension,
}

impl View for Selection {
    type V = SelectionView;

    open spec fn view(&self) -> SelectionView {
        SelectionView { row: self.row@, column: self.column@ }
    }
}

impl Selection {
    /// The first row selected among `row_bound` rows, and no column.
    pub fn default(row_bound: u64) -> (selection: Self)
        ensures
            selection@ == SelectionView::initial(row_bound as nat),
            selection@.wf(),
    {
        Selection {
            row: SelectionDimension { index: Some(0), bound: row_bound },
            column: SelectionDimension { index: None, bound: 0 },
        }
    }

    /// Cell if both cursors are present, Row or Column if only that one is,
    /// Nothing if neither.
    pub fn selection_type(&self) -> (kind: SelectionType)
        ensures
            kind == self@.selection_type(),
    {
        if self.row.index.is_some() && self.column.index.is_some() {
            SelectionType::Cell
        } else if self.row.index.is_some() {
            SelectionType::Row
        } else if self.column.index.is_some() {
            SelectionType::Column
        } else {
            SelectionType::Nothing
        }
    }
}

} // verus!
