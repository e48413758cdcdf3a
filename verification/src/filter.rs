//! The two projections a view can apply: a row filter, handed over by a
//! search, and a column filter, worked out from a pattern and the headers.

use crate::pattern::{clone_pattern, is_match, pattern_matches};
use regex::Regex;
use vstd::prelude::*;

verus! {

/// The mathematical value of a [`RowsFilter`].
pub struct RowsFilterView {
    pub indices: Seq<u64>,
    pub total: nat,
}

/// The outcome of a search as far as the view shows it: the positions of the
/// matching rows that fall into the window, and the number of all matches.
///
/// A filter is built whole and never changed afterwards.
#[derive(Clone, Debug, PartialEq, Eq)]
pub struct RowsFilter {
    indices: Vec<u64>,
    total: usize,
}

impl View for RowsFilter {
    type V = RowsFilterView;

    closed spec fn view(&self) -> RowsFilterView {
        RowsFilterView { indices: self.indices@, total: self.total as nat }
    }
}

impl DeepView for RowsFilter {
    type V = RowsFilterView;

    open spec fn deep_view(&self) -> RowsFilterView {
        self.view()
    }
}

impl RowsFilter {
    /// A filter over `total` matches of which `indices` are the absolute row
    /// positions inside the requested window, in order.
    pub fn new(indices: Vec<u64>, total: usize) -> (filter: Self)
        ensures
            filter@ == (RowsFilterView { indices: indices@, total: total as nat }),
    {
        RowsFilter { indices, total }
    }

    /// The absolute positions of the matching rows in the window.
    pub fn indices(&self) -> (indices: &Vec<u64>)
        ensures
            indices@ == self@.indices,
    {
        &self.indices
    }

    /// The number of all matches, inside the window or not.
    pub fn total(&self) -> (total: usize)
        ensures
            total == self@.total,
    {
        self.total
    }

    /// Whether both filters show the same rows, whatever their totals.
    pub fn same_indices(&self, other: &RowsFilter) -> (same: bool)
        ensures
            same == (self@.indices == other@.indices),
    {
        let same = self.indices == other.indices;
        proof {
            if same {
                assert(self.indices@ =~= other.indices@);
            }
        }
        same
    }
}

/// The positions `0, 1, ..` of `n` columns.
pub open spec fn all_columns(n: nat) -> Seq<usize> {
    Seq::new(n, |i: int| i as usize)
}

/// The positions among `n` columns that `matched` flags, ascending. A
/// column for which `matched` holds no flag counts as not flagged.
pub open spec fn flagged_columns(n: nat, matched: Seq<bool>) -> Seq<usize> {
    all_columns(n).filter(|i: usize| i < matched.len() && matched[i as int])
}

/// `flagged_columns` holds the flagged positions below `n` and no others,
/// each once, in ascending order.
pub proof fn lemma_flagged_columns(n: nat, matched: Seq<bool>)
    requires
        n <= usize::MAX,
    ensures
        forall|k: int|
            0 <= k < flagged_columns(n, matched).len() ==> {
                let i = #[trigger] flagged_columns(n, matched)[k];
                i < n && i < matched.len() && matched[i as int]
            },
        forall|j: int, k: int|
            0 <= j < k < flagged_columns(n, matched).len() ==> flagged_columns(n, matched)[j]
                < flagged_columns(n, matched)[k],
        forall|i: int|
            0 <= i < n && i < matched.len() && matched[i] ==> flagged_columns(
                n,
                matched,
            ).contains(i as usize),
    decreases n,
{
    let flagged = |i: usize| i < matched.len() && matched[i as int];
    if n == 0 {
        assert(all_columns(0).filter(flagged) =~= Seq::<usize>::empty());
    } else {
        let m = (n - 1) as nat;
        let fewer = flagged_columns(m, matched);
        let all = flagged_columns(n, matched);
        lemma_flagged_columns(m, matched);
        assert(all_columns(n) =~= all_columns(m).push(m as usize));
        all_columns(m).lemma_filter_push(m as usize, flagged);
        assert forall|i: int| 0 <= i < n && i < matched.len() && matched[i] implies all.contains(
            i as usize,
        ) by {
            if i < m {
                let k = choose|k: int| 0 <= k < fewer.len() && fewer[k] == i as usize;
                assert(all[k] == i as usize);
            } else {
                assert(all[all.len() - 1] == i as usize);
            }
        }
    }
}

/// For each header, whether the pattern finds a match in it.
pub open spec fn header_matches(pattern: Regex, headers: Seq<Seq<char>>) -> Seq<bool> {
    Seq::new(headers.len(), |i: int| pattern_matches(pattern, headers[i]))
}

/// The headers at the given positions.
pub open spec fn headers_at(headers: Seq<Seq<char>>, indices: Seq<usize>) -> Seq<Seq<char>> {
    indices.map_values(|i: usize| headers[i as int])
}

/// The mathematical value of a [`ColumnsFilter`].
pub struct ColumnsFilterView {
    pub pattern: Regex,
    pub indices: Seq<usize>,
    pub filtered_headers: Seq<Seq<char>>,
    pub num_columns_before_filter: nat,
    pub disabled_because_no_match: bool,
}

impl ColumnsFilterView {
    /// The filter over `headers` that keeps the columns flagged in
    /// `matched`, or every column where none is flagged.
    pub open spec fn from_matches(
        pattern: Regex,
        headers: Seq<Seq<char>>,
        matched: Seq<bool>,
    ) -> Self {
        let matching = flagged_columns(headers.len(), matched);
        if matching.len() == 0 {
            ColumnsFilterView {
                pattern,
                indices: all_columns(headers.len()),
                filtered_headers: headers,
                num_columns_before_filter: headers.len(),
                disabled_because_no_match: true,
            }
        } else {
            ColumnsFilterView {
                pattern,
                indices: matching,
                filtered_headers: headers_at(headers, matching),
                num_columns_before_filter: headers.len(),
                disabled_because_no_match: false,
            }
        }
    }

    /// The filter that `pattern` makes of `headers`: the columns whose
    /// header it matches, or every column where it matches none.
    pub open spec fn of(pattern: Regex, headers: Seq<Seq<char>>) -> Self {
        Self::from_matches(pattern, headers, header_matches(pattern, headers))
    }

    /// One header for each position; positions ascending and inside the
    /// columns of the source; a filter that matched nothing keeps every column.
    pub open spec fn wf(self) -> bool {
        &&& self.filtered_headers.len() == self.indices.len()
        &&& forall|k: int| 0 <= k < self.indices.len() ==> self.indices[k] < self.num_columns_before_filter
        &&& forall|j: int, k: int| 0 <= j < k < self.indices.len() ==> self.indices[j] < self.indices[k]
        &&& self.disabled_because_no_match ==> self.indices =~= all_columns(
            self.num_columns_before_filter,
        )
    }
}

/// Ascending positions below `n` are at most `n` in number.
pub proof fn lemma_ascending_below(indices: Seq<usize>, n: nat)
    requires
        forall|k: int| 0 <= k < indices.len() ==> indices[k] < n,
        forall|j: int, k: int| 0 <= j < k < indices.len() ==> indices[j] < indices[k],
    ensures
        indices.len() <= n,
        forall|k: int| 0 <= k < indices.len() ==> k <= indices[k],
    decreases indices.len(),
{
    if indices.len() > 0 {
        let front = indices.drop_last();
        let last = indices.len() - 1;
        assert(forall|k: int| 0 <= k < front.len() ==> front[k] == indices[k]);
        lemma_ascending_below(front, n);
        if last > 0 {
            assert(last - 1 <= front[last - 1]);
            assert(indices[last - 1] < indices[last]);
        }
        assert(last <= indices[last] < n);
        assert forall|k: int| 0 <= k < indices.len() implies k <= indices[k] by {
            if k < last {
                assert(k <= front[k]);
            }
        }
    }
}

/// The columns of a table that a pattern picks by their headers.
#[derive(Debug)]
pub struct ColumnsFilter {
    pattern: Regex,
    indices: Vec<usize>,
    filtered_headers: Vec<String>,
    num_columns_before_filter: usize,
    disabled_because_no_match: bool,
}

impl View for ColumnsFilter {
    type V = ColumnsFilterView;

    closed spec fn view(&self) -> ColumnsFilterView {
        ColumnsFilterView {
            pattern: self.pattern,
            indices: self.indices@,
            filtered_headers: self.filtered_headers.deep_view(),
            num_columns_before_filter: self.num_columns_before_filter as nat,
            disabled_because_no_match: self.disabled_because_no_match,
        }
    }
}

impl DeepView for ColumnsFilter {
    type V = ColumnsFilterView;

    open spec fn deep_view(&self) -> ColumnsFilterView {
        self.view()
    }
}

impl ColumnsFilter {
    #[verifier::type_invariant]
    pub(crate) open spec fn inv(self) -> bool {
        self@.wf()
    }

    /// Tests the pattern against every header in column order and keeps the
    /// columns that match. If none matches, the filter disables itself and
    /// keeps all columns.
    pub fn new(pattern: Regex, headers: &[String]) -> (filter: Self)
        ensures
            filter@ == ColumnsFilterView::of(pattern, headers.deep_view()),
            filter@.wf(),
            (forall|i: int| 0 <= i < headers@.len() ==> !pattern_matches(pattern, headers@[i]@))
                ==> filter@.disabled_because_no_match && filter@.filtered_headers
                == headers.deep_view() && filter@.indices == all_columns(headers@.len()),
    {
        let mut matched: Vec<bool> = Vec::new();
        let mut i: usize = 0;
        while i < headers.len()
            invariant
                i <= headers@.len(),
                matched@ == header_matches(pattern, headers.deep_view()).take(i as int),
            decreases headers@.len() - i,
        {
            let found = is_match(&pattern, headers[i].as_str());
            proof {
                let all = header_matches(pattern, headers.deep_view());
                assert(all.take(i + 1) =~= all.take(i as int).push(found));
            }
            matched.push(found);
            i += 1;
        }
        proof {
            let all = header_matches(pattern, headers.deep_view());
            assert(all.take(i as int) =~= all);
        }
        Self::from_matches(pattern, headers, matched.as_slice())
    }

    /// Keeps the columns that `matched` flags, in column order: `matched[i]`
    /// says whether column `i` is wanted, and a column without a flag is not.
    /// If no column is flagged, the filter disables itself and keeps all
    /// columns.
    pub fn from_matches(pattern: Regex, headers: &[String], matched: &[bool]) -> (filter: Self)
        ensures
            filter@ == ColumnsFilterView::from_matches(pattern, headers.deep_view(), matched@),
            filter@.wf(),
            (forall|i: int| 0 <= i < headers@.len() && i < matched@.len() ==> !matched@[i])
                ==> filter@.disabled_because_no_match && filter@.filtered_headers
                == headers.deep_view() && filter@.indices == all_columns(headers@.len()),
    {
        let ghost texts = headers.deep_view();
        let ghost flagged = |i: usize| i < matched@.len() && matched@[i as int];
        let ghost header_at = |i: usize| texts[i as int];
        let mut indices: Vec<usize> = Vec::new();
        let mut filtered_headers: Vec<String> = Vec::new();
        let mut i: usize = 0;
        while i < headers.len()
            invariant
                i <= headers@.len(),
                texts == headers.deep_view(),
                flagged == |i: usize| i < matched@.len() && matched@[i as int],
                header_at == |i: usize| texts[i as int],
                indices@ == all_columns(i as nat).filter(flagged),
                filtered_headers.deep_view() == indices@.map_values(header_at),
            decreases headers@.len() - i,
        {
            proof {
                assert(all_columns((i + 1) as nat) =~= all_columns(i as nat).push(i));
                all_columns(i as nat).lemma_filter_push(i, flagged);
            }
            if i < matched.len() && matched[i] {
                let ghost earlier = filtered_headers.deep_view();
                proof {
                    indices@.lemma_push_map_commute(header_at, i);
                }
                indices.push(i);
                filtered_headers.push(headers[i].clone());
                assert(filtered_headers.deep_view() =~= earlier.push(headers@[i as int]@));
            }
            i += 1;
        }
        let num_columns_before_filter: usize = headers.len();
        let disabled_because_no_match: bool = indices.len() == 0;
        if disabled_because_no_match {
            let mut k: usize = 0;
            while k < headers.len()
                invariant
                    k <= headers@.len(),
                    texts == headers.deep_view(),
                    indices@ == all_columns(k as nat),
                    filtered_headers.deep_view() == texts.take(k as int),
                decreases headers@.len() - k,
            {
                let ghost earlier = filtered_headers.deep_view();
                indices.push(k);
                filtered_headers.push(headers[k].clone());
                assert(filtered_headers.deep_view() =~= earlier.push(headers@[k as int]@));
                assert(texts.take(k + 1) =~= texts.take(k as int).push(texts[k as int]));
                assert(all_columns((k + 1) as nat) =~= all_columns(k as nat).push(k));
                k += 1;
            }
            assert(texts.take(k as int) =~= texts);
        }
        proof {
            lemma_flagged_columns(texts.len(), matched@);
            if forall|i: int| 0 <= i < headers@.len() && i < matched@.len() ==> !matched@[i] {
                all_columns(texts.len()).lemma_all_neg_filter_empty(flagged);
            }
        }
        ColumnsFilter {
            pattern,
            indices,
            filtered_headers,
            num_columns_before_filter,
            disabled_because_no_match,
        }
    }

    /// The headers of the columns that the filter keeps, in column order.
    pub fn filtered_headers(&self) -> (headers: &Vec<String>)
        ensures
            headers.deep_view() == self@.filtered_headers,
            self@.wf(),
    {
        proof {
            use_type_invariant(self);
        }
        &self.filtered_headers
    }

    /// The positions of the columns that the filter keeps, ascending.
    pub fn indices(&self) -> (indices: &Vec<usize>)
        ensures
            indices@ == self@.indices,
            self@.wf(),
    {
        proof {
            use_type_invariant(self);
        }
        &self.indices
    }

    /// The pattern the filter was built from.
    pub fn pattern(&self) -> (pattern: Regex)
        ensures
            pattern == self@.pattern,
    {
        clone_pattern(&self.pattern)
    }

    /// How many columns the filter keeps.
    pub fn num_filtered(&self) -> (n: usize)
        ensures
            n == self@.indices.len(),
            n == self@.filtered_headers.len(),
            n <= self@.num_columns_before_filter,
            self@.wf(),
    {
        proof {
            use_type_invariant(self);
            lemma_ascending_below(self.indices@, self.num_columns_before_filter as nat);
        }
        self.indices.len()
    }

    /// How many columns there were before filtering.
    pub fn num_original(&self) -> (n: usize)
        ensures
            n == self@.num_columns_before_filter,
            self@.wf(),
    {
        proof {
            use_type_invariant(self);
        }
        self.num_columns_before_filter
    }

    /// Whether the pattern matched no header, so that all columns are kept.
    pub fn disabled_because_no_match(&self) -> (disabled: bool)
        ensures
            disabled == self@.disabled_because_no_match,
            disabled ==> self@.indices.len() == self@.num_columns_before_filter,
            self@.wf(),
    {
        proof {
            use_type_invariant(self);
        }
        self.disabled_because_no_match
    }
}

} // verus!
