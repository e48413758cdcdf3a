//! One loaded record, and its projection onto a choice of columns.

use vstd::prelude::*;

verus! {

/// One record of the table: its fields in column order.
#[derive(Clone, Debug, PartialEq, Eq)]
pub struct Row {
    pub fields: Vec<String>,
}

impl DeepView for Row {
    type V = Seq<Seq<char>>;

    open spec fn deep_view(&self) -> Seq<Seq<char>> {
        self.fields.deep_view()
    }
}

impl View for Row {
    type V = Seq<Seq<char>>;

    open spec fn view(&self) -> Seq<Seq<char>> {
        self.fields.deep_view()
    }
}

/// The fields of a record at the given column positions, in the order of
/// the positions. A position beyond the end of the record yields no field.
pub open spec fn project(fields: Seq<Seq<char>>, indices: Seq<usize>) -> Seq<Seq<char>> {
    indices.filter(|i: usize| i < fields.len()).map_values(|i: usize| fields[i as int])
}

/// Each record projected onto the given column positions.
pub open spec fn project_rows(rows: Seq<Seq<Seq<char>>>, indices: Seq<usize>) -> Seq<
    Seq<Seq<char>>,
> {
    rows.map_values(|fields: Seq<Seq<char>>| project(fields, indices))
}

/// Where every position lies inside the record, the projection has one
/// field for each position.
pub proof fn lemma_project_in_range(fields: Seq<Seq<char>>, indices: Seq<usize>)
    requires
        forall|k: int| 0 <= k < indices.len() ==> indices[k] < fields.len(),
    ensures
        project(fields, indices) == Seq::new(
            indices.len(),
            |k: int| fields[indices[k] as int],
        ),
{
    let inside = |i: usize| i < fields.len();
    assert(indices.filter(inside) =~= indices) by {
        lemma_filter_keeps_all(indices, inside);
    }
    assert(project(fields, indices) =~= Seq::new(
        indices.len(),
        |k: int| fields[indices[k] as int],
    ));
}

proof fn lemma_filter_keeps_all<A>(s: Seq<A>, pred: spec_fn(A) -> bool)
    requires
        forall|k: int| 0 <= k < s.len() ==> pred(s[k]),
    ensures
        s.filter(pred) == s,
    decreases s.len(),
{
    reveal(Seq::filter);
    if s.len() > 0 {
        lemma_filter_keeps_all(s.drop_last(), pred);
        assert(s.drop_last().push(s.last()) =~= s);
    }
}

impl Row {
    /// The record narrowed to the given column positions.
    pub fn subset(&self, indices: &[usize]) -> (narrowed: Row)
        ensures
            narrowed@ == project(self@, indices@),
            (forall|k: int| 0 <= k < indices@.len() ==> indices@[k] < self@.len())
                ==> narrowed@ == Seq::new(indices@.len(), |k: int| self@[indices@[k] as int]),
    {
        let ghost inside = |i: usize| i < self@.len();
        let ghost pick = |i: usize| self@[i as int];
        let mut subfields: Vec<String> = Vec::new();
        let mut k: usize = 0;
        while k < indices.len()
            invariant
                k <= indices@.len(),
                inside == |i: usize| i < self@.len(),
                pick == |i: usize| self@[i as int],
                subfields.deep_view() == indices@.take(k as int).filter(inside).map_values(pick),
            decreases indices@.len() - k,
        {
            let i: usize = indices[k];
            proof {
                let before = indices@.take(k as int);
                assert(indices@.take(k + 1) =~= before.push(i));
                before.lemma_filter_push(i, inside);
                if inside(i) {
                    before.filter(inside).lemma_push_map_commute(pick, i);
                }
            }
            if i < self.fields.len() {
                let field = self.fields[i].clone();
                assert(field@ == self@[i as int]);
                let ghost earlier = subfields.deep_view();
                subfields.push(field);
                assert(subfields.deep_view() =~= earlier.push(field@));
            }
            k += 1;
        }
        proof {
            assert(indices@.take(k as int) =~= indices@);
            if forall|j: int| 0 <= j < indices@.len() ==> indices@[j] < self@.len() {
                lemma_project_in_range(self@, indices@);
            }
        }
        Row { fields: subfields }
    }
}

} // verus!
