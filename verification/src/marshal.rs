use vstd::prelude::*;

use crate::value::{coerce, coerce_spec, ColView, DynView, DynamicValue, RawColumn};

verus! {

/// One (column name, value) pair of a result row.
#[derive(Debug, PartialEq)]
pub struct ResultField {
    pub name: String,
    pub value: DynamicValue,
}

/// The mathematical form of a [`ResultField`].
pub struct FieldView {
    pub name: Seq<char>,
    pub value: DynView,
}

impl View for ResultField {
    type V = FieldView;

    open spec fn view(&self) -> FieldView {
        FieldView { name: self.name@, value: self.value@ }
    }
}

impl DeepView for ResultField {
    type V = FieldView;

    open spec fn deep_view(&self) -> FieldView {
        self.view()
    }
}

/// The field one raw column value contributes to its row: the column's name
/// paired with the coerced value.
pub open spec fn coerced_field(c: ColView) -> FieldView {
    FieldView { name: c.name, value: coerce_spec(c) }
}

/// What assembling one row yields: each column position, in the row's native
/// order, becomes its coerced field. Duplicate column names stay as separate
/// pairs; nothing is merged, dropped or reordered.
pub open spec fn assemble_row_spec(r: Seq<ColView>) -> Seq<FieldView> {
    r.map(|i: int, c: ColView| coerced_field(c))
}

/// What assembling a row set yields: each row, in cursor order, becomes its
/// assembled row. No sorting, filtering or limiting is applied.
pub open spec fn assemble_spec(rows: Seq<Seq<ColView>>) -> Seq<Seq<FieldView>> {
    rows.map(|i: int, r: Seq<ColView>| assemble_row_spec(r))
}

/// Pairs one raw column value's name with its coerced value.
pub fn coerce_field(c: &RawColumn) -> (f: ResultField)
    ensures
        f@ == coerced_field(c@),
{
    ResultField { name: c.name.clone(), value: coerce(c) }
}

/// Assembles one database row: every column position, in native order, is
/// read, coerced, and appended as a (name, value) pair.
pub fn assemble_row(r: &Vec<RawColumn>) -> (out: Vec<ResultField>)
    ensures
        out.deep_view() == assemble_row_spec(r.deep_view()),
{
    let mut out: Vec<ResultField> = Vec::new();
    let mut i: usize = 0;
    while i < r.len()
        invariant
            i <= r.len(),
            out.deep_view().len() == i,
            forall|k: int|
                0 <= k < i ==> #[trigger] out.deep_view()[k] == coerced_field(r.deep_view()[k]),
        decreases r.len() - i,
    {
        let ghost prev = out.deep_view();
        out.push(coerce_field(&r[i]));
        i += 1;
        proof {
            assert forall|k: int| 0 <= k < i implies #[trigger] out.deep_view()[k]
                == coerced_field(r.deep_view()[k]) by {
                if k < i - 1 {
                    assert(out.deep_view()[k] == prev[k]);
                }
            }
        }
    }
    proof {
        assert(out.deep_view() =~= assemble_row_spec(r.deep_view()));
    }
    out
}

/// Assembles a whole row set, preserving the cursor's row order.
pub fn assemble(rows: &Vec<Vec<RawColumn>>) -> (out: Vec<Vec<ResultField>>)
    ensures
        out.deep_view() == assemble_spec(rows.deep_view()),
{
    let mut out: Vec<Vec<ResultField>> = Vec::new();
    let mut i: usize = 0;
    while i < rows.len()
        invariant
            i <= rows.len(),
            out.deep_view().len() == i,
            forall|k: int|
                0 <= k < i ==> #[trigger] out.deep_view()[k] == assemble_row_spec(
                    rows.deep_view()[k],
                ),
        decreases rows.len() - i,
    {
        let ghost prev = out.deep_view();
        out.push(assemble_row(&rows[i]));
        i += 1;
        proof {
            assert forall|k: int| 0 <= k < i implies #[trigger] out.deep_view()[k]
                == assemble_row_spec(rows.deep_view()[k]) by {
                if k < i - 1 {
                    assert(out.deep_view()[k] == prev[k]);
                }
            }
        }
    }
    proof {
        assert(out.deep_view() =~= assemble_spec(rows.deep_view()));
    }
    out
}

/// Assembly preserves shape and order end-to-end: the output has one row per
/// input row and one field per input column, each field at the position of
/// the column it came from, carrying that column's name and coerced value.
pub proof fn lemma_assemble_preserves_order(rows: Seq<Seq<ColView>>)
    ensures
        assemble_spec(rows).len() == rows.len(),
        forall|i: int|
            0 <= i < rows.len() ==> #[trigger] assemble_spec(rows)[i].len() == rows[i].len(),
        forall|i: int, j: int|
            0 <= i < rows.len() && 0 <= j < rows[i].len() ==> #[trigger] assemble_spec(rows)[i][j]
                == coerced_field(rows[i][j]),
{
    assert forall|i: int| 0 <= i < rows.len() implies #[trigger] assemble_spec(rows)[i].len()
        == rows[i].len() by {
        assert(assemble_spec(rows)[i] == assemble_row_spec(rows[i]));
    }
    assert forall|i: int, j: int|
        0 <= i < rows.len() && 0 <= j < rows[i].len() implies #[trigger] assemble_spec(
        rows,
    )[i][j] == coerced_field(rows[i][j]) by {
        assert(assemble_spec(rows)[i] == assemble_row_spec(rows[i]));
    }
}

} // verus!
