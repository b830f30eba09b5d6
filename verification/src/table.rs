use vstd::prelude::*;

use crate::document::DocumentView;
use crate::document::Element;
use crate::document::Field;
use crate::document::ElementView;
use crate::document::FieldView;
use crate::document::IntermediateDocument;
use crate::errors::ErrorKind;
use crate::errors::Failure;

verus! {

/// One named column value of a row: a column name and a scalar textual
/// value.
#[derive(Debug, Clone)]
pub struct Cell {
    pub column: String,
    pub text: String,
}

/// The mathematical model of a cell.
pub struct CellView {
    pub column: Seq<char>,
    pub text: Seq<char>,
}

impl View for Cell {
    type V = CellView;

    open spec fn view(&self) -> CellView {
        CellView { column: self.column@, text: self.text@ }
    }
}

/// One row of the final table: a mapping from column names to scalar textual
/// values. Rows are not forced to share a uniform column set: each row
/// enumerates only the keys present in its source object.
#[derive(Debug, Clone)]
pub struct Row {
    pub cells: Vec<Cell>,
}

impl View for Row {
    type V = Seq<CellView>;

    open spec fn view(&self) -> Seq<CellView> {
        self.cells@.map_values(|c: Cell| c@)
    }
}

/// The final output: an ordered sequence of rows.
#[derive(Debug, Clone)]
pub struct TableValue {
    pub rows: Vec<Row>,
}

impl View for TableValue {
    type V = Seq<Seq<CellView>>;

    open spec fn view(&self) -> Seq<Seq<CellView>> {
        self.rows@.map_values(|r: Row| r@)
    }
}

/// The single-cell row that one object field becomes.
pub open spec fn field_row(f: FieldView) -> Seq<CellView> {
    seq![CellView { column: f.key, text: f.text }]
}

/// The rows one array element contributes: one single-cell row per field of
/// an object, in field order, and nothing for a non-object element.
pub open spec fn rows_of_element(e: ElementView) -> Seq<Seq<CellView>> {
    match e {
        ElementView::Object(fields) => fields.map_values(|f: FieldView| field_row(f)),
        ElementView::NonObject => Seq::empty(),
    }
}

/// The rows of a whole top-level array: each element's rows, concatenated in
/// element order.
pub open spec fn rows_of(elements: Seq<ElementView>) -> Seq<Seq<CellView>>
    decreases elements.len(),
{
    if elements.len() == 0 {
        Seq::empty()
    } else {
        rows_of(elements.drop_last()) + rows_of_element(elements.last())
    }
}

/// Converts an intermediate document into the final table value. Only a
/// top-level array is accepted; its materialization is a function of the
/// document alone, so materializing the same document again yields an
/// identical table. An empty array yields an empty table, not an error.
pub fn materialize(doc: &IntermediateDocument) -> (r: Result<TableValue, Failure>)
    ensures
        doc@ matches DocumentView::Array(elements) ==> r matches Ok(t) && t@ == rows_of(
            elements,
        ),
        doc@ is NotArray ==> (r matches Err(f) && f.kind == ErrorKind::UnexpectedShape
            && !f.references_input && f.message@ == "Expected an array in JSON input"@
            && f.label@ == "JSON input is not an array"@),
{
    match doc {
        IntermediateDocument::NotArray => Err(
            Failure::unpositioned(
                ErrorKind::UnexpectedShape,
                "Expected an array in JSON input",
                "JSON input is not an array",
            ),
        ),
        IntermediateDocument::Array(elements) => {
            let ghost ev = elements@.map_values(|e: Element| e@);
            let mut rows: Vec<Row> = Vec::new();
            let n = elements.len();
            let mut i: usize = 0;
            while i < n
                invariant
                    0 <= i <= n,
                    n == elements@.len(),
                    ev == elements@.map_values(|e: Element| e@),
                    rows@.map_values(|r: Row| r@) == rows_of(ev.take(i as int)),
                decreases n - i,
            {
                match &elements[i] {
                    Element::NonObject => {
                        proof {
                            assert(ev.take(i + 1).drop_last() =~= ev.take(i as int));
                            assert(ev.take(i + 1).last() == ev[i as int]);
                            assert(rows_of(ev.take(i + 1)) =~= rows_of(ev.take(i as int)));
                        }
                    },
                    Element::Object(fields) => {
                        let ghost fv = fields@.map_values(|f: Field| f@);
                        let m = fields.len();
                        let mut j: usize = 0;
                        while j < m
                            invariant
                                0 <= j <= m,
                                m == fields@.len(),
                                fv == fields@.map_values(|f: Field| f@),
                                rows@.map_values(|r: Row| r@) == rows_of(ev.take(i as int))
                                    + fv.take(j as int).map_values(|f: FieldView| field_row(f)),
                            decreases m - j,
                        {
                            let field = &fields[j];
                            let mut cells: Vec<Cell> = Vec::new();
                            cells.push(
                                Cell { column: field.key.clone(), text: field.text.clone() },
                            );
                            let ghost old_rows = rows@;
                            let row = Row { cells };
                            proof {
                                assert(row@ =~= field_row(fv[j as int]));
                            }
                            rows.push(row);
                            proof {
                                assert(fv.take(j + 1) =~= fv.take(j as int).push(fv[j as int]));
                                assert(rows@.map_values(|r: Row| r@) =~= old_rows.map_values(
                                    |r: Row| r@,
                                ).push(row@));
                                assert(fv.take(j + 1).map_values(|f: FieldView| field_row(f))
                                    =~= fv.take(j as int).map_values(
                                    |f: FieldView| field_row(f),
                                ).push(field_row(fv[j as int])));
                                assert(rows@.map_values(|r: Row| r@) =~= rows_of(
                                    ev.take(i as int),
                                ) + fv.take(j + 1).map_values(|f: FieldView| field_row(f)));
                            }
                            j += 1;
                        }
                        proof {
                            assert(fv.take(m as int) =~= fv);
                            assert(ev.take(i + 1).drop_last() =~= ev.take(i as int));
                            assert(ev.take(i + 1).last() == ev[i as int]);
                            assert(rows_of_element(ev[i as int]) == fv.map_values(
                                |f: FieldView| field_row(f),
                            ));
                            assert(rows_of(ev.take(i + 1)) =~= rows_of(ev.take(i as int))
                                + rows_of_element(ev[i as int]));
                        }
                    },
                }
                i += 1;
            }
            proof {
                assert(ev.take(n as int) =~= ev);
            }
            Ok(TableValue { rows })
        },
    }
}

/// Round-trip shape law: a document that is an array of objects, each
/// holding exactly one field, materializes to exactly one row per object,
/// each row the single cell carrying that object's one key and its value's
/// text.
pub proof fn lemma_single_field_objects_round_trip(elements: Seq<ElementView>)
    requires
        forall|i: int| 0 <= i < elements.len() ==> ((#[trigger] elements[i]) matches
            ElementView::Object(fields) && fields.len() == 1),
    ensures
        rows_of(elements).len() == elements.len(),
        forall|i: int| 0 <= i < elements.len() ==> rows_of(elements)[i] == field_row(
            (#[trigger] elements[i])->Object_0[0],
        ),
    decreases elements.len(),
{
    if elements.len() > 0 {
        assert forall|i: int| 0 <= i < elements.drop_last().len() implies (#[trigger] elements
            .drop_last()[i]) matches ElementView::Object(fields) && fields.len() == 1 by {
            assert(elements.drop_last()[i] == elements[i]);
        }
        lemma_single_field_objects_round_trip(elements.drop_last());
        let last = elements.last();
        assert(elements[elements.len() - 1] matches ElementView::Object(fields) && fields.len()
            == 1);
        assert(rows_of_element(last).len() == 1);
        assert(rows_of_element(last)[0] == field_row(last->Object_0[0]));
        assert forall|i: int| 0 <= i < elements.len() implies rows_of(elements)[i] == field_row(
            (#[trigger] elements[i])->Object_0[0],
        ) by {
            if i < elements.len() - 1 {
                assert(elements.drop_last()[i] == elements[i]);
                assert(rows_of(elements)[i] == rows_of(elements.drop_last())[i]);
            }
        }
    }
}

} // verus!

