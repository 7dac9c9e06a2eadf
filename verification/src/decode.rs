//! Decoding the rows of a result set into records.

use crate::ident::{parse_uuid, uuid_of_text};
use crate::json::{find_member, member, row_view, rows_view, Cell, CellView, Row, RowView};
use crate::model::{Model, Record};
use crate::params::{datum_views, value_type, Datum, DatumView};
use crate::sql::{Column, SqlTypes};
use vstd::prelude::*;

verus! {

/// The value of a field of type `sql_type` that a member's value stands for:
/// a text is a string, an integer a number that fits 32 bits, a unique
/// identifier a string that is the text of one. Anything else stands for no
/// value.
pub open spec fn decoded_cell(sql_type: SqlTypes, cell: CellView) -> Option<DatumView> {
    match (sql_type, cell) {
        (SqlTypes::String, CellView::Text(text)) => Some(DatumView::Text(text)),
        (SqlTypes::Integer, CellView::Number(Some(number))) => if i32::MIN <= number <= i32::MAX {
            Some(DatumView::Integer(number as i32))
        } else {
            None
        },
        (SqlTypes::Uuid, CellView::Text(text)) => match uuid_of_text(text) {
            Some(id) => Some(DatumView::Uuid(id)),
            None => None,
        },
        _ => None,
    }
}

/// The value of `column` in a row: that of the member called like the
/// column, if the row has one and its value stands for one of the column's
/// type.
pub open spec fn decoded_field(column: Column, row: RowView) -> Option<DatumView> {
    match member(row, column.name@) {
        Some(cell) => decoded_cell(column.sql_type, cell),
        None => None,
    }
}

/// The row gives a value to every column. Members that no column is called
/// like are ignored.
pub open spec fn row_decodes(columns: Seq<Column>, row: RowView) -> bool {
    forall|i: int| 0 <= i < columns.len() ==> decoded_field(#[trigger] columns[i], row) is Some
}

/// The values that the row gives to the columns, in the columns' order.
pub open spec fn decoded_row(columns: Seq<Column>, row: RowView) -> Seq<DatumView> {
    Seq::new(columns.len(), |i: int| decoded_field(columns[i], row)->0)
}

/// Every row gives a value to every column.
pub open spec fn rows_decode(columns: Seq<Column>, rows: Seq<RowView>) -> bool {
    forall|r: int| 0 <= r < rows.len() ==> row_decodes(columns, #[trigger] rows[r])
}

/// The records are the rows, decoded, in the rows' order.
pub open spec fn records_of_rows(
    records: Seq<Record>,
    columns: Seq<Column>,
    rows: Seq<RowView>,
) -> bool {
    &&& records.len() == rows.len()
    &&& forall|r: int|
        0 <= r < rows.len() ==> {
            &&& (#[trigger] records[r]).wf()
            &&& records[r].fields() == columns
            &&& datum_views(records[r].values()) == decoded_row(columns, rows[r])
        }
}

/// Decodes the value of one member as a field of type `sql_type`.
pub fn decode_cell(sql_type: SqlTypes, cell: &Cell) -> (value: Option<Datum>)
    ensures
        match value {
            Some(datum) => decoded_cell(sql_type, cell@) == Some(datum@),
            None => decoded_cell(sql_type, cell@) is None,
        },
        value matches Some(datum) ==> value_type(datum) == sql_type,
{
    match (sql_type, cell) {
        (SqlTypes::String, Cell::Text(text)) => Some(Datum::Text(text.clone())),
        (SqlTypes::Integer, Cell::Number(Some(number))) => {
            if -2147483648 <= *number && *number <= 2147483647 {
                let narrow: i32 = *number as i32;
                Some(Datum::Integer(narrow))
            } else {
                None
            }
        },
        (SqlTypes::Uuid, Cell::Text(text)) => match parse_uuid(text.as_str()) {
            Some(id) => Some(Datum::Uuid(id)),
            None => None,
        },
        _ => None,
    }
}

impl Model {
    /// Decodes one row into a record of this type, or `None` where the row
    /// does not give a value to every field.
    pub fn decode_row(&self, row: &Row) -> (decoded: Option<Record>)
        requires
            self.wf(),
        ensures
            row_decodes(self.fields(), row_view(row@)) <==> decoded is Some,
            decoded matches Some(record) ==> {
                &&& record.wf()
                &&& record.fields() == self.fields()
                &&& datum_views(record.values()) == decoded_row(self.fields(), row_view(row@))
            },
    {
        let mut values: Vec<Datum> = Vec::new();
        let mut i: usize = 0;
        while i < self.field_count()
            invariant
                i <= self.fields().len(),
                values@.len() == i,
                forall|j: int|
                    0 <= j < i ==> decoded_field(#[trigger] self.fields()[j], row_view(row@))
                        == Some(values@[j]@),
                forall|j: int|
                    0 <= j < i ==> value_type(#[trigger] values@[j])
                        == self.fields()[j].sql_type,
            decreases self.fields().len() - i,
        {
            let column = self.field(i);
            let value = match find_member(row, column.name.as_str()) {
                Some(cell) => decode_cell(column.sql_type, cell),
                None => None,
            };
            match value {
                Some(datum) => {
                    values.push(datum);
                },
                None => {
                    return None;
                },
            }
            i += 1;
        }
        let made = Record::new(self, values);
        made
    }

    /// Decodes a result set into records of this type, or `None` where some
    /// row does not give a value to every field.
    pub fn decode_rows(&self, rows: &Vec<Row>) -> (decoded: Option<Vec<Record>>)
        requires
            self.wf(),
        ensures
            rows_decode(self.fields(), rows_view(rows@)) <==> decoded is Some,
            decoded matches Some(records) ==> records_of_rows(
                records@,
                self.fields(),
                rows_view(rows@),
            ),
    {
        let mut records: Vec<Record> = Vec::new();
        let mut r: usize = 0;
        while r < rows.len()
            invariant
                self.wf(),
                r <= rows.len(),
                records_of_rows(records@, self.fields(), rows_view(rows@).take(r as int)),
                rows_decode(self.fields(), rows_view(rows@).take(r as int)),
            decreases rows.len() - r,
        {
            proof {
                assert(rows_view(rows@)[r as int] == row_view(rows@[r as int]@));
            }
            match self.decode_row(&rows[r]) {
                Some(record) => {
                    records.push(record);
                },
                None => {
                    return None;
                },
            }
            r += 1;
        }
        assert(rows_view(rows@).take(rows@.len() as int) == rows_view(rows@));
        Some(records)
    }
}

} // verus!
