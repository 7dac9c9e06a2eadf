//! Result sets in JSON, as the remote service returns them: an array of
//! objects, one object for each row, one member for each column.

use crate::text::same_text;
use serde_json::Value;
use vstd::prelude::*;

verus! {

/// The value of one member of a row.
#[derive(Clone, Debug, PartialEq, Eq)]
pub enum Cell {
    /// `null`.
    Null,
    /// `true` or `false`.
    Bool(bool),
    /// A number: its value where it is an integer of 64 bits, else `None`.
    Number(Option<i64>),
    /// A string.
    Text(String),
    /// An array, whatever it holds.
    Array,
    /// An object, whatever it holds.
    Object,
}

/// A row: its members, each a name and a value.
pub type Row = Vec<(String, Cell)>;

/// The value of a member, with texts as character sequences.
pub enum CellView {
    Null,
    Bool(bool),
    Number(Option<i64>),
    Text(Seq<char>),
    Array,
    Object,
}

impl View for Cell {
    type V = CellView;

    open spec fn view(&self) -> CellView {
        match self {
            Cell::Null => CellView::Null,
            Cell::Bool(b) => CellView::Bool(*b),
            Cell::Number(n) => CellView::Number(*n),
            Cell::Text(text) => CellView::Text(text@),
            Cell::Array => CellView::Array,
            Cell::Object => CellView::Object,
        }
    }
}

/// A row, with texts as character sequences.
pub type RowView = Seq<(Seq<char>, CellView)>;

/// The view of a row: the views of its members, in their order.
pub open spec fn row_view(row: Seq<(String, Cell)>) -> RowView {
    Seq::new(row.len(), |i: int| (row[i].0@, row[i].1@))
}

/// The views of the rows, in their order.
pub open spec fn rows_view(rows: Seq<Row>) -> Seq<RowView> {
    Seq::new(rows.len(), |i: int| row_view(rows[i]@))
}

/// What `serde_json::from_str` makes of a text that is read as an array of
/// objects: the rows, or the description of the error that it reports.
pub uninterp spec fn rows_of(text: Seq<char>) -> Result<Seq<RowView>, Seq<char>>;

/// Parses a text with `serde_json::from_str`, as a vector of
/// `serde_json::Map<String, Value>`, and hands each map out by its members
/// as `Map::iter` yields them, each value by its variant, a number by
/// `Number::as_i64`. The contract gives the outcome a name, [`rows_of`], and
/// claims only that it depends on the text alone.
#[verifier::external_body]
fn from_str(text: &str) -> (parsed: Result<Vec<Row>, String>)
    ensures
        match parsed {
            Ok(rows) => rows_of(text@) == Ok::<Seq<RowView>, Seq<char>>(rows_view(rows@)),
            Err(error) => rows_of(text@) == Err::<Seq<RowView>, Seq<char>>(error@),
        },
{
    let cell = |value: &Value| match value {
        Value::Null => Cell::Null,
        Value::Bool(b) => Cell::Bool(*b),
        Value::Number(n) => Cell::Number(n.as_i64()),
        Value::String(s) => Cell::Text(s.clone()),
        Value::Array(_) => Cell::Array,
        Value::Object(_) => Cell::Object,
    };
    match serde_json::from_str::<Vec<serde_json::Map<String, Value>>>(text) {
        Ok(rows) => Ok(
            rows.iter().map(|r| r.iter().map(|(k, v)| (k.clone(), cell(v))).collect()).collect(),
        ),
        Err(error) => Err(error.to_string()),
    }
}

/// Parses a result set: a JSON array of objects.
pub fn parse_rows(text: &str) -> (parsed: Result<Vec<Row>, String>)
    ensures
        match parsed {
            Ok(rows) => rows_of(text@) == Ok::<Seq<RowView>, Seq<char>>(rows_view(rows@)),
            Err(error) => rows_of(text@) == Err::<Seq<RowView>, Seq<char>>(error@),
        },
{
    from_str(text)
}

/// The value of the member called `name`: that of the first such member.
pub open spec fn member(row: RowView, name: Seq<char>) -> Option<CellView>
    decreases row.len(),
{
    if row.len() == 0 {
        None
    } else if row[0].0 == name {
        Some(row[0].1)
    } else {
        member(row.drop_first(), name)
    }
}

/// Looks a member of a row up by its name.
pub fn find_member<'a>(row: &'a Row, name: &str) -> (found: Option<&'a Cell>)
    ensures
        match found {
            Some(value) => member(row_view(row@), name@) == Some(value@),
            None => member(row_view(row@), name@) is None,
        },
{
    let mut i: usize = 0;
    assert(row_view(row@).skip(0) == row_view(row@));
    while i < row.len()
        invariant
            i <= row.len(),
            member(row_view(row@), name@) == member(row_view(row@).skip(i as int), name@),
        decreases row.len() - i,
    {
        let ghost rest = row_view(row@).skip(i as int);
        proof {
            assert(rest.drop_first() == row_view(row@).skip(i as int + 1));
        }
        if same_text(row[i].0.as_str(), name) {
            return Some(&row[i].1);
        }
        i += 1;
    }
    None
}

} // verus!
