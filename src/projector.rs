use vstd::prelude::*;
use crate::error::FdwError;
use crate::json::{field, Json, JsonValue};

verus! {

/// The type a caller asks of a column.
#[derive(Debug, Clone, Copy, PartialEq, Eq, Structural)]
pub enum ColumnType {
    Bool,
    String,
    Timestamp,
    Json,
    Unsupported,
}

/// One requested output column.
#[derive(Debug, Clone, PartialEq)]
pub struct ColumnRequest {
    pub name: String,
    pub declared_type: ColumnType,
}

/// One typed output cell. A timestamp carries its RFC 3339 text; a document
/// column carries the JSON object itself.
#[derive(Debug, PartialEq)]
pub enum Cell {
    Bool(bool),
    String(String),
    Timestamp(String),
    Json(JsonValue),
}

pub ghost enum CellModel {
    Bool(bool),
    String(Seq<char>),
    Timestamp(Seq<char>),
    Json(Json),
}

impl Cell {
    pub open spec fn model(&self) -> CellModel {
        match self {
            Cell::Bool(b) => CellModel::Bool(*b),
            Cell::String(s) => CellModel::String(s@),
            Cell::Timestamp(s) => CellModel::Timestamp(s@),
            Cell::Json(v) => CellModel::Json(v.model()),
        }
    }
}

pub open spec fn cell_model(c: Option<Cell>) -> Option<CellModel> {
    match c {
        Some(c) => Some(c.model()),
        None => None,
    }
}

pub open spec fn row_model(row: Seq<Option<Cell>>) -> Seq<Option<CellModel>> {
    row.map_values(|c: Option<Cell>| cell_model(c))
}

/// The cell a value gives under a supported column type: null when the value
/// is not of the kind that the type reads.
pub open spec fn cell_of(v: Json, t: ColumnType) -> Option<CellModel> {
    match (t, v) {
        (ColumnType::Bool, Json::Bool(b)) => Some(CellModel::Bool(b)),
        (ColumnType::String, Json::Str(s)) => Some(CellModel::String(s)),
        (ColumnType::Timestamp, Json::Str(s)) => Some(CellModel::Timestamp(s)),
        (ColumnType::Json, Json::Object(_)) => Some(CellModel::Json(v)),
        _ => None,
    }
}

/// A record projected onto the requested columns, one cell per column in
/// order; the first column that is absent or of an unsupported type fails it.
pub open spec fn projection(record: Json, cols: Seq<ColumnRequest>) -> Result<
    Seq<Option<CellModel>>,
    FdwError,
>
    decreases cols.len(),
{
    if cols.len() == 0 {
        Ok(Seq::empty())
    } else {
        match projection(record, cols.drop_last()) {
            Err(e) => Err(e),
            Ok(cells) => {
                let c = cols.last();
                match field(record, c.name@) {
                    None => Err(FdwError::MissingField(c.name)),
                    Some(v) => if c.declared_type == ColumnType::Unsupported {
                        Err(FdwError::UnsupportedType(c.name))
                    } else {
                        Ok(cells.push(cell_of(v, c.declared_type)))
                    },
                }
            },
        }
    }
}

/// Once a prefix of the columns fails, every longer prefix fails the same way.
proof fn lemma_projection_error_prefix(record: Json, cols: Seq<ColumnRequest>, k: int, j: int)
    requires
        0 <= k <= j <= cols.len(),
        projection(record, cols.take(k)) is Err,
    ensures
        projection(record, cols.take(j)) == projection(record, cols.take(k)),
    decreases j - k,
{
    if j > k {
        lemma_projection_error_prefix(record, cols, k, j - 1);
        assert(cols.take(j).drop_last() =~= cols.take(j - 1));
    }
}

/// Converts one value under a supported column type.
fn convert(v: &JsonValue, t: ColumnType) -> (r: Option<Cell>)
    requires
        t != ColumnType::Unsupported,
    ensures
        cell_model(r) == cell_of(v.model(), t),
{
    match (t, v) {
        (ColumnType::Bool, JsonValue::Bool(b)) => Some(Cell::Bool(*b)),
        (ColumnType::String, JsonValue::Str(s)) => Some(Cell::String(s.clone())),
        (ColumnType::Timestamp, JsonValue::Str(s)) => Some(Cell::Timestamp(s.clone())),
        (ColumnType::Json, JsonValue::Object(_)) => Some(Cell::Json(v.copy_value())),
        _ => None,
    }
}

/// Projects one record onto the requested columns.
pub fn project(record: &JsonValue, columns: &Vec<ColumnRequest>) -> (r: Result<
    Vec<Option<Cell>>,
    FdwError,
>)
    ensures
        match r {
            Ok(row) => projection(record.model(), columns@) == Ok::<_, FdwError>(row_model(row@)),
            Err(e) => projection(record.model(), columns@) == Err::<Seq<Option<CellModel>>, _>(e),
        },
{
    let mut row: Vec<Option<Cell>> = Vec::new();
    let mut i: usize = 0;
    assert(row_model(row@) =~= Seq::empty());
    assert(columns@.take(0) =~= Seq::empty());
    while i < columns.len()
        invariant
            i <= columns.len(),
            projection(record.model(), columns@.take(i as int)) == Ok::<_, FdwError>(
                row_model(row@),
            ),
        decreases columns.len() - i,
    {
        let col = &columns[i];
        assert(columns@.take(i + 1).drop_last() =~= columns@.take(i as int));
        assert(columns@.take(i + 1).last() == columns@[i as int]);
        match record.get(&col.name) {
            None => {
                proof {
                    lemma_projection_error_prefix(record.model(), columns@, i + 1, columns.len() as int);
                    assert(columns@.take(columns.len() as int) =~= columns@);
                }
                return Err(FdwError::MissingField(col.name.clone()));
            },
            Some(v) => {
                if col.declared_type == ColumnType::Unsupported {
                    proof {
                        lemma_projection_error_prefix(record.model(), columns@, i + 1, columns.len() as int);
                        assert(columns@.take(columns.len() as int) =~= columns@);
                    }
                    return Err(FdwError::UnsupportedType(col.name.clone()));
                }
                let cell = convert(v, col.declared_type);
                let ghost old_row = row@;
                row.push(cell);
                assert(row_model(row@) =~= row_model(old_row).push(cell_of(v.model(), col.declared_type)));
            },
        }
        i = i + 1;
    }
    assert(columns@.take(i as int) =~= columns@);
    Ok(row)
}

} // verus!
