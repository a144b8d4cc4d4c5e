//! Raw rows: what a query hands back before any record is made of it.

use vstd::prelude::*;

verus! {

/// One column value of a result row, in the engine's native type.
#[derive(Debug, PartialEq, Eq)]
pub enum SqlValue {
    Null,
    Integer(i64),
    /// A floating point value, held as its IEEE 754 bit pattern.
    Real(u64),
    Text(String),
    Blob(Vec<u8>),
}

/// Mathematical value of a [`SqlValue`].
pub ghost enum SqlCell {
    Null,
    Integer(int),
    Real(u64),
    Text(Seq<char>),
    Blob(Seq<u8>),
}

impl View for SqlValue {
    type V = SqlCell;

    open spec fn view(&self) -> SqlCell {
        match *self {
            SqlValue::Null => SqlCell::Null,
            SqlValue::Integer(i) => SqlCell::Integer(i as int),
            SqlValue::Real(bits) => SqlCell::Real(bits),
            SqlValue::Text(s) => SqlCell::Text(s@),
            SqlValue::Blob(b) => SqlCell::Blob(b@),
        }
    }
}

/// The cells of a row, column by column.
pub open spec fn row_cells(row: Seq<SqlValue>) -> Seq<SqlCell> {
    Seq::new(row.len(), |i: int| row[i]@)
}

/// The rows of a result set, each as its cells.
pub open spec fn rows_cells(rows: Seq<Vec<SqlValue>>) -> Seq<Seq<SqlCell>> {
    Seq::new(rows.len(), |i: int| row_cells(rows[i]@))
}

/// Target type of one column of a record.
#[derive(Debug, Clone, Copy, PartialEq, Eq, Structural)]
pub enum ColumnKind {
    /// An integer that fits in 32 bits.
    Int32,
    /// An integer of the engine's native width.
    Int64,
    /// A text string.
    Text,
}

/// Why a row could not become a record.
#[derive(Debug, Clone, Copy, PartialEq, Eq, Structural)]
pub enum RowDecodeError {
    /// The row does not have the number of columns that the record declares.
    ColumnCount { expected: usize, found: usize },
    /// The column holds a value of another type than the field (a `NULL`
    /// where text is expected, text where an integer is expected).
    InvalidType { column: usize },
    /// The column holds an integer that the field's type cannot hold.
    OutOfRange { column: usize, value: i64 },
}

/// What is wrong with `cell` as the value of column `column` of kind
/// `kind`, if anything.
pub open spec fn cell_fault(cell: SqlCell, kind: ColumnKind, column: int) -> Option<
    RowDecodeError,
> {
    match (kind, cell) {
        (ColumnKind::Int32, SqlCell::Integer(i)) => if i32::MIN <= i <= i32::MAX {
            None
        } else {
            Some(RowDecodeError::OutOfRange { column: column as usize, value: i as i64 })
        },
        (ColumnKind::Int64, SqlCell::Integer(_)) => None,
        (ColumnKind::Text, SqlCell::Text(_)) => None,
        _ => Some(RowDecodeError::InvalidType { column: column as usize }),
    }
}

/// Every column before `upto` holds a value of its kind.
pub open spec fn sound_before(row: Seq<SqlCell>, shape: Seq<ColumnKind>, upto: int) -> bool {
    forall|j: int| 0 <= j < upto ==> (#[trigger] cell_fault(row[j], shape[j], j)) is None
}

/// The row has the columns of `shape`, each with a value of its kind.
pub open spec fn row_sound(row: Seq<SqlCell>, shape: Seq<ColumnKind>) -> bool {
    row.len() == shape.len() && sound_before(row, shape, shape.len() as int)
}

/// The fault that decoding `row` against `shape` reports: a wrong number of
/// columns, else the fault of the first column that has one.
pub open spec fn row_fault(row: Seq<SqlCell>, shape: Seq<ColumnKind>, e: RowDecodeError) -> bool {
    if row.len() != shape.len() {
        e == (RowDecodeError::ColumnCount {
            expected: shape.len() as usize,
            found: row.len() as usize,
        })
    } else {
        exists|i: int|
            0 <= i < shape.len() && sound_before(row, shape, i) && #[trigger] cell_fault(
                row[i],
                shape[i],
                i,
            ) == Some(e)
    }
}

/// A sound row has no fault, and a row has at most one.
pub proof fn lemma_row_fault_unique(
    row: Seq<SqlCell>,
    shape: Seq<ColumnKind>,
    e1: RowDecodeError,
    e2: RowDecodeError,
)
    requires
        row_fault(row, shape, e1),
    ensures
        !row_sound(row, shape),
        row_fault(row, shape, e2) ==> e1 == e2,
{
    if row.len() == shape.len() {
        let i = choose|i: int|
            0 <= i < shape.len() && sound_before(row, shape, i) && #[trigger] cell_fault(
                row[i],
                shape[i],
                i,
            ) == Some(e1);
        assert(cell_fault(row[i], shape[i], i) is Some);
        if row_fault(row, shape, e2) {
            let k = choose|k: int|
                0 <= k < shape.len() && sound_before(row, shape, k) && #[trigger] cell_fault(
                    row[k],
                    shape[k],
                    k,
                ) == Some(e2);
            if i < k {
                assert(cell_fault(row[i], shape[i], i) is None);
            }
            if k < i {
                assert(cell_fault(row[k], shape[k], k) is None);
            }
        }
    }
}

/// Checks one value against the kind of its column.
pub fn check_cell(value: &SqlValue, kind: ColumnKind, column: usize) -> (r: Option<RowDecodeError>)
    ensures
        r == cell_fault(value@, kind, column as int),
{
    match kind {
        ColumnKind::Int32 => match value {
            SqlValue::Integer(i) => {
                if -2147483648 <= *i && *i <= 2147483647 {
                    None
                } else {
                    Some(RowDecodeError::OutOfRange { column, value: *i })
                }
            },
            _ => Some(RowDecodeError::InvalidType { column }),
        },
        ColumnKind::Int64 => match value {
            SqlValue::Integer(_) => None,
            _ => Some(RowDecodeError::InvalidType { column }),
        },
        ColumnKind::Text => match value {
            SqlValue::Text(_) => None,
            _ => Some(RowDecodeError::InvalidType { column }),
        },
    }
}

/// Checks a row against the columns that a record declares, in column
/// order, and reports the first fault.
pub fn check_row(row: &Vec<SqlValue>, shape: &Vec<ColumnKind>) -> (r: Option<RowDecodeError>)
    ensures
        r is None <==> row_sound(row_cells(row@), shape@),
        r is Some ==> row_fault(row_cells(row@), shape@, r->0),
{
    if row.len() != shape.len() {
        return Some(RowDecodeError::ColumnCount { expected: shape.len(), found: row.len() });
    }
    let mut i: usize = 0;
    while i < shape.len()
        invariant
            row.len() == shape.len(),
            i <= shape.len(),
            sound_before(row_cells(row@), shape@, i as int),
        decreases shape.len() - i,
    {
        let fault = check_cell(&row[i], shape[i], i);
        assert(row_cells(row@)[i as int] == row[i as int]@);
        if fault.is_some() {
            assert(cell_fault(row_cells(row@)[i as int], shape@[i as int], i as int) == fault);
            return fault;
        }
        i += 1;
    }
    None
}

/// The integer in a column that holds one.
pub(crate) fn integer_at(row: &Vec<SqlValue>, column: usize) -> (v: i64)
    requires
        column < row.len(),
        row[column as int]@ is Integer,
    ensures
        row[column as int]@ == SqlCell::Integer(v as int),
{
    match &row[column] {
        SqlValue::Integer(i) => *i,
        _ => 0,
    }
}

/// A copy of the text in a column that holds text.
pub(crate) fn text_at(row: &Vec<SqlValue>, column: usize) -> (s: String)
    requires
        column < row.len(),
        row[column as int]@ is Text,
    ensures
        row[column as int]@ == SqlCell::Text(s@),
{
    match &row[column] {
        SqlValue::Text(s) => s.clone(),
        _ => String::new(),
    }
}

} // verus!
