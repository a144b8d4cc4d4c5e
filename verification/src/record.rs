//! Records: flat, typed snapshots of one row each, and the mapping from raw
//! rows to them.

use crate::row::{
    check_row, integer_at, row_cells, row_fault, row_sound, rows_cells, text_at, ColumnKind,
    RowDecodeError, SqlCell, SqlValue,
};
use vstd::prelude::*;

verus! {

/// One promotional item of the home and about pages.
#[derive(Debug, PartialEq, Eq)]
pub struct LinkRecord {
    pub id: i32,
    pub codice: String,
    pub img: String,
    pub titolo: String,
    /// Flag that the template interprets.
    pub attivo: i32,
    pub descrizione: String,
    pub link: String,
    pub height: String,
    pub width: String,
}

/// Mathematical value of a [`LinkRecord`].
pub ghost struct LinkRecordView {
    pub id: int,
    pub codice: Seq<char>,
    pub img: Seq<char>,
    pub titolo: Seq<char>,
    pub attivo: int,
    pub descrizione: Seq<char>,
    pub link: Seq<char>,
    pub height: Seq<char>,
    pub width: Seq<char>,
}

impl View for LinkRecord {
    type V = LinkRecordView;

    open spec fn view(&self) -> LinkRecordView {
        LinkRecordView {
            id: self.id as int,
            codice: self.codice@,
            img: self.img@,
            titolo: self.titolo@,
            attivo: self.attivo as int,
            descrizione: self.descrizione@,
            link: self.link@,
            height: self.height@,
            width: self.width@,
        }
    }
}

/// One slide, selected by its `codice2`.
#[derive(Debug, PartialEq, Eq)]
pub struct SliderRecord {
    pub id: i64,
    pub codice: String,
    /// The key that the slider query filters by.
    pub codice2: String,
    pub img: String,
    pub titolo: String,
    pub caption: String,
    pub link: String,
    pub testo: String,
}

/// Mathematical value of a [`SliderRecord`].
pub ghost struct SliderRecordView {
    pub id: int,
    pub codice: Seq<char>,
    pub codice2: Seq<char>,
    pub img: Seq<char>,
    pub titolo: Seq<char>,
    pub caption: Seq<char>,
    pub link: Seq<char>,
    pub testo: Seq<char>,
}

impl View for SliderRecord {
    type V = SliderRecordView;

    open spec fn view(&self) -> SliderRecordView {
        SliderRecordView {
            id: self.id as int,
            codice: self.codice@,
            codice2: self.codice2@,
            img: self.img@,
            titolo: self.titolo@,
            caption: self.caption@,
            link: self.link@,
            testo: self.testo@,
        }
    }
}

/// A demonstration entity: a user with a name and a mail address.
#[derive(Debug, PartialEq, Eq)]
pub struct GenericEntityRecord {
    pub id: i64,
    pub nome: String,
    pub email: String,
}

/// Mathematical value of a [`GenericEntityRecord`].
pub ghost struct GenericEntityRecordView {
    pub id: int,
    pub nome: Seq<char>,
    pub email: Seq<char>,
}

impl View for GenericEntityRecord {
    type V = GenericEntityRecordView;

    open spec fn view(&self) -> GenericEntityRecordView {
        GenericEntityRecordView { id: self.id as int, nome: self.nome@, email: self.email@ }
    }
}

/// A record shape: the columns it is read from, in the order of the
/// `SELECT` list, and the field that each column fills.
pub trait Record: View + Sized {
    /// Kind of each column, in order.
    spec fn columns() -> Seq<ColumnKind>;

    /// The record that a sound row stands for.
    spec fn of_row(row: Seq<SqlCell>) -> Self::V;

    /// The row that a record is read back from.
    spec fn to_row(record: Self::V) -> Seq<SqlCell>;

    /// Kind of each column, in order.
    fn column_kinds() -> (kinds: Vec<ColumnKind>)
        ensures
            kinds@ == Self::columns(),
    ;

    /// Converts one row into one record, column by column. Fails on a row
    /// with another number of columns, or with a value that the field of its
    /// column cannot hold; the fault reported is that of the first such
    /// column.
    fn map_row(row: &Vec<SqlValue>) -> (r: Result<Self, RowDecodeError>)
        ensures
            r is Ok <==> row_sound(row_cells(row@), Self::columns()),
            r is Ok ==> r->Ok_0@ == Self::of_row(row_cells(row@)),
            r is Err ==> row_fault(row_cells(row@), Self::columns(), r->Err_0),
    ;
}

/// Columns of the links query: `id, codice, img, titolo, descrizione, link,
/// attivo, height, width`.
pub open spec fn link_columns() -> Seq<ColumnKind> {
    seq![
        ColumnKind::Int32,
        ColumnKind::Text,
        ColumnKind::Text,
        ColumnKind::Text,
        ColumnKind::Text,
        ColumnKind::Text,
        ColumnKind::Int32,
        ColumnKind::Text,
        ColumnKind::Text,
    ]
}

impl Record for LinkRecord {
    open spec fn columns() -> Seq<ColumnKind> {
        link_columns()
    }

    open spec fn of_row(row: Seq<SqlCell>) -> LinkRecordView {
        LinkRecordView {
            id: row[0]->Integer_0,
            codice: row[1]->Text_0,
            img: row[2]->Text_0,
            titolo: row[3]->Text_0,
            descrizione: row[4]->Text_0,
            link: row[5]->Text_0,
            attivo: row[6]->Integer_0,
            height: row[7]->Text_0,
            width: row[8]->Text_0,
        }
    }

    open spec fn to_row(record: LinkRecordView) -> Seq<SqlCell> {
        seq![
            SqlCell::Integer(record.id),
            SqlCell::Text(record.codice),
            SqlCell::Text(record.img),
            SqlCell::Text(record.titolo),
            SqlCell::Text(record.descrizione),
            SqlCell::Text(record.link),
            SqlCell::Integer(record.attivo),
            SqlCell::Text(record.height),
            SqlCell::Text(record.width),
        ]
    }

    fn column_kinds() -> (kinds: Vec<ColumnKind>) {
        let kinds = vec![
            ColumnKind::Int32,
            ColumnKind::Text,
            ColumnKind::Text,
            ColumnKind::Text,
            ColumnKind::Text,
            ColumnKind::Text,
            ColumnKind::Int32,
            ColumnKind::Text,
            ColumnKind::Text,
        ];
        assert(kinds@ =~= link_columns());
        kinds
    }

    fn map_row(row: &Vec<SqlValue>) -> (r: Result<LinkRecord, RowDecodeError>) {
        let kinds = Self::column_kinds();
        if let Some(fault) = check_row(row, &kinds) {
            return Err(fault);
        }
        proof {
            lemma_sound_cells(row@, link_columns());
        }
        let id = integer_at(row, 0);
        let attivo = integer_at(row, 6);
        Ok(
            LinkRecord {
                id: id as i32,
                codice: text_at(row, 1),
                img: text_at(row, 2),
                titolo: text_at(row, 3),
                descrizione: text_at(row, 4),
                link: text_at(row, 5),
                attivo: attivo as i32,
                height: text_at(row, 7),
                width: text_at(row, 8),
            },
        )
    }
}

/// Columns of the slider query: `id, codice, codice2, img, titolo, caption,
/// link, testo`.
pub open spec fn slider_columns() -> Seq<ColumnKind> {
    seq![
        ColumnKind::Int64,
        ColumnKind::Text,
        ColumnKind::Text,
        ColumnKind::Text,
        ColumnKind::Text,
        ColumnKind::Text,
        ColumnKind::Text,
        ColumnKind::Text,
    ]
}

impl Record for SliderRecord {
    open spec fn columns() -> Seq<ColumnKind> {
        slider_columns()
    }

    open spec fn of_row(row: Seq<SqlCell>) -> SliderRecordView {
        SliderRecordView {
            id: row[0]->Integer_0,
            codice: row[1]->Text_0,
            codice2: row[2]->Text_0,
            img: row[3]->Text_0,
            titolo: row[4]->Text_0,
            caption: row[5]->Text_0,
            link: row[6]->Text_0,
            testo: row[7]->Text_0,
        }
    }

    open spec fn to_row(record: SliderRecordView) -> Seq<SqlCell> {
        seq![
            SqlCell::Integer(record.id),
            SqlCell::Text(record.codice),
            SqlCell::Text(record.codice2),
            SqlCell::Text(record.img),
            SqlCell::Text(record.titolo),
            SqlCell::Text(record.caption),
            SqlCell::Text(record.link),
            SqlCell::Text(record.testo),
        ]
    }

    fn column_kinds() -> (kinds: Vec<ColumnKind>) {
        let kinds = vec![
            ColumnKind::Int64,
            ColumnKind::Text,
            ColumnKind::Text,
            ColumnKind::Text,
            ColumnKind::Text,
            ColumnKind::Text,
            ColumnKind::Text,
            ColumnKind::Text,
        ];
        assert(kinds@ =~= slider_columns());
        kinds
    }

    fn map_row(row: &Vec<SqlValue>) -> (r: Result<SliderRecord, RowDecodeError>) {
        let kinds = Self::column_kinds();
        if let Some(fault) = check_row(row, &kinds) {
            return Err(fault);
        }
        proof {
            lemma_sound_cells(row@, slider_columns());
        }
        Ok(
            SliderRecord {
                id: integer_at(row, 0),
                codice: text_at(row, 1),
                codice2: text_at(row, 2),
                img: text_at(row, 3),
                titolo: text_at(row, 4),
                caption: text_at(row, 5),
                link: text_at(row, 6),
                testo: text_at(row, 7),
            },
        )
    }
}

/// Columns of the users query: `id, nome, email`.
pub open spec fn entity_columns() -> Seq<ColumnKind> {
    seq![ColumnKind::Int64, ColumnKind::Text, ColumnKind::Text]
}

impl Record for GenericEntityRecord {
    open spec fn columns() -> Seq<ColumnKind> {
        entity_columns()
    }

    open spec fn of_row(row: Seq<SqlCell>) -> GenericEntityRecordView {
        GenericEntityRecordView {
            id: row[0]->Integer_0,
            nome: row[1]->Text_0,
            email: row[2]->Text_0,
        }
    }

    open spec fn to_row(record: GenericEntityRecordView) -> Seq<SqlCell> {
        seq![
            SqlCell::Integer(record.id),
            SqlCell::Text(record.nome),
            SqlCell::Text(record.email),
        ]
    }

    fn column_kinds() -> (kinds: Vec<ColumnKind>) {
        let kinds = vec![ColumnKind::Int64, ColumnKind::Text, ColumnKind::Text];
        assert(kinds@ =~= entity_columns());
        kinds
    }

    fn map_row(row: &Vec<SqlValue>) -> (r: Result<GenericEntityRecord, RowDecodeError>) {
        let kinds = Self::column_kinds();
        if let Some(fault) = check_row(row, &kinds) {
            return Err(fault);
        }
        proof {
            lemma_sound_cells(row@, entity_columns());
        }
        Ok(
            GenericEntityRecord {
                id: integer_at(row, 0),
                nome: text_at(row, 1),
                email: text_at(row, 2),
            },
        )
    }
}

/// In a sound row every column holds a value of its kind.
proof fn lemma_sound_cells(row: Seq<SqlValue>, shape: Seq<ColumnKind>)
    requires
        row_sound(row_cells(row), shape),
    ensures
        row.len() == shape.len(),
        forall|j: int|
            0 <= j < shape.len() ==> match #[trigger] shape[j] {
                ColumnKind::Int32 => row[j]@ is Integer && i32::MIN <= row[j]@->Integer_0
                    <= i32::MAX,
                ColumnKind::Int64 => row[j]@ is Integer,
                ColumnKind::Text => row[j]@ is Text,
            },
{
    let cells = row_cells(row);
    assert forall|j: int| 0 <= j < shape.len() implies match #[trigger] shape[j] {
        ColumnKind::Int32 => row[j]@ is Integer && i32::MIN <= row[j]@->Integer_0 <= i32::MAX,
        ColumnKind::Int64 => row[j]@ is Integer,
        ColumnKind::Text => row[j]@ is Text,
    } by {
        assert(crate::row::cell_fault(cells[j], shape[j], j) is None);
        assert(cells[j] == row[j]@);
    }
}

/// The views of a sequence of records.
pub open spec fn record_views<R: Record>(records: Seq<R>) -> Seq<R::V> {
    Seq::new(records.len(), |i: int| records[i]@)
}

/// The records that sound rows stand for, row by row.
pub open spec fn records_of_rows<R: Record>(rows: Seq<Seq<SqlCell>>) -> Seq<R::V> {
    Seq::new(rows.len(), |i: int| R::of_row(rows[i]))
}

/// Records that stand for rows do so index by index.
pub proof fn lemma_records_by_index<R: Record>(records: Seq<R>, rows: Seq<Seq<SqlCell>>)
    requires
        record_views(records) == records_of_rows::<R>(rows),
    ensures
        records.len() == rows.len(),
        forall|i: int| 0 <= i < records.len() ==> (#[trigger] records[i])@ == R::of_row(rows[i]),
{
    assert(record_views(records).len() == records.len());
    assert(records_of_rows::<R>(rows).len() == rows.len());
    assert forall|i: int| 0 <= i < records.len() implies (#[trigger] records[i])@ == R::of_row(
        rows[i],
    ) by {
        assert(record_views(records)[i] == records[i]@);
        assert(records_of_rows::<R>(rows)[i] == R::of_row(rows[i]));
    }
}

/// Every row before `upto` is sound for the record shape `R`.
pub open spec fn rows_sound_before<R: Record>(rows: Seq<Seq<SqlCell>>, upto: int) -> bool {
    forall|k: int| 0 <= k < upto ==> row_sound(#[trigger] rows[k], R::columns())
}

/// Every row is sound for the record shape `R`.
pub open spec fn rows_sound<R: Record>(rows: Seq<Seq<SqlCell>>) -> bool {
    rows_sound_before::<R>(rows, rows.len() as int)
}

/// `e` is the fault of the first row that is not sound.
pub open spec fn rows_fault<R: Record>(rows: Seq<Seq<SqlCell>>, e: RowDecodeError) -> bool {
    exists|k: int|
        0 <= k < rows.len() && rows_sound_before::<R>(rows, k) && row_fault(
            #[trigger] rows[k],
            R::columns(),
            e,
        )
}

/// Converts the rows of a result set into records, in the order of the
/// rows. The first row that cannot be converted fails the whole set: no row
/// is skipped and no field is defaulted.
pub fn decode_rows<R: Record>(rows: &Vec<Vec<SqlValue>>) -> (r: Result<Vec<R>, RowDecodeError>)
    ensures
        r is Ok <==> rows_sound::<R>(rows_cells(rows@)),
        r is Ok ==> record_views(r->Ok_0@) == records_of_rows::<R>(rows_cells(rows@)),
        r is Err ==> rows_fault::<R>(rows_cells(rows@), r->Err_0),
{
    let ghost cells = rows_cells(rows@);
    let mut records: Vec<R> = Vec::new();
    let mut i: usize = 0;
    while i < rows.len()
        invariant
            i <= rows.len(),
            cells == rows_cells(rows@),
            records.len() == i,
            rows_sound_before::<R>(cells, i as int),
            forall|k: int| 0 <= k < i ==> (#[trigger] records[k])@ == R::of_row(cells[k]),
        decreases rows.len() - i,
    {
        assert(cells[i as int] == row_cells(rows[i as int]@));
        match R::map_row(&rows[i]) {
            Ok(record) => {
                records.push(record);
            },
            Err(fault) => {
                return Err(fault);
            },
        }
        i += 1;
    }
    assert(record_views(records@) =~= records_of_rows::<R>(cells));
    Ok(records)
}

/// Reading a record back from the row it was written to gives the record.
pub proof fn lemma_link_round_trip(record: LinkRecordView)
    requires
        i32::MIN <= record.id <= i32::MAX,
        i32::MIN <= record.attivo <= i32::MAX,
    ensures
        row_sound(LinkRecord::to_row(record), link_columns()),
        LinkRecord::of_row(LinkRecord::to_row(record)) == record,
{
}

/// The fields of the record of a sound row of the links query are the
/// row's column values, in the order of the columns.
pub proof fn lemma_link_fields_are_columns(row: Seq<SqlCell>)
    requires
        row_sound(row, link_columns()),
    ensures
        LinkRecord::to_row(LinkRecord::of_row(row)) == row,
{
    assert forall|j: int| 0 <= j < 9 implies LinkRecord::to_row(LinkRecord::of_row(row))[j]
        == row[j] by {
        assert(crate::row::cell_fault(row[j], link_columns()[j], j) is None);
    }
    assert(LinkRecord::to_row(LinkRecord::of_row(row)) =~= row);
}

/// The fields of the record of a sound row of the slider query are the
/// row's column values, in the order of the columns.
pub proof fn lemma_slider_fields_are_columns(row: Seq<SqlCell>)
    requires
        row_sound(row, slider_columns()),
    ensures
        SliderRecord::to_row(SliderRecord::of_row(row)) == row,
{
    assert forall|j: int| 0 <= j < 8 implies SliderRecord::to_row(SliderRecord::of_row(row))[j]
        == row[j] by {
        assert(crate::row::cell_fault(row[j], slider_columns()[j], j) is None);
    }
    assert(SliderRecord::to_row(SliderRecord::of_row(row)) =~= row);
}

/// The fields of the record of a sound row of the users query are the
/// row's column values, in the order of the columns.
pub proof fn lemma_entity_fields_are_columns(row: Seq<SqlCell>)
    requires
        row_sound(row, entity_columns()),
    ensures
        GenericEntityRecord::to_row(GenericEntityRecord::of_row(row)) == row,
{
    assert forall|j: int| 0 <= j < 3 implies GenericEntityRecord::to_row(
        GenericEntityRecord::of_row(row),
    )[j] == row[j] by {
        assert(crate::row::cell_fault(row[j], entity_columns()[j], j) is None);
    }
    assert(GenericEntityRecord::to_row(GenericEntityRecord::of_row(row)) =~= row);
}

} // verus!
