use site_pages::record::{decode_rows, GenericEntityRecord, LinkRecord, Record, SliderRecord};
use site_pages::row::{check_cell, check_row, ColumnKind, RowDecodeError, SqlValue};

fn text(s: &str) -> SqlValue {
    SqlValue::Text(s.to_string())
}

fn link_row(id: i64, titolo: &str, attivo: i64) -> Vec<SqlValue> {
    vec![
        SqlValue::Integer(id),
        text("cod"),
        text("/static/a.png"),
        text(titolo),
        text("descr"),
        text("https://example.com"),
        SqlValue::Integer(attivo),
        text("100"),
        text("200"),
    ]
}

#[test]
fn link_fields_are_the_columns_in_declared_order() {
    let row = vec![
        SqlValue::Integer(7),
        text("c1"),
        text("img.png"),
        text("Titolo"),
        text("Descrizione"),
        text("https://a.example"),
        SqlValue::Integer(1),
        text("30px"),
        text("40px"),
    ];
    let record = LinkRecord::map_row(&row).unwrap();
    assert_eq!(
        record,
        LinkRecord {
            id: 7,
            codice: "c1".to_string(),
            img: "img.png".to_string(),
            titolo: "Titolo".to_string(),
            attivo: 1,
            descrizione: "Descrizione".to_string(),
            link: "https://a.example".to_string(),
            height: "30px".to_string(),
            width: "40px".to_string(),
        }
    );
}

#[test]
fn link_id_at_the_ends_of_its_range() {
    let low = LinkRecord::map_row(&link_row(-2147483648, "t", 0)).unwrap();
    assert_eq!(low.id, i32::MIN);
    let high = LinkRecord::map_row(&link_row(2147483647, "t", 2147483647)).unwrap();
    assert_eq!(high.id, i32::MAX);
    assert_eq!(high.attivo, i32::MAX);
}

#[test]
fn link_id_beyond_its_range_is_refused() {
    assert_eq!(
        LinkRecord::map_row(&link_row(2147483648, "t", 0)),
        Err(RowDecodeError::OutOfRange { column: 0, value: 2147483648 })
    );
    assert_eq!(
        LinkRecord::map_row(&link_row(1, "t", -2147483649)),
        Err(RowDecodeError::OutOfRange { column: 6, value: -2147483649 })
    );
}

#[test]
fn null_where_text_is_expected_is_refused() {
    let mut row = link_row(1, "t", 1);
    row[3] = SqlValue::Null;
    assert_eq!(LinkRecord::map_row(&row), Err(RowDecodeError::InvalidType { column: 3 }));
}

#[test]
fn text_where_an_integer_is_expected_is_refused() {
    let mut row = link_row(1, "t", 1);
    row[0] = text("1");
    assert_eq!(LinkRecord::map_row(&row), Err(RowDecodeError::InvalidType { column: 0 }));
}

#[test]
fn real_and_blob_are_never_coerced() {
    let mut row = link_row(1, "t", 1);
    row[6] = SqlValue::Real(1.0f64.to_bits());
    assert_eq!(LinkRecord::map_row(&row), Err(RowDecodeError::InvalidType { column: 6 }));
    let mut row = link_row(1, "t", 1);
    row[8] = SqlValue::Blob(vec![b'2', b'0']);
    assert_eq!(LinkRecord::map_row(&row), Err(RowDecodeError::InvalidType { column: 8 }));
}

#[test]
fn the_first_faulty_column_is_reported() {
    let mut row = link_row(1, "t", 1);
    row[2] = SqlValue::Integer(5);
    row[5] = SqlValue::Null;
    row[6] = SqlValue::Integer(1 << 40);
    assert_eq!(LinkRecord::map_row(&row), Err(RowDecodeError::InvalidType { column: 2 }));
}

#[test]
fn a_row_with_another_number_of_columns_is_refused() {
    let mut short = link_row(1, "t", 1);
    short.pop();
    assert_eq!(
        LinkRecord::map_row(&short),
        Err(RowDecodeError::ColumnCount { expected: 9, found: 8 })
    );
    let mut long = link_row(1, "t", 1);
    long.push(SqlValue::Null);
    assert_eq!(
        LinkRecord::map_row(&long),
        Err(RowDecodeError::ColumnCount { expected: 9, found: 10 })
    );
    assert_eq!(
        SliderRecord::map_row(&Vec::new()),
        Err(RowDecodeError::ColumnCount { expected: 8, found: 0 })
    );
}

#[test]
fn slider_fields_are_the_columns_in_declared_order() {
    let row = vec![
        SqlValue::Integer(5_000_000_000),
        text("s1"),
        text("lasala"),
        text("sala.jpg"),
        text("La sala"),
        text("Una didascalia"),
        text("/sala"),
        text("Testo lungo"),
    ];
    assert_eq!(
        SliderRecord::map_row(&row),
        Ok(SliderRecord {
            id: 5_000_000_000,
            codice: "s1".to_string(),
            codice2: "lasala".to_string(),
            img: "sala.jpg".to_string(),
            titolo: "La sala".to_string(),
            caption: "Una didascalia".to_string(),
            link: "/sala".to_string(),
            testo: "Testo lungo".to_string(),
        })
    );
}

#[test]
fn entity_fields_are_the_columns_in_declared_order() {
    let row = vec![SqlValue::Integer(1), text("Mario Rossi"), text("mario@example.com")];
    assert_eq!(
        GenericEntityRecord::map_row(&row),
        Ok(GenericEntityRecord {
            id: 1,
            nome: "Mario Rossi".to_string(),
            email: "mario@example.com".to_string(),
        })
    );
    let row = vec![SqlValue::Integer(1), SqlValue::Null, text("mario@example.com")];
    assert_eq!(
        GenericEntityRecord::map_row(&row),
        Err(RowDecodeError::InvalidType { column: 1 })
    );
}

#[test]
fn column_kinds_follow_the_select_lists() {
    assert_eq!(LinkRecord::column_kinds().len(), 9);
    assert_eq!(LinkRecord::column_kinds()[0], ColumnKind::Int32);
    assert_eq!(LinkRecord::column_kinds()[6], ColumnKind::Int32);
    assert_eq!(LinkRecord::column_kinds()[8], ColumnKind::Text);
    assert_eq!(SliderRecord::column_kinds().len(), 8);
    assert_eq!(SliderRecord::column_kinds()[0], ColumnKind::Int64);
    assert_eq!(
        GenericEntityRecord::column_kinds(),
        vec![ColumnKind::Int64, ColumnKind::Text, ColumnKind::Text]
    );
}

#[test]
fn check_cell_by_kind() {
    assert_eq!(check_cell(&SqlValue::Integer(3), ColumnKind::Int32, 4), None);
    assert_eq!(check_cell(&SqlValue::Integer(1 << 33), ColumnKind::Int64, 4), None);
    assert_eq!(
        check_cell(&SqlValue::Integer(1 << 33), ColumnKind::Int32, 4),
        Some(RowDecodeError::OutOfRange { column: 4, value: 1 << 33 })
    );
    assert_eq!(check_cell(&text(""), ColumnKind::Text, 0), None);
    assert_eq!(
        check_cell(&SqlValue::Null, ColumnKind::Int64, 2),
        Some(RowDecodeError::InvalidType { column: 2 })
    );
}

#[test]
fn check_row_finds_no_fault_in_a_sound_row() {
    let kinds = vec![ColumnKind::Int64, ColumnKind::Text];
    assert_eq!(check_row(&vec![SqlValue::Integer(1), text("a")], &kinds), None);
    assert_eq!(
        check_row(&vec![text("a"), SqlValue::Integer(1)], &kinds),
        Some(RowDecodeError::InvalidType { column: 0 })
    );
    assert_eq!(check_row(&Vec::new(), &Vec::new()), None);
}

#[test]
fn rows_become_records_in_row_order() {
    let rows = vec![link_row(2, "secondo", 0), link_row(1, "primo", 1), link_row(3, "terzo", 2)];
    let records: Vec<LinkRecord> = decode_rows(&rows).unwrap();
    let titles: Vec<&str> = records.iter().map(|r| r.titolo.as_str()).collect();
    assert_eq!(titles, vec!["secondo", "primo", "terzo"]);
    let ids: Vec<i32> = records.iter().map(|r| r.id).collect();
    assert_eq!(ids, vec![2, 1, 3]);
}

#[test]
fn no_rows_give_no_records() {
    let records: Vec<SliderRecord> = decode_rows(&Vec::new()).unwrap();
    assert!(records.is_empty());
}

#[test]
fn a_faulty_row_fails_the_whole_set() {
    let mut bad = link_row(2, "rotto", 0);
    bad[4] = SqlValue::Null;
    let mut worse = link_row(3, "rotto", 0);
    worse[1] = SqlValue::Null;
    let rows = vec![link_row(1, "primo", 1), bad, worse];
    let outcome: Result<Vec<LinkRecord>, RowDecodeError> = decode_rows(&rows);
    assert_eq!(outcome, Err(RowDecodeError::InvalidType { column: 4 }));
}
