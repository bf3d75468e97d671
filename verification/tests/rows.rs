use shortener::metrics::{Coordinate, GeoPoint, Metric, WGS84_SRID};
use shortener::rows::{
    build_row, columns, decimal_text, owner_tag, prepare_rows, Cell, Column, ColumnType,
    COLUMN_COUNT, COPY_STMT, ROW_ID_LENGTH,
};

fn bits(degrees: f64) -> Coordinate {
    Coordinate { bits: degrees.to_bits() }
}

fn full_event() -> Metric {
    Metric {
        visitor_id: "v-1".to_string(),
        shorthand_id: "AbC123Xy".to_string(),
        created_at: 1_700_000_000_123_456_789,
        url: "https://example.com".to_string(),
        ip: "203.0.113.7".to_string(),
        android: Some(true),
        ios: Some(false),
        mobile: None,
        region_name: Some("Bavaria".to_string()),
        country: Some("DE".to_string()),
        city: Some("Munich".to_string()),
        zip_code: Some("80331".to_string()),
        time_zone: Some("Europe/Berlin".to_string()),
        user_agent: Some("curl/8.0".to_string()),
        longitude: Some(bits(11.5755)),
        latitude: Some(bits(48.1374)),
    }
}

fn bare_event() -> Metric {
    Metric {
        visitor_id: "v-2".to_string(),
        shorthand_id: "zzzzzzzz".to_string(),
        created_at: 0,
        url: "https://example.org".to_string(),
        ip: "::1".to_string(),
        android: None,
        ios: None,
        mobile: None,
        region_name: None,
        country: None,
        city: None,
        zip_code: None,
        time_zone: None,
        user_agent: None,
        longitude: None,
        latitude: None,
    }
}

fn text(value: &str) -> Cell {
    Cell::Text(Some(value.to_string()))
}

#[test]
fn schema_has_seventeen_columns_in_the_fixed_order() {
    let required_text = Column { kind: ColumnType::Text, nullable: false };
    let optional_text = Column { kind: ColumnType::Text, nullable: true };
    let optional_bool = Column { kind: ColumnType::Bool, nullable: true };
    assert_eq!(COLUMN_COUNT, 17);
    assert_eq!(
        columns(),
        vec![
            required_text,
            required_text,
            required_text,
            required_text,
            required_text,
            optional_bool,
            optional_bool,
            optional_bool,
            optional_text,
            optional_text,
            optional_text,
            optional_text,
            optional_text,
            optional_text,
            required_text,
            Column { kind: ColumnType::TimestampTz, nullable: false },
            Column { kind: ColumnType::Geography, nullable: true },
        ]
    );
}

#[test]
fn copy_statement_names_one_column_per_schema_column() {
    let open = COPY_STMT.find('(').unwrap();
    let close = COPY_STMT.find(')').unwrap();
    let names: Vec<&str> = COPY_STMT[open + 1..close].split(',').map(|name| name.trim()).collect();
    assert_eq!(names.len(), COLUMN_COUNT);
    assert_eq!(names[0], "id");
    assert_eq!(names[15], "created_at");
    assert_eq!(names[16], "location");
    assert!(COPY_STMT.starts_with("COPY metrics ("));
    assert!(COPY_STMT.ends_with(") FROM STDIN BINARY"));
}

#[test]
fn row_of_a_full_event() {
    let row = build_row("row-id".to_string(), "42".to_string(), &full_event());
    assert_eq!(
        row,
        vec![
            text("row-id"),
            text("AbC123Xy"),
            text("42"),
            text("https://example.com"),
            text("203.0.113.7"),
            Cell::Bool(Some(true)),
            Cell::Bool(Some(false)),
            Cell::Bool(None),
            text("Bavaria"),
            text("DE"),
            text("Munich"),
            text("80331"),
            text("Europe/Berlin"),
            text("curl/8.0"),
            text("v-1"),
            Cell::Timestamp(1_700_000_000_123_456_789),
            Cell::Point(Some(GeoPoint {
                longitude: bits(11.5755),
                latitude: bits(48.1374),
                srid: 4326,
            })),
        ]
    );
}

#[test]
fn row_of_a_bare_event_has_nulls() {
    let row = build_row("id".to_string(), "1".to_string(), &bare_event());
    assert_eq!(row.len(), 17);
    assert_eq!(row[5], Cell::Bool(None));
    assert_eq!(row[6], Cell::Bool(None));
    assert_eq!(row[7], Cell::Bool(None));
    for index in 8..14 {
        assert_eq!(row[index], Cell::Text(None));
    }
    assert_eq!(row[14], text("v-2"));
    assert_eq!(row[15], Cell::Timestamp(0));
    assert_eq!(row[16], Cell::Point(None));
}

#[test]
fn location_needs_both_coordinates() {
    assert_eq!(WGS84_SRID, 4326);
    let mut event = full_event();
    let point = event.location().unwrap();
    assert_eq!(point.srid, 4326);
    assert_eq!(f64::from_bits(point.longitude.bits), 11.5755);
    assert_eq!(f64::from_bits(point.latitude.bits), 48.1374);

    event.latitude = None;
    assert_eq!(event.location(), None);
    assert_eq!(build_row(String::new(), String::new(), &event)[16], Cell::Point(None));

    event.latitude = Some(bits(48.1374));
    event.longitude = None;
    assert_eq!(event.location(), None);

    event.latitude = None;
    assert_eq!(event.location(), None);
}

#[test]
fn location_keeps_the_coordinates_bit_for_bit() {
    let mut event = bare_event();
    for (lng, lat) in [(0.0, 0.0), (-180.0, 90.0), (179.999999, -89.999999), (-0.0, 1e-300)] {
        event.longitude = Some(bits(lng));
        event.latitude = Some(bits(lat));
        let point = event.location().unwrap();
        assert_eq!(point.longitude.bits, lng.to_bits());
        assert_eq!(point.latitude.bits, lat.to_bits());
    }
}

#[test]
fn decimal_text_of_numbers() {
    assert_eq!(decimal_text(0), "0");
    assert_eq!(decimal_text(7), "7");
    assert_eq!(decimal_text(10), "10");
    assert_eq!(decimal_text(42), "42");
    assert_eq!(decimal_text(99), "99");
    assert_eq!(decimal_text(100), "100");
    assert_eq!(decimal_text(1_000_000), "1000000");
    assert_eq!(decimal_text(u32::MAX), "4294967295");
}

#[test]
fn owner_tags_are_numbers_from_one_to_ninety_nine() {
    let mut seen = std::collections::BTreeSet::new();
    for _ in 0..500 {
        let tag = owner_tag();
        let number: u32 = tag.parse().unwrap();
        assert!(1 <= number && number < 100, "{}", tag);
        assert_eq!(tag, number.to_string());
        seen.insert(number);
    }
    assert!(seen.len() > 1);
}

#[test]
fn prepared_rows_follow_the_batch() {
    let batch = vec![full_event(), bare_event(), full_event()];
    let rows = prepare_rows(&batch);
    assert_eq!(rows.len(), 3);
    for (row, event) in rows.iter().zip(batch.iter()) {
        let (id, tag) = match (&row[0], &row[2]) {
            (Cell::Text(Some(id)), Cell::Text(Some(tag))) => (id.clone(), tag.clone()),
            _ => panic!("identifier and owner tag are text"),
        };
        assert_eq!(*row, build_row(id, tag, event));
    }
}

#[test]
fn row_identifiers_are_fresh_and_ordered() {
    let batch: Vec<Metric> = (0..50).map(|_| bare_event()).collect();
    let rows = prepare_rows(&batch);
    let ids: Vec<String> = rows
        .iter()
        .map(|row| match &row[0] {
            Cell::Text(Some(id)) => id.clone(),
            _ => panic!("the identifier is text"),
        })
        .collect();
    assert_eq!(ROW_ID_LENGTH, 36);
    for id in &ids {
        assert_eq!(id.len(), 36);
        assert_eq!(id.chars().nth(14), Some('7'));
        assert!(id.chars().all(|c| c == '-' || c.is_ascii_hexdigit()));
    }
    for pair in ids.windows(2) {
        assert!(pair[0] < pair[1], "{} before {}", pair[0], pair[1]);
    }
}

#[test]
fn empty_batch_has_no_rows() {
    assert_eq!(prepare_rows(&Vec::new()), Vec::<Vec<Cell>>::new());
}
