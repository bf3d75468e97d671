//! The rows of the bulk load: one row of typed cells for every click event,
//! in the fixed column order of the analytics table.

use crate::id::random_in_range;
use crate::metrics::{location_of, GeoPoint, Metric};
use vstd::prelude::*;
use vstd::string::*;

verus! {

/// The statement that opens the bulk transfer. It names the columns in the
/// order of `schema`.
pub const COPY_STMT: &'static str =
    "COPY metrics (id, key, user_id, url, ip, android, ios, mobile, region_name, country, city, zip_code, time_zone, user_agent, visitor_id, created_at, location) FROM STDIN BINARY";

/// The number of columns of a row.
pub const COLUMN_COUNT: usize = 17;

/// The number of characters of a row identifier.
pub const ROW_ID_LENGTH: usize = 36;

/// The type of a column.
#[derive(Debug, Clone, Copy, PartialEq, Eq)]
pub enum ColumnType {
    Text,
    Bool,
    TimestampTz,
    Geography,
}

/// A column: its type, and whether it takes nulls.
#[derive(Debug, Clone, Copy, PartialEq, Eq)]
pub struct Column {
    pub kind: ColumnType,
    pub nullable: bool,
}

/// One value of a row.
#[derive(Debug, Clone, PartialEq, Eq)]
pub enum Cell {
    Text(Option<String>),
    Bool(Option<bool>),
    /// Nanoseconds since the Unix epoch.
    Timestamp(i128),
    Point(Option<GeoPoint>),
}

/// A column that takes no nulls.
pub open spec fn required(kind: ColumnType) -> Column {
    Column { kind, nullable: false }
}

/// A column that takes nulls.
pub open spec fn optional(kind: ColumnType) -> Column {
    Column { kind, nullable: true }
}

/// The columns of the analytics table, in the order of the transfer:
/// row identifier, short code, owner tag, target URL, client address, the
/// three device flags, region, country, city, postal code, time zone, user
/// agent, visitor identifier, time of the click, location.
pub open spec fn schema() -> Seq<Column> {
    seq![
        required(ColumnType::Text),
        required(ColumnType::Text),
        required(ColumnType::Text),
        required(ColumnType::Text),
        required(ColumnType::Text),
        optional(ColumnType::Bool),
        optional(ColumnType::Bool),
        optional(ColumnType::Bool),
        optional(ColumnType::Text),
        optional(ColumnType::Text),
        optional(ColumnType::Text),
        optional(ColumnType::Text),
        optional(ColumnType::Text),
        optional(ColumnType::Text),
        required(ColumnType::Text),
        required(ColumnType::TimestampTz),
        optional(ColumnType::Geography),
    ]
}

/// Whether `cell` may stand in `column`: it has the column's type, and is
/// null only where the column takes nulls.
pub open spec fn fits(cell: Cell, column: Column) -> bool {
    match cell {
        Cell::Text(text) => column.kind == ColumnType::Text && (text is Some || column.nullable),
        Cell::Bool(flag) => column.kind == ColumnType::Bool && (flag is Some || column.nullable),
        Cell::Timestamp(_) => column.kind == ColumnType::TimestampTz,
        Cell::Point(point) => column.kind == ColumnType::Geography && (point is Some
            || column.nullable),
    }
}

/// Whether `row` has one fitting cell for every column.
pub open spec fn conforms(row: Seq<Cell>) -> bool {
    &&& row.len() == schema().len()
    &&& forall|i: int| 0 <= i < row.len() ==> fits(#[trigger] row[i], schema()[i])
}

/// The row of a click event under the identifier and the owner tag given to
/// it at load time.
pub open spec fn row_of(id: String, owner_tag: String, metric: Metric) -> Seq<Cell> {
    seq![
        Cell::Text(Some(id)),
        Cell::Text(Some(metric.shorthand_id)),
        Cell::Text(Some(owner_tag)),
        Cell::Text(Some(metric.url)),
        Cell::Text(Some(metric.ip)),
        Cell::Bool(metric.android),
        Cell::Bool(metric.ios),
        Cell::Bool(metric.mobile),
        Cell::Text(metric.region_name),
        Cell::Text(metric.country),
        Cell::Text(metric.city),
        Cell::Text(metric.zip_code),
        Cell::Text(metric.time_zone),
        Cell::Text(metric.user_agent),
        Cell::Text(Some(metric.visitor_id)),
        Cell::Timestamp(metric.created_at),
        Cell::Point(location_of(metric.longitude, metric.latitude)),
    ]
}

/// Every row of a click event conforms to the schema, whatever the event
/// holds; its last cell is a point exactly when both coordinates are known.
pub proof fn law_rows_conform(id: String, owner_tag: String, metric: Metric)
    ensures
        conforms(row_of(id, owner_tag, metric)),
        row_of(id, owner_tag, metric)[16] == Cell::Point(
            location_of(metric.longitude, metric.latitude),
        ),
        location_of(metric.longitude, metric.latitude) is Some <==> metric.longitude is Some
            && metric.latitude is Some,
{
}

/// The columns of the analytics table, in the order of the transfer.
pub fn columns() -> (columns: Vec<Column>)
    ensures
        columns@ == schema(),
{
    let text = Column { kind: ColumnType::Text, nullable: false };
    let text_or_null = Column { kind: ColumnType::Text, nullable: true };
    let flag_or_null = Column { kind: ColumnType::Bool, nullable: true };
    let mut columns: Vec<Column> = Vec::with_capacity(COLUMN_COUNT);
    columns.push(text);
    columns.push(text);
    columns.push(text);
    columns.push(text);
    columns.push(text);
    columns.push(flag_or_null);
    columns.push(flag_or_null);
    columns.push(flag_or_null);
    columns.push(text_or_null);
    columns.push(text_or_null);
    columns.push(text_or_null);
    columns.push(text_or_null);
    columns.push(text_or_null);
    columns.push(text_or_null);
    columns.push(text);
    columns.push(Column { kind: ColumnType::TimestampTz, nullable: false });
    columns.push(Column { kind: ColumnType::Geography, nullable: true });
    assert(columns@ =~= schema());
    columns
}

/// A copy of an optional text.
fn copy_text(text: &Option<String>) -> (copy: Option<String>)
    ensures
        copy == *text,
{
    match text {
        Some(text) => Some(text.clone()),
        None => None,
    }
}

/// The row of `metric` under the identifier and the owner tag given to it.
pub fn build_row(id: String, owner_tag: String, metric: &Metric) -> (row: Vec<Cell>)
    ensures
        row@ == row_of(id, owner_tag, *metric),
        conforms(row@),
{
    let mut row: Vec<Cell> = Vec::with_capacity(COLUMN_COUNT);
    row.push(Cell::Text(Some(id)));
    row.push(Cell::Text(Some(metric.shorthand_id.clone())));
    row.push(Cell::Text(Some(owner_tag)));
    row.push(Cell::Text(Some(metric.url.clone())));
    row.push(Cell::Text(Some(metric.ip.clone())));
    row.push(Cell::Bool(metric.android));
    row.push(Cell::Bool(metric.ios));
    row.push(Cell::Bool(metric.mobile));
    row.push(Cell::Text(copy_text(&metric.region_name)));
    row.push(Cell::Text(copy_text(&metric.country)));
    row.push(Cell::Text(copy_text(&metric.city)));
    row.push(Cell::Text(copy_text(&metric.zip_code)));
    row.push(Cell::Text(copy_text(&metric.time_zone)));
    row.push(Cell::Text(copy_text(&metric.user_agent)));
    row.push(Cell::Text(Some(metric.visitor_id.clone())));
    row.push(Cell::Timestamp(metric.created_at));
    row.push(Cell::Point(metric.location()));
    assert(row@ =~= row_of(id, owner_tag, *metric));
    row
}

/// The decimal digits of `n`, most significant first.
pub open spec fn decimal(n: nat) -> Seq<char>
    decreases n,
{
    if n < 10 {
        seq!["0123456789"@[n as int]]
    } else {
        decimal(n / 10).push("0123456789"@[(n % 10) as int])
    }
}

/// Renders `n` in decimal digits.
pub fn decimal_text(n: u32) -> (text: String)
    ensures
        text@ == decimal(n as nat),
    decreases n,
{
    let digits: &str = "0123456789";
    proof {
        reveal_strlit("0123456789");
    }
    let mut text: String = if n < 10 {
        String::new()
    } else {
        decimal_text(n / 10)
    };
    let last: usize = (n % 10) as usize;
    let ghost before = text@;
    text.append(digits.substring_ascii(last, last + 1));
    assert(text@ =~= before.push(digits@[last as int]));
    assert(Seq::<char>::empty().push(digits@[last as int]) =~= seq![digits@[last as int]]);
    text
}

/// The smallest number of an owner tag.
pub const OWNER_TAG_LOW: u32 = 1;

/// The number that every owner tag stays below.
pub const OWNER_TAG_HIGH: u32 = 100;

/// Whether `text` is an owner tag: the decimal text of a number from
/// `OWNER_TAG_LOW` up to, not including, `OWNER_TAG_HIGH`.
pub open spec fn is_owner_tag(text: Seq<char>) -> bool {
    exists|n: nat| OWNER_TAG_LOW <= n < OWNER_TAG_HIGH && text == #[trigger] decimal(n)
}

/// A randomly drawn owner tag.
pub fn owner_tag() -> (tag: String)
    ensures
        is_owner_tag(tag@),
{
    let drawn: u32 = random_in_range(OWNER_TAG_LOW, OWNER_TAG_HIGH);
    decimal_text(drawn)
}

/// A fresh identifier for a row, from the system clock.
///
/// Calls `Uuid::now_v7` of `uuid` and renders the result with its `Display`
/// impl, which writes the hyphenated lower-case form: 36 characters. Which
/// identifier comes back depends on the clock and on random bits; only the
/// length is claimed. That the identifiers of one process come out in the
/// order of their making is `uuid`'s promise, and no contract here rests on
/// it.
#[verifier::external_body]
fn fresh_row_id() -> (id: String)
    ensures
        id@.len() == ROW_ID_LENGTH,
{
    uuid::Uuid::now_v7().to_string()
}

/// Whether `row` is the row of `metric` under some fresh identifier and some
/// owner tag.
pub open spec fn is_row_for(row: Seq<Cell>, metric: Metric) -> bool {
    exists|id: String, tag: String|
        #![trigger row_of(id, tag, metric)]
        id@.len() == ROW_ID_LENGTH && is_owner_tag(tag@) && row == row_of(id, tag, metric)
}

/// The rows of a batch, one for every event and in the order of the batch.
/// Every row gets an identifier of its own, generated here and in row order.
pub fn prepare_rows(metrics: &Vec<Metric>) -> (rows: Vec<Vec<Cell>>)
    ensures
        rows@.len() == metrics@.len(),
        forall|i: int|
            0 <= i < rows@.len() ==> is_row_for(#[trigger] rows@[i]@, metrics@[i]) && conforms(
                rows@[i]@,
            ),
{
    let mut rows: Vec<Vec<Cell>> = Vec::with_capacity(metrics.len());
    let mut i: usize = 0;
    while i < metrics.len()
        invariant
            i <= metrics@.len(),
            rows@.len() == i,
            forall|j: int|
                0 <= j < rows@.len() ==> is_row_for(#[trigger] rows@[j]@, metrics@[j])
                    && conforms(rows@[j]@),
        decreases metrics@.len() - i,
    {
        let id: String = fresh_row_id();
        let tag: String = owner_tag();
        let row: Vec<Cell> = build_row(id, tag, &metrics[i]);
        assert(is_row_for(row@, metrics@[i as int])) by {
            assert(row@ == row_of(id, tag, metrics@[i as int]));
        }
        rows.push(row);
        i = i + 1;
    }
    rows
}

} // verus!
