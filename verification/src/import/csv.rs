//! Reading lockers and rentals from spreadsheet (CSV) rows. Columns are found by any
//! of several German or English names; each row becomes a locker or a rental, or is
//! left out when it lacks what the record needs.

use crate::calendar::{parsed_date, Date};
use crate::export::csv::table_view;
use crate::models::TenantType;
use crate::text::{
    contains_seq, contains_text, eq_ignore_ascii_case, eq_ignore_case, parse_i32, spec_lowercase, spec_parse_i32,
    spec_trim, str_eq, to_lowercase, trim,
};
use vstd::prelude::*;

verus! {

/// A row of a CSV file, as the `csv` crate reads it.
#[verifier::external_type_specification]
#[verifier::external_body]
pub struct ExStringRecord(csv::StringRecord);

/// The fields of a CSV row, in order.
pub uninterp spec fn record_fields(r: csv::StringRecord) -> Seq<Seq<char>>;

/// `StringRecord::len`: the number of fields of the row.
#[verifier::external_body]
fn record_len(r: &csv::StringRecord) -> (n: usize)
    ensures
        n == record_fields(*r).len(),
{
    r.len()
}

/// `StringRecord::get`: field `i` of the row, or `None` past the last field.
#[verifier::external_body]
fn record_get(r: &csv::StringRecord, i: usize) -> (f: Option<&str>)
    ensures
        f matches Some(s) ==> i < record_fields(*r).len() && s@ == record_fields(*r)[i as int],
        f is None <==> i >= record_fields(*r).len(),
{
    r.get(i)
}

/// The table a CSV reader with the `csv` crate's default settings (a header row, every
/// record as long as the header, fields not trimmed) reads from these bytes: the
/// header row followed by the records, or `None` where the reader reports an error.
pub uninterp spec fn spec_csv_table(bytes: Seq<u8>) -> Option<Seq<Seq<Seq<char>>>>;

/// `csv::Reader::from_reader` over the bytes: its header row and then its records, each
/// as strings; `None` where the reader reports an error. The result is named.
#[verifier::external_body]
fn csv_table(bytes: &[u8]) -> (r: Option<Vec<Vec<String>>>)
    ensures
        r matches Some(t) ==> spec_csv_table(bytes@) == Some(table_view(t@)),
        r is None ==> spec_csv_table(bytes@) is None,
{
    let mut reader = csv::Reader::from_reader(bytes);
    let header: Vec<String> = reader.headers().ok()?.iter().map(String::from).collect();
    let mut table = vec![header];
    for record in reader.records() {
        table.push(record.ok()?.iter().map(String::from).collect());
    }
    Some(table)
}

/// A row of strings as texts.
pub open spec fn fields_view(v: Seq<String>) -> Seq<Seq<char>> {
    v.map_values(|s: String| s@)
}

/// Field `i` of a row of strings, or `None` past the last field.
fn field_get(v: &Vec<String>, i: usize) -> (f: Option<&str>)
    ensures
        f matches Some(s) ==> i < fields_view(v@).len() && s@ == fields_view(v@)[i as int],
        f is None <==> i >= fields_view(v@).len(),
{
    if i < v.len() {
        Some(v[i].as_str())
    } else {
        None
    }
}

/// The fields of a CSV row as strings.
fn record_to_fields(r: &csv::StringRecord) -> (v: Vec<String>)
    ensures
        fields_view(v@) == record_fields(*r),
{
    let n = record_len(r);
    let mut v: Vec<String> = Vec::new();
    let mut i: usize = 0;
    while i < n
        invariant
            n == record_fields(*r).len(),
            i <= n,
            fields_view(v@) == record_fields(*r).take(i as int),
        decreases n - i,
    {
        match record_get(r, i) {
            Some(f) => {
                let ghost before = v@;
                v.push(f.to_owned());
                assert(fields_view(v@) =~= fields_view(before).push(f@));
                assert(record_fields(*r).take(i + 1) =~= record_fields(*r).take(i as int).push(record_fields(*r)[i as int]));
            },
            None => {},
        }
        i = i + 1;
    }
    assert(record_fields(*r).take(n as int) =~= record_fields(*r));
    v
}

/// Whether header `h`, without surrounding white space, is `name` up to ASCII case.
pub open spec fn header_is(h: Seq<char>, name: Seq<char>) -> bool {
    eq_ignore_ascii_case(spec_trim(h), name)
}

/// Position of the first header from position `i` on that is `name`.
pub open spec fn header_position_from(headers: Seq<Seq<char>>, name: Seq<char>, i: int) -> Option<int>
    decreases headers.len() - i,
{
    if i < 0 || i >= headers.len() {
        None
    } else if header_is(headers[i], name) {
        Some(i)
    } else {
        header_position_from(headers, name, i + 1)
    }
}

/// The column of the first of the names from position `k` on that some header has.
pub open spec fn column_from(headers: Seq<Seq<char>>, names: Seq<Seq<char>>, k: int) -> Option<int>
    decreases names.len() - k,
{
    if k < 0 || k >= names.len() {
        None
    } else {
        match header_position_from(headers, names[k], 0) {
            Some(i) => Some(i),
            None => column_from(headers, names, k + 1),
        }
    }
}

/// The texts of a list of names.
pub open spec fn name_texts(names: Seq<&str>) -> Seq<Seq<char>> {
    names.map_values(|s: &str| s@)
}

/// Position of the first header that is `name`, ignoring surrounding white space and
/// ASCII case.
fn header_position(headers: &Vec<String>, name: &str) -> (r: Option<usize>)
    ensures
        r matches Some(i) ==> header_position_from(fields_view(headers@), name@, 0) == Some(i as int),
        r is None ==> header_position_from(fields_view(headers@), name@, 0) is None,
{
    let n = headers.len();
    let mut i: usize = 0;
    while i < n
        invariant
            n == fields_view(headers@).len(),
            i <= n,
            header_position_from(fields_view(headers@), name@, 0)
                == header_position_from(fields_view(headers@), name@, i as int),
        decreases n - i,
    {
        let h = match field_get(headers, i) {
            Some(h) => h,
            None => {
                return None;
            },
        };
        let t = trim(h);
        if eq_ignore_case(t.as_str(), name) {
            return Some(i);
        }
        i = i + 1;
    }
    None
}

/// Finds the column of the first of `names` that some header has; the headers are
/// compared without surrounding white space and ignoring ASCII case.
pub fn find_column_index(headers: &csv::StringRecord, names: &[&str]) -> (r: Option<usize>)
    ensures
        r matches Some(i) ==> column_from(record_fields(*headers), name_texts(names@), 0) == Some(i as int),
        r is None ==> column_from(record_fields(*headers), name_texts(names@), 0) is None,
{
    let fields = record_to_fields(headers);
    find_column_in(&fields, names)
}

/// `find_column_index` over a header row given as strings.
fn find_column_in(headers: &Vec<String>, names: &[&str]) -> (r: Option<usize>)
    ensures
        r matches Some(i) ==> column_from(fields_view(headers@), name_texts(names@), 0) == Some(i as int),
        r is None ==> column_from(fields_view(headers@), name_texts(names@), 0) is None,
{
    let mut k: usize = 0;
    while k < names.len()
        invariant
            k <= names@.len(),
            column_from(fields_view(headers@), name_texts(names@), 0)
                == column_from(fields_view(headers@), name_texts(names@), k as int),
        decreases names@.len() - k,
    {
        assert(name_texts(names@)[k as int] == names@[k as int]@);
        match header_position(headers, names[k]) {
            Some(i) => {
                return Some(i);
            },
            None => {},
        }
        k = k + 1;
    }
    None
}

/// Why a CSV file cannot be imported: it is no valid table, or a column it needs is
/// missing.
#[derive(Debug, Clone, Copy, PartialEq, Eq, Structural)]
pub enum CsvImportError {
    /// The file is no valid CSV table: the reader reported an error, such as a row
    /// with another number of fields than the header.
    Malformed,
    /// No column "Label" or "Nummer" (lockers).
    MissingLabelColumn,
    /// No column "Standort" or "Location" (lockers).
    MissingLocationColumn,
    /// No column "Schliessfach" or "Locker" (rentals).
    MissingLockerColumn,
    /// No column "Mieter" or "Tenant" (rentals).
    MissingTenantColumn,
    /// No column "Beginn" or "Start" (rentals).
    MissingStartColumn,
    /// No column "Ende" or "End" (rentals).
    MissingEndColumn,
}

impl CsvImportError {
    /// The German message of the error.
    pub fn message(&self) -> (r: &'static str)
        ensures
            r@ == (match *self {
                CsvImportError::Malformed => "CSV-Datei ist fehlerhaft"@,
                CsvImportError::MissingLabelColumn => "Spalte 'Label' oder 'Nummer' nicht gefunden"@,
                CsvImportError::MissingLocationColumn => "Spalte 'Standort' oder 'Location' nicht gefunden"@,
                CsvImportError::MissingLockerColumn => "Spalte 'Schliessfach' oder 'Locker' nicht gefunden"@,
                CsvImportError::MissingTenantColumn => "Spalte 'Mieter' oder 'Tenant' nicht gefunden"@,
                CsvImportError::MissingStartColumn => "Spalte 'Beginn' oder 'Start' nicht gefunden"@,
                CsvImportError::MissingEndColumn => "Spalte 'Ende' oder 'End' nicht gefunden"@,
            }),
    {
        match self {
            CsvImportError::Malformed => "CSV-Datei ist fehlerhaft",
            CsvImportError::MissingLabelColumn => "Spalte 'Label' oder 'Nummer' nicht gefunden",
            CsvImportError::MissingLocationColumn => "Spalte 'Standort' oder 'Location' nicht gefunden",
            CsvImportError::MissingLockerColumn => "Spalte 'Schliessfach' oder 'Locker' nicht gefunden",
            CsvImportError::MissingTenantColumn => "Spalte 'Mieter' oder 'Tenant' nicht gefunden",
            CsvImportError::MissingStartColumn => "Spalte 'Beginn' oder 'Start' nicht gefunden",
            CsvImportError::MissingEndColumn => "Spalte 'Ende' oder 'End' nicht gefunden",
        }
    }
}

/// Names of the label column of a locker file.
pub open spec fn label_names() -> Seq<Seq<char>> {
    seq!["Label"@, "Nummer"@, "Number"@, "ID"@]
}

/// Names of the location column of a locker file.
pub open spec fn location_names() -> Seq<Seq<char>> {
    seq!["Standort"@, "Location"@, "Ort"@]
}

/// Names of the height column of a locker file.
pub open spec fn height_names() -> Seq<Seq<char>> {
    seq!["Hoehe_cm"@, "Höhe_cm"@, "Height"@, "Höhe"@]
}

/// Names of the damage column of a locker file.
pub open spec fn damaged_names() -> Seq<Seq<char>> {
    seq!["Defekt"@, "Damaged"@, "Beschädigt"@]
}

/// The columns a locker file is read from.
#[derive(Debug, Clone, Copy, PartialEq, Eq, Structural)]
pub struct LockerColumns {
    /// Column of the label.
    pub label: usize,
    /// Column of the location.
    pub location: usize,
    /// Column of the height, if there is one.
    pub height: Option<usize>,
    /// Column of the damage flag, if there is one.
    pub damaged: Option<usize>,
}

/// An optional column position as an optional `usize`.
pub open spec fn as_column(c: Option<int>) -> Option<usize> {
    match c {
        Some(i) => Some(i as usize),
        None => None,
    }
}

/// The columns of a locker file with these headers; the label and the location column
/// are needed.
pub open spec fn spec_locker_columns(headers: Seq<Seq<char>>) -> Result<LockerColumns, CsvImportError> {
    match (column_from(headers, label_names(), 0), column_from(headers, location_names(), 0)) {
        (Some(l), Some(o)) => Ok(LockerColumns {
            label: l as usize,
            location: o as usize,
            height: as_column(column_from(headers, height_names(), 0)),
            damaged: as_column(column_from(headers, damaged_names(), 0)),
        }),
        (None, _) => Err(CsvImportError::MissingLabelColumn),
        (Some(_), None) => Err(CsvImportError::MissingLocationColumn),
    }
}

/// `find_column_index` over a list of names given as a `Vec`.
fn find_column(headers: &Vec<String>, names: Vec<&str>, Ghost(expected): Ghost<Seq<Seq<char>>>) -> (r: Option<usize>)
    requires
        name_texts(names@) == expected,
    ensures
        r == as_column(column_from(fields_view(headers@), expected, 0)),
{
    match find_column_in(headers, names.as_slice()) {
        Some(i) => Some(i),
        None => None,
    }
}

/// Finds the columns of a locker file.
pub fn locker_columns(headers: &csv::StringRecord) -> (r: Result<LockerColumns, CsvImportError>)
    ensures
        r == spec_locker_columns(record_fields(*headers)),
{
    let fields = record_to_fields(headers);
    locker_columns_in(&fields)
}

/// Finds the columns of a locker file in a header row given as strings.
fn locker_columns_in(headers: &Vec<String>) -> (r: Result<LockerColumns, CsvImportError>)
    ensures
        r == spec_locker_columns(fields_view(headers@)),
{
    let names = vec!["Label", "Nummer", "Number", "ID"];
    assert(name_texts(names@) =~= label_names());
    let label = find_column(headers, names, Ghost(label_names()));
    let names = vec!["Standort", "Location", "Ort"];
    assert(name_texts(names@) =~= location_names());
    let location = find_column(headers, names, Ghost(location_names()));
    let names = vec!["Hoehe_cm", "Höhe_cm", "Height", "Höhe"];
    assert(name_texts(names@) =~= height_names());
    let height = find_column(headers, names, Ghost(height_names()));
    let names = vec!["Defekt", "Damaged", "Beschädigt"];
    assert(name_texts(names@) =~= damaged_names());
    let damaged = find_column(headers, names, Ghost(damaged_names()));
    match (label, location) {
        (Some(l), Some(o)) => Ok(LockerColumns { label: l, location: o, height, damaged }),
        (None, _) => Err(CsvImportError::MissingLabelColumn),
        (Some(_), None) => Err(CsvImportError::MissingLocationColumn),
    }
}

/// Field `i` of a row without surrounding white space; a missing field counts as empty.
pub open spec fn trimmed_field(fields: Seq<Seq<char>>, i: int) -> Seq<char> {
    spec_trim(if 0 <= i < fields.len() { fields[i] } else { Seq::empty() })
}

/// The text of field `i` without surrounding white space (empty when it is missing).
fn trimmed(record: &Vec<String>, i: usize) -> (r: String)
    ensures
        r@ == trimmed_field(fields_view(record@), i as int),
{
    match field_get(record, i) {
        Some(s) => trim(s),
        None => {
            proof {
                reveal_strlit("");
                assert(""@ =~= Seq::<char>::empty());
            }
            trim("")
        },
    }
}

/// A locker read from a row.
#[derive(Debug, Clone)]
pub struct LockerRow {
    /// The label.
    pub label: String,
    /// The location.
    pub location: String,
    /// The height in centimetres.
    pub height: i32,
    /// Whether the locker is damaged.
    pub is_damaged: bool,
}

/// Height of a locker whose row gives none that can be read.
pub const DEFAULT_HEIGHT_CM: i32 = 100;

/// Whether a damage flag, lower-cased, says yes: "ja", "yes", "true" or "1".
pub open spec fn says_yes(s: Seq<char>) -> bool {
    s == "ja"@ || s == "yes"@ || s == "true"@ || s == "1"@
}

/// The height a row gives: the number in the height column, or 100 cm where there is
/// no such column, the field is missing or it is no `i32`.
pub open spec fn row_height(fields: Seq<Seq<char>>, column: Option<usize>) -> i32 {
    match column {
        Some(i) => if (i as int) < fields.len() {
            match spec_parse_i32(spec_trim(fields[i as int])) {
                Some(h) => h,
                None => DEFAULT_HEIGHT_CM,
            }
        } else {
            DEFAULT_HEIGHT_CM
        },
        None => DEFAULT_HEIGHT_CM,
    }
}

/// Whether a row marks its locker damaged: its damage field, trimmed and lower-cased,
/// says yes.
pub open spec fn row_damaged(fields: Seq<Seq<char>>, column: Option<usize>) -> bool {
    match column {
        Some(i) => (i as int) < fields.len() && says_yes(spec_lowercase(spec_trim(fields[i as int]))),
        None => false,
    }
}

/// The locker a row describes: none when its label or location is empty.
pub open spec fn row_locker_ok(fields: Seq<Seq<char>>, cols: LockerColumns) -> bool {
    trimmed_field(fields, cols.label as int).len() > 0 && trimmed_field(fields, cols.location as int).len() > 0
}

/// Reads a locker from a row (see `row_locker_ok`, `row_height` and `row_damaged`).
pub fn parse_locker_record(record: &csv::StringRecord, cols: &LockerColumns) -> (r: Option<LockerRow>)
    ensures
        r is Some <==> row_locker_ok(record_fields(*record), *cols),
        r matches Some(row) ==> {
            &&& row.label@ == trimmed_field(record_fields(*record), cols.label as int)
            &&& row.location@ == trimmed_field(record_fields(*record), cols.location as int)
            &&& row.height == row_height(record_fields(*record), cols.height)
            &&& row.is_damaged == row_damaged(record_fields(*record), cols.damaged)
        },
{
    let fields = record_to_fields(record);
    parse_locker_fields(&fields, cols)
}

/// The locker a row describes, as the texts, height and flag of `LockerRow`: none
/// when its label or location is empty.
pub open spec fn spec_locker_row(fields: Seq<Seq<char>>, cols: LockerColumns) -> Option<(Seq<char>, Seq<char>, i32, bool)> {
    if row_locker_ok(fields, cols) {
        Some((
            trimmed_field(fields, cols.label as int),
            trimmed_field(fields, cols.location as int),
            row_height(fields, cols.height),
            row_damaged(fields, cols.damaged),
        ))
    } else {
        None
    }
}

/// A locker row as its texts, height and flag.
pub open spec fn locker_row_view(row: LockerRow) -> (Seq<char>, Seq<char>, i32, bool) {
    (row.label@, row.location@, row.height, row.is_damaged)
}

/// Reads a locker from a row given as strings (see `spec_locker_row`).
fn parse_locker_fields(record: &Vec<String>, cols: &LockerColumns) -> (r: Option<LockerRow>)
    ensures
        r is Some <==> row_locker_ok(fields_view(record@), *cols),
        r matches Some(row) ==> {
            &&& row.label@ == trimmed_field(fields_view(record@), cols.label as int)
            &&& row.location@ == trimmed_field(fields_view(record@), cols.location as int)
            &&& row.height == row_height(fields_view(record@), cols.height)
            &&& row.is_damaged == row_damaged(fields_view(record@), cols.damaged)
        },
{
    let label = trimmed(record, cols.label);
    let location = trimmed(record, cols.location);
    if label.as_str().unicode_len() == 0 || location.as_str().unicode_len() == 0 {
        return None;
    }
    let height = match cols.height {
        Some(i) => match field_get(record, i) {
            Some(s) => {
                let t = trim(s);
                match parse_i32(t.as_str()) {
                    Some(h) => h,
                    None => DEFAULT_HEIGHT_CM,
                }
            },
            None => DEFAULT_HEIGHT_CM,
        },
        None => DEFAULT_HEIGHT_CM,
    };
    let is_damaged = match cols.damaged {
        Some(i) => match field_get(record, i) {
            Some(s) => {
                let t = trim(s);
                let l = to_lowercase(t.as_str());
                let v = l.as_str();
                str_eq(v, "ja") || str_eq(v, "yes") || str_eq(v, "true") || str_eq(v, "1")
            },
            None => false,
        },
        None => false,
    };
    Some(LockerRow { label, location, height, is_damaged })
}

/// Names of the locker column of a rental file.
pub open spec fn locker_names() -> Seq<Seq<char>> {
    seq!["Schliessfach"@, "Schließfach"@, "Locker"@, "Label"@]
}

/// Names of the tenant column of a rental file.
pub open spec fn tenant_names() -> Seq<Seq<char>> {
    seq!["Mieter"@, "Tenant"@, "Username"@, "Benutzer"@]
}

/// Names of the tenant type column of a rental file.
pub open spec fn type_names() -> Seq<Seq<char>> {
    seq!["Typ"@, "Type"@, "Mietertyp"@]
}

/// Names of the start date column of a rental file.
pub open spec fn start_names() -> Seq<Seq<char>> {
    seq!["Beginn"@, "Start"@, "Start_Date"@, "Startdatum"@]
}

/// Names of the end date column of a rental file.
pub open spec fn end_names() -> Seq<Seq<char>> {
    seq!["Ende"@, "End"@, "End_Date"@, "Enddatum"@]
}

/// The columns a rental file is read from.
#[derive(Debug, Clone, Copy, PartialEq, Eq, Structural)]
pub struct RentalColumns {
    /// Column of the locker label.
    pub locker: usize,
    /// Column of the tenant's username.
    pub tenant: usize,
    /// Column of the tenant type, if there is one.
    pub tenant_type: Option<usize>,
    /// Column of the start date.
    pub start: usize,
    /// Column of the end date.
    pub end: usize,
}

/// The columns of a rental file with these headers; all but the tenant type are
/// needed, and the first one missing (locker, tenant, start, end) is reported.
pub open spec fn spec_rental_columns(headers: Seq<Seq<char>>) -> Result<RentalColumns, CsvImportError> {
    let l = column_from(headers, locker_names(), 0);
    let t = column_from(headers, tenant_names(), 0);
    let s = column_from(headers, start_names(), 0);
    let e = column_from(headers, end_names(), 0);
    if l is None {
        Err(CsvImportError::MissingLockerColumn)
    } else if t is None {
        Err(CsvImportError::MissingTenantColumn)
    } else if s is None {
        Err(CsvImportError::MissingStartColumn)
    } else if e is None {
        Err(CsvImportError::MissingEndColumn)
    } else {
        Ok(RentalColumns {
            locker: l->0 as usize,
            tenant: t->0 as usize,
            tenant_type: as_column(column_from(headers, type_names(), 0)),
            start: s->0 as usize,
            end: e->0 as usize,
        })
    }
}

/// Finds the columns of a rental file.
pub fn rental_columns(headers: &csv::StringRecord) -> (r: Result<RentalColumns, CsvImportError>)
    ensures
        r == spec_rental_columns(record_fields(*headers)),
{
    let fields = record_to_fields(headers);
    rental_columns_in(&fields)
}

/// Finds the columns of a rental file in a header row given as strings.
fn rental_columns_in(headers: &Vec<String>) -> (r: Result<RentalColumns, CsvImportError>)
    ensures
        r == spec_rental_columns(fields_view(headers@)),
{
    let names = vec!["Schliessfach", "Schließfach", "Locker", "Label"];
    assert(name_texts(names@) =~= locker_names());
    let locker = find_column(headers, names, Ghost(locker_names()));
    let names = vec!["Mieter", "Tenant", "Username", "Benutzer"];
    assert(name_texts(names@) =~= tenant_names());
    let tenant = find_column(headers, names, Ghost(tenant_names()));
    let names = vec!["Typ", "Type", "Mietertyp"];
    assert(name_texts(names@) =~= type_names());
    let tenant_type = find_column(headers, names, Ghost(type_names()));
    let names = vec!["Beginn", "Start", "Start_Date", "Startdatum"];
    assert(name_texts(names@) =~= start_names());
    let start = find_column(headers, names, Ghost(start_names()));
    let names = vec!["Ende", "End", "End_Date", "Enddatum"];
    assert(name_texts(names@) =~= end_names());
    let end = find_column(headers, names, Ghost(end_names()));
    match (locker, tenant, start, end) {
        (Some(l), Some(t), Some(s), Some(e)) => Ok(RentalColumns { locker: l, tenant: t, tenant_type, start: s, end: e }),
        (None, _, _, _) => Err(CsvImportError::MissingLockerColumn),
        (Some(_), None, _, _) => Err(CsvImportError::MissingTenantColumn),
        (Some(_), Some(_), None, _) => Err(CsvImportError::MissingStartColumn),
        (Some(_), Some(_), Some(_), None) => Err(CsvImportError::MissingEndColumn),
    }
}

/// A rental read from a row; the locker is named by its label.
#[derive(Debug, Clone)]
pub struct RentalRow {
    /// Label of the rented locker.
    pub locker_label: String,
    /// Username of the tenant.
    pub tenant: String,
    /// Kind of tenant.
    pub tenant_type: TenantType,
    /// First day of the rental.
    pub start: Date,
    /// Last day of the rental.
    pub end: Date,
}

/// The tenant type a row gives: a teacher when its type field, trimmed and
/// lower-cased, mentions "lehrer" or "teacher", a student otherwise.
pub open spec fn row_tenant_type(fields: Seq<Seq<char>>, column: Option<usize>) -> TenantType {
    match column {
        Some(i) => if (i as int) < fields.len() && ({
            let s = spec_lowercase(spec_trim(fields[i as int]));
            contains_seq(s, "lehrer"@) || contains_seq(s, "teacher"@)
        }) {
            TenantType::Lehrer
        } else {
            TenantType::Schueler
        },
        None => TenantType::Schueler,
    }
}

/// Some header, without surrounding white space and up to ASCII case, is one of `names`.
pub open spec fn has_any_header(headers: Seq<Seq<char>>, names: Seq<Seq<char>>) -> bool {
    exists|i: int, m: int| 0 <= i < headers.len() && 0 <= m < names.len()
        && #[trigger] eq_ignore_ascii_case(spec_trim(headers[i]), names[m])
}

/// Column `c` exists and its header, without surrounding white space and up to ASCII
/// case, is one of `names`.
pub open spec fn column_named(headers: Seq<Seq<char>>, c: int, names: Seq<Seq<char>>) -> bool {
    &&& 0 <= c < headers.len()
    &&& exists|m: int| 0 <= m < names.len() && #[trigger] eq_ignore_ascii_case(spec_trim(headers[c]), names[m])
}

/// The header found from position `i` on is `name`, and none before it is.
proof fn header_position_facts(headers: Seq<Seq<char>>, name: Seq<char>, i: int)
    requires
        0 <= i,
    ensures
        header_position_from(headers, name, i) matches Some(p) ==> i <= p < headers.len() && header_is(headers[p], name),
        header_position_from(headers, name, i) is None ==> forall|m: int| i <= m < headers.len() ==> !header_is(headers[m], name),
    decreases headers.len() - i,
{
    if i < headers.len() && !header_is(headers[i], name) {
        header_position_facts(headers, name, i + 1);
    }
}

/// The column found for names from position `k` on has one of them as its header; when
/// none is found, no header is any of them.
proof fn column_from_facts(headers: Seq<Seq<char>>, names: Seq<Seq<char>>, k: int)
    requires
        0 <= k,
    ensures
        column_from(headers, names, k) matches Some(c) ==> 0 <= c < headers.len()
            && exists|m: int| k <= m < names.len() && #[trigger] eq_ignore_ascii_case(spec_trim(headers[c]), names[m]),
        column_from(headers, names, k) is None ==> forall|i: int, m: int| 0 <= i < headers.len() && k <= m < names.len()
            ==> !#[trigger] eq_ignore_ascii_case(spec_trim(headers[i]), names[m]),
    decreases names.len() - k,
{
    if k < names.len() {
        header_position_facts(headers, names[k], 0);
        if header_position_from(headers, names[k], 0) is None {
            column_from_facts(headers, names, k + 1);
        }
    }
}

/// A column lookup finds a column exactly when some header is one of the names, and the
/// column found has one of them as its header.
proof fn column_lookup(headers: Seq<Seq<char>>, names: Seq<Seq<char>>)
    ensures
        column_from(headers, names, 0) is Some <==> has_any_header(headers, names),
        column_from(headers, names, 0) matches Some(c) ==> column_named(headers, c, names),
{
    column_from_facts(headers, names, 0);
}

/// A rental file is read when its header names, in German or English and up to case
/// and surrounding white space, a locker column (Schliessfach, Schließfach, Locker,
/// Label), a tenant column (Mieter, Tenant, Username, Benutzer), a start column
/// (Beginn, Start, Start_Date, Startdatum) and an end column (Ende, End, End_Date,
/// Enddatum); the columns read are such columns, and a type column (Typ, Type,
/// Mietertyp) is read where there is one (for a header row that fits in memory).
pub proof fn rental_columns_by_name(headers: Seq<Seq<char>>)
    requires
        headers.len() <= usize::MAX,
    ensures
        spec_rental_columns(headers) is Ok <==> {
            &&& has_any_header(headers, seq!["Schliessfach"@, "Schließfach"@, "Locker"@, "Label"@])
            &&& has_any_header(headers, seq!["Mieter"@, "Tenant"@, "Username"@, "Benutzer"@])
            &&& has_any_header(headers, seq!["Beginn"@, "Start"@, "Start_Date"@, "Startdatum"@])
            &&& has_any_header(headers, seq!["Ende"@, "End"@, "End_Date"@, "Enddatum"@])
        },
        spec_rental_columns(headers) matches Ok(c) ==> {
            &&& column_named(headers, c.locker as int, seq!["Schliessfach"@, "Schließfach"@, "Locker"@, "Label"@])
            &&& column_named(headers, c.tenant as int, seq!["Mieter"@, "Tenant"@, "Username"@, "Benutzer"@])
            &&& column_named(headers, c.start as int, seq!["Beginn"@, "Start"@, "Start_Date"@, "Startdatum"@])
            &&& column_named(headers, c.end as int, seq!["Ende"@, "End"@, "End_Date"@, "Enddatum"@])
            &&& (c.tenant_type is Some <==> has_any_header(headers, seq!["Typ"@, "Type"@, "Mietertyp"@]))
            &&& (c.tenant_type matches Some(t) ==> column_named(headers, t as int, seq!["Typ"@, "Type"@, "Mietertyp"@]))
        },
{
    assert(locker_names() =~= seq!["Schliessfach"@, "Schließfach"@, "Locker"@, "Label"@]);
    assert(tenant_names() =~= seq!["Mieter"@, "Tenant"@, "Username"@, "Benutzer"@]);
    assert(start_names() =~= seq!["Beginn"@, "Start"@, "Start_Date"@, "Startdatum"@]);
    assert(end_names() =~= seq!["Ende"@, "End"@, "End_Date"@, "Enddatum"@]);
    assert(type_names() =~= seq!["Typ"@, "Type"@, "Mietertyp"@]);
    column_lookup(headers, locker_names());
    column_lookup(headers, tenant_names());
    column_lookup(headers, start_names());
    column_lookup(headers, end_names());
    column_lookup(headers, type_names());
}

/// A locker file is read when its header names a label column (Label, Nummer, Number,
/// ID) and a location column (Standort, Location, Ort), up to case and surrounding
/// white space; a height column (Hoehe_cm, Höhe_cm, Height, Höhe) and a damage column
/// (Defekt, Damaged, Beschädigt) are read where there are such (for a header row that
/// fits in memory).
pub proof fn locker_columns_by_name(headers: Seq<Seq<char>>)
    requires
        headers.len() <= usize::MAX,
    ensures
        spec_locker_columns(headers) is Ok <==> has_any_header(headers, seq!["Label"@, "Nummer"@, "Number"@, "ID"@])
            && has_any_header(headers, seq!["Standort"@, "Location"@, "Ort"@]),
        spec_locker_columns(headers) matches Ok(c) ==> {
            &&& column_named(headers, c.label as int, seq!["Label"@, "Nummer"@, "Number"@, "ID"@])
            &&& column_named(headers, c.location as int, seq!["Standort"@, "Location"@, "Ort"@])
            &&& (c.height is Some <==> has_any_header(headers, seq!["Hoehe_cm"@, "Höhe_cm"@, "Height"@, "Höhe"@]))
            &&& (c.height matches Some(h) ==> column_named(headers, h as int, seq!["Hoehe_cm"@, "Höhe_cm"@, "Height"@, "Höhe"@]))
            &&& (c.damaged is Some <==> has_any_header(headers, seq!["Defekt"@, "Damaged"@, "Beschädigt"@]))
            &&& (c.damaged matches Some(d) ==> column_named(headers, d as int, seq!["Defekt"@, "Damaged"@, "Beschädigt"@]))
        },
{
    assert(label_names() =~= seq!["Label"@, "Nummer"@, "Number"@, "ID"@]);
    assert(location_names() =~= seq!["Standort"@, "Location"@, "Ort"@]);
    assert(height_names() =~= seq!["Hoehe_cm"@, "Höhe_cm"@, "Height"@, "Höhe"@]);
    assert(damaged_names() =~= seq!["Defekt"@, "Damaged"@, "Beschädigt"@]);
    column_lookup(headers, label_names());
    column_lookup(headers, location_names());
    column_lookup(headers, height_names());
    column_lookup(headers, damaged_names());
}

/// A rental read from a row is a teacher's exactly when the row has a type column
/// whose field, trimmed and lower-cased, contains "lehrer" or "teacher"; otherwise a
/// student's.
pub proof fn rental_row_teachers(fields: Seq<Seq<char>>, cols: RentalColumns)
    ensures
        spec_rental_row(fields, cols) matches Some(v) ==> (v.2 == TenantType::Lehrer <==> (cols.tenant_type matches Some(i)
            && (i as int) < fields.len()
            && (contains_seq(spec_lowercase(spec_trim(fields[i as int])), "teacher"@)
                || contains_seq(spec_lowercase(spec_trim(fields[i as int])), "lehrer"@)))),
        spec_rental_row(fields, cols) matches Some(v) ==> (v.2 == TenantType::Lehrer || v.2 == TenantType::Schueler),
{
}

/// Whether a row describes a rental: its locker label and tenant are not empty and
/// both dates can be read.
pub open spec fn row_rental_ok(fields: Seq<Seq<char>>, cols: RentalColumns) -> bool {
    &&& trimmed_field(fields, cols.locker as int).len() > 0
    &&& trimmed_field(fields, cols.tenant as int).len() > 0
    &&& parsed_date(trimmed_field(fields, cols.start as int)) is Some
    &&& parsed_date(trimmed_field(fields, cols.end as int)) is Some
}

/// Reads a rental from a row (see `row_rental_ok` and `row_tenant_type`).
pub fn parse_rental_record(record: &csv::StringRecord, cols: &RentalColumns) -> (r: Option<RentalRow>)
    ensures
        r is Some <==> row_rental_ok(record_fields(*record), *cols),
        r matches Some(row) ==> {
            &&& row.locker_label@ == trimmed_field(record_fields(*record), cols.locker as int)
            &&& row.tenant@ == trimmed_field(record_fields(*record), cols.tenant as int)
            &&& Some(row.start) == parsed_date(trimmed_field(record_fields(*record), cols.start as int))
            &&& Some(row.end) == parsed_date(trimmed_field(record_fields(*record), cols.end as int))
            &&& row.tenant_type == row_tenant_type(record_fields(*record), cols.tenant_type)
        },
{
    let fields = record_to_fields(record);
    parse_rental_fields(&fields, cols)
}

/// The rental a row describes, as the texts, type and dates of `RentalRow`: none unless
/// `row_rental_ok`.
pub open spec fn spec_rental_row(fields: Seq<Seq<char>>, cols: RentalColumns) -> Option<(Seq<char>, Seq<char>, TenantType, Date, Date)> {
    if row_rental_ok(fields, cols) {
        Some((
            trimmed_field(fields, cols.locker as int),
            trimmed_field(fields, cols.tenant as int),
            row_tenant_type(fields, cols.tenant_type),
            parsed_date(trimmed_field(fields, cols.start as int))->0,
            parsed_date(trimmed_field(fields, cols.end as int))->0,
        ))
    } else {
        None
    }
}

/// A rental row as its texts, type and dates.
pub open spec fn rental_row_view(row: RentalRow) -> (Seq<char>, Seq<char>, TenantType, Date, Date) {
    (row.locker_label@, row.tenant@, row.tenant_type, row.start, row.end)
}

/// Reads a rental from a row given as strings (see `spec_rental_row`).
fn parse_rental_fields(record: &Vec<String>, cols: &RentalColumns) -> (r: Option<RentalRow>)
    ensures
        r is Some <==> row_rental_ok(fields_view(record@), *cols),
        r matches Some(row) ==> {
            &&& row.locker_label@ == trimmed_field(fields_view(record@), cols.locker as int)
            &&& row.tenant@ == trimmed_field(fields_view(record@), cols.tenant as int)
            &&& Some(row.start) == parsed_date(trimmed_field(fields_view(record@), cols.start as int))
            &&& Some(row.end) == parsed_date(trimmed_field(fields_view(record@), cols.end as int))
            &&& row.tenant_type == row_tenant_type(fields_view(record@), cols.tenant_type)
        },
{
    let locker_label = trimmed(record, cols.locker);
    let tenant = trimmed(record, cols.tenant);
    if locker_label.as_str().unicode_len() == 0 || tenant.as_str().unicode_len() == 0 {
        return None;
    }
    let start_text = trimmed(record, cols.start);
    let start = match Date::parse(start_text.as_str()) {
        Some(d) => d,
        None => {
            return None;
        },
    };
    let end_text = trimmed(record, cols.end);
    let end = match Date::parse(end_text.as_str()) {
        Some(d) => d,
        None => {
            return None;
        },
    };
    let tenant_type = match cols.tenant_type {
        Some(i) => match field_get(record, i) {
            Some(s) => {
                let t = trim(s);
                let l = to_lowercase(t.as_str());
                if contains_text(l.as_str(), "lehrer") || contains_text(l.as_str(), "teacher") {
                    TenantType::Lehrer
                } else {
                    TenantType::Schueler
                }
            },
            None => TenantType::Schueler,
        },
        None => TenantType::Schueler,
    };
    Some(RentalRow { locker_label, tenant, tenant_type, start, end })
}

/// The header row of a table; none for an empty table.
pub open spec fn table_header(t: Seq<Seq<Seq<char>>>) -> Seq<Seq<char>> {
    if t.len() > 0 { t[0] } else { Seq::empty() }
}

/// The records of a table: its rows after the header.
pub open spec fn table_records(t: Seq<Seq<Seq<char>>>) -> Seq<Seq<Seq<char>>> {
    if t.len() > 0 { t.drop_first() } else { Seq::empty() }
}

/// The lockers the records describe, in order; records that describe none are left out.
pub open spec fn locker_rows_of(records: Seq<Seq<Seq<char>>>, cols: LockerColumns) -> Seq<(Seq<char>, Seq<char>, i32, bool)>
    decreases records.len(),
{
    if records.len() == 0 {
        Seq::empty()
    } else {
        let rest = locker_rows_of(records.drop_last(), cols);
        match spec_locker_row(records.last(), cols) {
            Some(v) => rest.push(v),
            None => rest,
        }
    }
}

/// The lockers of a CSV file: an error when it is no valid table or its header lacks a
/// needed column (see `spec_locker_columns`), and otherwise the lockers its records
/// describe.
pub open spec fn spec_locker_rows(bytes: Seq<u8>) -> Result<Seq<(Seq<char>, Seq<char>, i32, bool)>, CsvImportError> {
    match spec_csv_table(bytes) {
        None => Err(CsvImportError::Malformed),
        Some(t) => match spec_locker_columns(table_header(t)) {
            Ok(cols) => Ok(locker_rows_of(table_records(t), cols)),
            Err(e) => Err(e),
        },
    }
}

/// The rentals the records describe, in order; records that describe none are left out.
pub open spec fn rental_rows_of(records: Seq<Seq<Seq<char>>>, cols: RentalColumns) -> Seq<(Seq<char>, Seq<char>, TenantType, Date, Date)>
    decreases records.len(),
{
    if records.len() == 0 {
        Seq::empty()
    } else {
        let rest = rental_rows_of(records.drop_last(), cols);
        match spec_rental_row(records.last(), cols) {
            Some(v) => rest.push(v),
            None => rest,
        }
    }
}

/// The rentals of a CSV file: an error when it is no valid table or its header lacks a
/// needed column (see `spec_rental_columns`), and otherwise the rentals its records
/// describe.
pub open spec fn spec_rental_rows(bytes: Seq<u8>) -> Result<Seq<(Seq<char>, Seq<char>, TenantType, Date, Date)>, CsvImportError> {
    match spec_csv_table(bytes) {
        None => Err(CsvImportError::Malformed),
        Some(t) => match spec_rental_columns(table_header(t)) {
            Ok(cols) => Ok(rental_rows_of(table_records(t), cols)),
            Err(e) => Err(e),
        },
    }
}

/// The header row of a table of strings; an empty row for an empty table.
fn header_row(table: &Vec<Vec<String>>) -> (r: Vec<String>)
    ensures
        fields_view(r@) == table_header(table_view(table@)),
{
    if table.len() > 0 {
        table[0].clone()
    } else {
        let r: Vec<String> = Vec::new();
        assert(fields_view(r@) =~= Seq::<Seq<char>>::empty());
        r
    }
}

/// Reads the lockers of a CSV file (see `spec_locker_rows`).
pub fn locker_rows(bytes: &[u8]) -> (r: Result<Vec<LockerRow>, CsvImportError>)
    ensures
        match r {
            Ok(v) => spec_locker_rows(bytes@) == Ok::<_, CsvImportError>(v@.map_values(|x: LockerRow| locker_row_view(x))),
            Err(e) => spec_locker_rows(bytes@) == Err::<Seq<(Seq<char>, Seq<char>, i32, bool)>, _>(e),
        },
{
    let table = match csv_table(bytes) {
        Some(t) => t,
        None => {
            return Err(CsvImportError::Malformed);
        },
    };
    let ghost tv = table_view(table@);
    let header = header_row(&table);
    let cols = match locker_columns_in(&header) {
        Ok(c) => c,
        Err(e) => {
            return Err(e);
        },
    };
    let ghost records = table_records(tv);
    let n: usize = if table.len() > 0 { table.len() - 1 } else { 0 };
    let mut rows: Vec<LockerRow> = Vec::new();
    let mut i: usize = 0;
    assert(records.take(0) =~= Seq::<Seq<Seq<char>>>::empty());
    assert(rows@.map_values(|x: LockerRow| locker_row_view(x)) =~= Seq::<(Seq<char>, Seq<char>, i32, bool)>::empty());
    while i < n
        invariant
            i <= n,
            n == records.len(),
            records == table_records(tv),
            tv == table_view(table@),
            rows@.map_values(|x: LockerRow| locker_row_view(x)) == locker_rows_of(records.take(i as int), cols),
        decreases n - i,
    {
        let ghost before = rows@;
        assert(records[i as int] == fields_view(table@[i + 1]@));
        match parse_locker_fields(&table[i + 1], &cols) {
            Some(row) => {
                rows.push(row);
                assert(rows@.map_values(|x: LockerRow| locker_row_view(x))
                    =~= before.map_values(|x: LockerRow| locker_row_view(x)).push(locker_row_view(row)));
            },
            None => {},
        }
        assert(records.take(i + 1).drop_last() =~= records.take(i as int));
        i = i + 1;
    }
    assert(records.take(n as int) =~= records);
    Ok(rows)
}

/// Reads the rentals of a CSV file (see `spec_rental_rows`).
pub fn rental_rows(bytes: &[u8]) -> (r: Result<Vec<RentalRow>, CsvImportError>)
    ensures
        match r {
            Ok(v) => spec_rental_rows(bytes@) == Ok::<_, CsvImportError>(v@.map_values(|x: RentalRow| rental_row_view(x))),
            Err(e) => spec_rental_rows(bytes@) == Err::<Seq<(Seq<char>, Seq<char>, TenantType, Date, Date)>, _>(e),
        },
{
    let table = match csv_table(bytes) {
        Some(t) => t,
        None => {
            return Err(CsvImportError::Malformed);
        },
    };
    let ghost tv = table_view(table@);
    let header = header_row(&table);
    let cols = match rental_columns_in(&header) {
        Ok(c) => c,
        Err(e) => {
            return Err(e);
        },
    };
    let ghost records = table_records(tv);
    let n: usize = if table.len() > 0 { table.len() - 1 } else { 0 };
    let mut rows: Vec<RentalRow> = Vec::new();
    let mut i: usize = 0;
    assert(records.take(0) =~= Seq::<Seq<Seq<char>>>::empty());
    assert(rows@.map_values(|x: RentalRow| rental_row_view(x)) =~= Seq::<(Seq<char>, Seq<char>, TenantType, Date, Date)>::empty());
    while i < n
        invariant
            i <= n,
            n == records.len(),
            records == table_records(tv),
            tv == table_view(table@),
            rows@.map_values(|x: RentalRow| rental_row_view(x)) == rental_rows_of(records.take(i as int), cols),
        decreases n - i,
    {
        let ghost before = rows@;
        assert(records[i as int] == fields_view(table@[i + 1]@));
        match parse_rental_fields(&table[i + 1], &cols) {
            Some(row) => {
                rows.push(row);
                assert(rows@.map_values(|x: RentalRow| rental_row_view(x))
                    =~= before.map_values(|x: RentalRow| rental_row_view(x)).push(rental_row_view(row)));
            },
            None => {},
        }
        assert(records.take(i + 1).drop_last() =~= records.take(i as int));
        i = i + 1;
    }
    assert(records.take(n as int) =~= records);
    Ok(rows)
}

} // verus!
