//! The records of the CSV export: one file each for lockers, rentals, payments and
//! locations, each a header row followed by one row per entry.

use super::ExportData;
use crate::calendar::{spec_date_text, spec_rfc3339};
use crate::model::{payment_type_text, Location, Locker, Payment, Rental};
use crate::text::{i64_text, int_text};
use vstd::prelude::*;

verus! {

/// A table of strings as texts.
pub open spec fn table_view(t: Seq<Vec<String>>) -> Seq<Seq<Seq<char>>> {
    t.map_values(|row: Vec<String>| row@.map_values(|s: String| s@))
}

/// Adding a row to a table adds its texts to the table's texts.
proof fn lemma_table_push(t: Seq<Vec<String>>, row: Vec<String>)
    ensures
        table_view(t.push(row)) == table_view(t).push(row@.map_values(|s: String| s@)),
{
    assert(table_view(t.push(row)) =~= table_view(t).push(row@.map_values(|s: String| s@)));
}

/// Mapping one more element of a sequence adds its image.
proof fn lemma_map_take_push<A, B>(s: Seq<A>, i: int, f: spec_fn(A) -> B)
    requires
        0 <= i < s.len(),
    ensures
        s.take(i + 1).map_values(f) == s.take(i).map_values(f).push(f(s[i])),
{
    assert(s.take(i + 1).map_values(f) =~= s.take(i).map_values(f).push(f(s[i])));
}

/// Text of a boolean as `bool::to_string` gives it.
pub open spec fn bool_text(b: bool) -> Seq<char> {
    if b { "true"@ } else { "false"@ }
}

/// An optional text, empty when absent.
pub open spec fn text_or_empty(o: Option<String>) -> Seq<char> {
    match o {
        Some(s) => s@,
        None => Seq::empty(),
    }
}

/// Header of the locker file.
pub open spec fn locker_header() -> Seq<Seq<char>> {
    seq!["id"@, "number"@, "location"@, "size"@, "is_damaged"@, "notes"@, "created_at"@]
}

/// Row of the locker file for a locker.
pub open spec fn locker_record(l: Locker) -> Seq<Seq<char>> {
    seq![
        int_text(l.id as int), l.number@, l.location@, l.size@, bool_text(l.is_damaged), text_or_empty(l.notes),
        spec_rfc3339(l.created_at.secs, l.created_at.nanos),
    ]
}

/// Header of the rental file.
pub open spec fn rental_header() -> Seq<Seq<char>> {
    seq![
        "id"@, "locker_id"@, "renter_name"@, "renter_email"@, "renter_phone"@, "start_date"@, "end_date"@,
        "deposit_paid"@, "deposit_returned"@, "notes"@, "created_at"@,
    ]
}

/// Row of the rental file for a rental.
pub open spec fn rental_record(r: Rental) -> Seq<Seq<char>> {
    seq![
        int_text(r.id as int), int_text(r.locker_id as int), r.renter_name@, text_or_empty(r.renter_email),
        text_or_empty(r.renter_phone), spec_date_text(r.start_date@ as i32), spec_date_text(r.end_date@ as i32),
        bool_text(r.deposit_paid), bool_text(r.deposit_returned), text_or_empty(r.notes),
        spec_rfc3339(r.created_at.secs, r.created_at.nanos),
    ]
}

/// Each cell of a rental's row in the rental file is the text of the field its header
/// names; in particular the two deposit cells differ when the two flags differ.
pub proof fn rental_cells_follow_the_header(r: Rental)
    ensures
        rental_record(r).len() == rental_header().len(),
        forall|i: int| 0 <= i < rental_header().len() ==> {
            &&& rental_header()[i] == "id"@ ==> rental_record(r)[i] == int_text(r.id as int)
            &&& rental_header()[i] == "locker_id"@ ==> rental_record(r)[i] == int_text(r.locker_id as int)
            &&& rental_header()[i] == "renter_name"@ ==> rental_record(r)[i] == r.renter_name@
            &&& rental_header()[i] == "renter_email"@ ==> rental_record(r)[i] == text_or_empty(r.renter_email)
            &&& rental_header()[i] == "renter_phone"@ ==> rental_record(r)[i] == text_or_empty(r.renter_phone)
            &&& rental_header()[i] == "start_date"@ ==> rental_record(r)[i] == spec_date_text(r.start_date@ as i32)
            &&& rental_header()[i] == "end_date"@ ==> rental_record(r)[i] == spec_date_text(r.end_date@ as i32)
            &&& rental_header()[i] == "deposit_paid"@ ==> rental_record(r)[i] == (if r.deposit_paid { "true"@ } else { "false"@ })
            &&& rental_header()[i] == "deposit_returned"@ ==> rental_record(r)[i] == (if r.deposit_returned { "true"@ } else { "false"@ })
            &&& rental_header()[i] == "notes"@ ==> rental_record(r)[i] == text_or_empty(r.notes)
            &&& rental_header()[i] == "created_at"@ ==> rental_record(r)[i] == spec_rfc3339(r.created_at.secs, r.created_at.nanos)
        },
        r.deposit_paid != r.deposit_returned ==> rental_record(r)[7] != rental_record(r)[8],
{
    reveal_strlit("id");
    reveal_strlit("locker_id");
    reveal_strlit("renter_name");
    reveal_strlit("renter_email");
    reveal_strlit("renter_phone");
    reveal_strlit("start_date");
    reveal_strlit("end_date");
    reveal_strlit("deposit_paid");
    reveal_strlit("deposit_returned");
    reveal_strlit("notes");
    reveal_strlit("created_at");
    reveal_strlit("true");
    reveal_strlit("false");
    assert("true"@.len() != "false"@.len());
    let h = rental_header();
    let names = seq![
        "id"@, "locker_id"@, "renter_name"@, "renter_email"@, "renter_phone"@, "start_date"@, "end_date"@,
        "deposit_paid"@, "deposit_returned"@, "notes"@, "created_at"@,
    ];
    assert(h =~= names);
    assert forall|i: int, k: int| 0 <= i < 11 && 0 <= k < 11 && i != k implies #[trigger] names[i] != #[trigger] names[k] by {
        if names[i].len() == names[k].len() {
            assert(names[i][0] != names[k][0] || names[i][1] != names[k][1] || names[i][7] != names[k][7]);
        }
    }
}

/// Header of the payment file.
pub open spec fn payment_header() -> Seq<Seq<char>> {
    seq!["id"@, "rental_id"@, "amount_cents"@, "payment_date"@, "payment_type"@, "notes"@, "created_at"@]
}

/// Row of the payment file for a payment.
pub open spec fn payment_record(p: Payment) -> Seq<Seq<char>> {
    seq![
        int_text(p.id as int), int_text(p.rental_id as int), int_text(p.amount_cents as int),
        spec_date_text(p.payment_date@ as i32), payment_type_text(p.payment_type), text_or_empty(p.notes),
        spec_rfc3339(p.created_at.secs, p.created_at.nanos),
    ]
}

/// Each cell of a locker's row in the locker file is the text of the field its header
/// names.
pub proof fn locker_cells_follow_the_header(l: Locker)
    ensures
        locker_record(l).len() == locker_header().len(),
        forall|i: int| 0 <= i < locker_header().len() ==> {
            &&& locker_header()[i] == "id"@ ==> locker_record(l)[i] == int_text(l.id as int)
            &&& locker_header()[i] == "number"@ ==> locker_record(l)[i] == l.number@
            &&& locker_header()[i] == "location"@ ==> locker_record(l)[i] == l.location@
            &&& locker_header()[i] == "size"@ ==> locker_record(l)[i] == l.size@
            &&& locker_header()[i] == "is_damaged"@ ==> locker_record(l)[i] == (if l.is_damaged { "true"@ } else { "false"@ })
            &&& locker_header()[i] == "notes"@ ==> locker_record(l)[i] == text_or_empty(l.notes)
            &&& locker_header()[i] == "created_at"@ ==> locker_record(l)[i] == spec_rfc3339(l.created_at.secs, l.created_at.nanos)
        },
{
    reveal_strlit("id");
    reveal_strlit("number");
    reveal_strlit("location");
    reveal_strlit("size");
    reveal_strlit("is_damaged");
    reveal_strlit("notes");
    reveal_strlit("created_at");
    let names = seq!["id"@, "number"@, "location"@, "size"@, "is_damaged"@, "notes"@, "created_at"@];
    assert(locker_header() =~= names);
    assert forall|i: int, k: int| 0 <= i < 7 && 0 <= k < 7 && i != k implies #[trigger] names[i] != #[trigger] names[k] by {
        if names[i].len() == names[k].len() {
            assert(names[i][0] != names[k][0]);
        }
    }
}

/// Each cell of a payment's row in the payment file is the text of the field its header
/// names.
pub proof fn payment_cells_follow_the_header(p: Payment)
    ensures
        payment_record(p).len() == payment_header().len(),
        forall|i: int| 0 <= i < payment_header().len() ==> {
            &&& payment_header()[i] == "id"@ ==> payment_record(p)[i] == int_text(p.id as int)
            &&& payment_header()[i] == "rental_id"@ ==> payment_record(p)[i] == int_text(p.rental_id as int)
            &&& payment_header()[i] == "amount_cents"@ ==> payment_record(p)[i] == int_text(p.amount_cents as int)
            &&& payment_header()[i] == "payment_date"@ ==> payment_record(p)[i] == spec_date_text(p.payment_date@ as i32)
            &&& payment_header()[i] == "payment_type"@ ==> payment_record(p)[i] == payment_type_text(p.payment_type)
            &&& payment_header()[i] == "notes"@ ==> payment_record(p)[i] == text_or_empty(p.notes)
            &&& payment_header()[i] == "created_at"@ ==> payment_record(p)[i] == spec_rfc3339(p.created_at.secs, p.created_at.nanos)
        },
{
    reveal_strlit("id");
    reveal_strlit("rental_id");
    reveal_strlit("amount_cents");
    reveal_strlit("payment_date");
    reveal_strlit("payment_type");
    reveal_strlit("notes");
    reveal_strlit("created_at");
    let names = seq!["id"@, "rental_id"@, "amount_cents"@, "payment_date"@, "payment_type"@, "notes"@, "created_at"@];
    assert(payment_header() =~= names);
    assert forall|i: int, k: int| 0 <= i < 7 && 0 <= k < 7 && i != k implies #[trigger] names[i] != #[trigger] names[k] by {
        if names[i].len() == names[k].len() {
            assert(names[i][0] != names[k][0] || names[i][8] != names[k][8]);
        }
    }
}

/// Header of the location file.
pub open spec fn location_header() -> Seq<Seq<char>> {
    seq!["id"@, "name"@, "created_at"@]
}

/// Row of the location file for a location.
pub open spec fn location_record(l: Location) -> Seq<Seq<char>> {
    seq![int_text(l.id as int), l.name@, spec_rfc3339(l.created_at.secs, l.created_at.nanos)]
}

/// Text of a boolean.
fn bool_string(b: bool) -> (r: String)
    ensures
        r@ == bool_text(b),
{
    if b { "true".to_owned() } else { "false".to_owned() }
}

/// An optional text, empty when absent.
fn string_or_empty(o: &Option<String>) -> (r: String)
    ensures
        r@ == text_or_empty(*o),
{
    match o {
        Some(s) => s.clone(),
        None => String::new(),
    }
}

/// Strings of a list of literals.
fn owned_row(cells: Vec<&str>) -> (r: Vec<String>)
    ensures
        r@.map_values(|s: String| s@) == cells@.map_values(|s: &str| s@),
{
    let mut out: Vec<String> = Vec::new();
    let mut i: usize = 0;
    while i < cells.len()
        invariant
            i <= cells.len(),
            out@.map_values(|s: String| s@) == cells@.take(i as int).map_values(|s: &str| s@),
        decreases cells.len() - i,
    {
        let ghost before = out@;
        out.push(cells[i].to_owned());
        proof {
            lemma_map_take_push(cells@, i as int, |s: &str| s@);
            assert(out@.map_values(|s: String| s@) =~= before.map_values(|s: String| s@).push(cells@[i as int]@));
        }
        i = i + 1;
    }
    assert(cells@.take(cells.len() as int) =~= cells@);
    out
}

/// The rows of the locker file: the header, then a row per locker.
pub fn write_lockers(data: &ExportData) -> (r: Vec<Vec<String>>)
    ensures
        table_view(r@) == seq![locker_header()] + data.lockers@.map_values(|l: Locker| locker_record(l)),
{
    let header = owned_row(vec!["id", "number", "location", "size", "is_damaged", "notes", "created_at"]);
    assert(header@.map_values(|s: String| s@) =~= locker_header());
    let mut out: Vec<Vec<String>> = vec![header];
    let mut i: usize = 0;
    while i < data.lockers.len()
        invariant
            i <= data.lockers.len(),
            table_view(out@) == seq![locker_header()] + data.lockers@.take(i as int).map_values(|l: Locker| locker_record(l)),
        decreases data.lockers.len() - i,
    {
        let l = &data.lockers[i];
        let row = vec![
            i64_text(l.id),
            l.number.clone(),
            l.location.clone(),
            l.size.clone(),
            bool_string(l.is_damaged),
            string_or_empty(&l.notes),
            l.created_at.to_rfc3339(),
        ];
        assert(row@.map_values(|s: String| s@) =~= locker_record(*l));
        let ghost before = out@;
        out.push(row);
        proof {
            lemma_table_push(before, row);
            lemma_map_take_push(data.lockers@, i as int, |l: Locker| locker_record(l));
            assert(table_view(out@) =~= seq![locker_header()] + data.lockers@.take(i + 1).map_values(|l: Locker| locker_record(l)));
        }
        i = i + 1;
    }
    assert(data.lockers@.take(data.lockers.len() as int) =~= data.lockers@);
    out
}

/// The rows of the rental file: the header, then a row per rental.
pub fn write_rentals(data: &ExportData) -> (r: Vec<Vec<String>>)
    ensures
        table_view(r@) == seq![rental_header()] + data.rentals@.map_values(|x: Rental| rental_record(x)),
{
    let header = owned_row(vec![
        "id", "locker_id", "renter_name", "renter_email", "renter_phone", "start_date", "end_date", "deposit_paid",
        "deposit_returned", "notes", "created_at",
    ]);
    assert(header@.map_values(|s: String| s@) =~= rental_header());
    let mut out: Vec<Vec<String>> = vec![header];
    let mut i: usize = 0;
    while i < data.rentals.len()
        invariant
            i <= data.rentals.len(),
            table_view(out@) == seq![rental_header()] + data.rentals@.take(i as int).map_values(|x: Rental| rental_record(x)),
        decreases data.rentals.len() - i,
    {
        let x = &data.rentals[i];
        let row = vec![
            i64_text(x.id),
            i64_text(x.locker_id),
            x.renter_name.clone(),
            string_or_empty(&x.renter_email),
            string_or_empty(&x.renter_phone),
            x.start_date.to_text(),
            x.end_date.to_text(),
            bool_string(x.deposit_paid),
            bool_string(x.deposit_returned),
            string_or_empty(&x.notes),
            x.created_at.to_rfc3339(),
        ];
        assert(row@.map_values(|s: String| s@) =~= rental_record(*x));
        let ghost before = out@;
        out.push(row);
        proof {
            lemma_table_push(before, row);
            lemma_map_take_push(data.rentals@, i as int, |x: Rental| rental_record(x));
            assert(table_view(out@) =~= seq![rental_header()] + data.rentals@.take(i + 1).map_values(|x: Rental| rental_record(x)));
        }
        i = i + 1;
    }
    assert(data.rentals@.take(data.rentals.len() as int) =~= data.rentals@);
    out
}

/// The rows of the payment file: the header, then a row per payment.
pub fn write_payments(data: &ExportData) -> (r: Vec<Vec<String>>)
    ensures
        table_view(r@) == seq![payment_header()] + data.payments@.map_values(|p: Payment| payment_record(p)),
{
    let header = owned_row(vec![
        "id", "rental_id", "amount_cents", "payment_date", "payment_type", "notes", "created_at",
    ]);
    assert(header@.map_values(|s: String| s@) =~= payment_header());
    let mut out: Vec<Vec<String>> = vec![header];
    let mut i: usize = 0;
    while i < data.payments.len()
        invariant
            i <= data.payments.len(),
            table_view(out@) == seq![payment_header()] + data.payments@.take(i as int).map_values(|p: Payment| payment_record(p)),
        decreases data.payments.len() - i,
    {
        let p = &data.payments[i];
        let row = vec![
            i64_text(p.id),
            i64_text(p.rental_id),
            i64_text(p.amount_cents),
            p.payment_date.to_text(),
            p.payment_type.as_str().to_owned(),
            string_or_empty(&p.notes),
            p.created_at.to_rfc3339(),
        ];
        assert(row@.map_values(|s: String| s@) =~= payment_record(*p));
        let ghost before = out@;
        out.push(row);
        proof {
            lemma_table_push(before, row);
            lemma_map_take_push(data.payments@, i as int, |p: Payment| payment_record(p));
            assert(table_view(out@) =~= seq![payment_header()] + data.payments@.take(i + 1).map_values(|p: Payment| payment_record(p)));
        }
        i = i + 1;
    }
    assert(data.payments@.take(data.payments.len() as int) =~= data.payments@);
    out
}

/// The rows of the location file: the header, then a row per location.
pub fn write_locations(data: &ExportData) -> (r: Vec<Vec<String>>)
    ensures
        table_view(r@) == seq![location_header()] + data.locations@.map_values(|l: Location| location_record(l)),
{
    let header = owned_row(vec!["id", "name", "created_at"]);
    assert(header@.map_values(|s: String| s@) =~= location_header());
    let mut out: Vec<Vec<String>> = vec![header];
    let mut i: usize = 0;
    while i < data.locations.len()
        invariant
            i <= data.locations.len(),
            table_view(out@) == seq![location_header()] + data.locations@.take(i as int).map_values(|l: Location| location_record(l)),
        decreases data.locations.len() - i,
    {
        let l = &data.locations[i];
        let row = vec![i64_text(l.id), l.name.clone(), l.created_at.to_rfc3339()];
        assert(row@.map_values(|s: String| s@) =~= location_record(*l));
        let ghost before = out@;
        out.push(row);
        proof {
            lemma_table_push(before, row);
            lemma_map_take_push(data.locations@, i as int, |l: Location| location_record(l));
            assert(table_view(out@) =~= seq![location_header()] + data.locations@.take(i + 1).map_values(|l: Location| location_record(l)));
        }
        i = i + 1;
    }
    assert(data.locations@.take(data.locations.len() as int) =~= data.locations@);
    out
}

/// The bytes a CSV writer with the `csv` crate's default settings (comma separated,
/// quoted where needed, every record as long as the first) makes of these rows, or
/// `None` where the writer reports an error.
pub uninterp spec fn spec_csv_bytes(table: Seq<Seq<Seq<char>>>) -> Option<Seq<u8>>;

/// `csv::Writer::from_writer` into memory: each row written as a record, then the
/// bytes; `None` where the writer reports an error. The result is named.
#[verifier::external_body]
fn csv_bytes(table: &Vec<Vec<String>>) -> (r: Option<Vec<u8>>)
    ensures
        r matches Some(b) ==> spec_csv_bytes(table_view(table@)) == Some(b@),
        r is None ==> spec_csv_bytes(table_view(table@)) is None,
{
    let mut writer = csv::Writer::from_writer(Vec::new());
    for row in table.iter() {
        writer.write_record(row).ok()?;
    }
    writer.into_inner().ok()
}

/// The locker table of an export (see `write_lockers`).
pub open spec fn lockers_table(data: ExportData) -> Seq<Seq<Seq<char>>> {
    seq![locker_header()] + data.lockers@.map_values(|l: Locker| locker_record(l))
}

/// The rental table of an export (see `write_rentals`).
pub open spec fn rentals_table(data: ExportData) -> Seq<Seq<Seq<char>>> {
    seq![rental_header()] + data.rentals@.map_values(|x: Rental| rental_record(x))
}

/// The payment table of an export (see `write_payments`).
pub open spec fn payments_table(data: ExportData) -> Seq<Seq<Seq<char>>> {
    seq![payment_header()] + data.payments@.map_values(|p: Payment| payment_record(p))
}

/// The location table of an export (see `write_locations`).
pub open spec fn locations_table(data: ExportData) -> Seq<Seq<Seq<char>>> {
    seq![location_header()] + data.locations@.map_values(|l: Location| location_record(l))
}

/// Whether `file` is the file named `name` with the CSV bytes of `table`.
pub open spec fn csv_file(file: (String, Vec<u8>), name: Seq<char>, table: Seq<Seq<Seq<char>>>) -> bool {
    file.0@ == name && spec_csv_bytes(table) == Some(file.1@)
}

/// The four CSV files of an export, `lockers.csv`, `rentals.csv`, `payments.csv` and
/// `locations.csv`, each with the bytes of its table; `None` when one of the tables
/// cannot be written.
pub fn export(data: &ExportData) -> (r: Option<Vec<(String, Vec<u8>)>>)
    ensures
        r is None <==> (spec_csv_bytes(lockers_table(*data)) is None || spec_csv_bytes(rentals_table(*data)) is None
            || spec_csv_bytes(payments_table(*data)) is None || spec_csv_bytes(locations_table(*data)) is None),
        r matches Some(files) ==> {
            &&& files.len() == 4
            &&& csv_file(files@[0], "lockers.csv"@, lockers_table(*data))
            &&& csv_file(files@[1], "rentals.csv"@, rentals_table(*data))
            &&& csv_file(files@[2], "payments.csv"@, payments_table(*data))
            &&& csv_file(files@[3], "locations.csv"@, locations_table(*data))
        },
{
    let lockers = match csv_bytes(&write_lockers(data)) {
        Some(b) => b,
        None => {
            return None;
        },
    };
    let rentals = match csv_bytes(&write_rentals(data)) {
        Some(b) => b,
        None => {
            return None;
        },
    };
    let payments = match csv_bytes(&write_payments(data)) {
        Some(b) => b,
        None => {
            return None;
        },
    };
    let locations = match csv_bytes(&write_locations(data)) {
        Some(b) => b,
        None => {
            return None;
        },
    };
    let mut files: Vec<(String, Vec<u8>)> = Vec::new();
    files.push(("lockers.csv".to_owned(), lockers));
    files.push(("rentals.csv".to_owned(), rentals));
    files.push(("payments.csv".to_owned(), payments));
    files.push(("locations.csv".to_owned(), locations));
    Some(files)
}

} // verus!
