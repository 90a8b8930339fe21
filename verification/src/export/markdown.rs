//! The Markdown report: the export's facts, a table of the lockers and a table of the
//! rentals.

use super::ExportData;
use crate::calendar::spec_date_text;
use crate::model::{Locker, Rental};
use crate::text::{i64_text, int_text};
use vstd::prelude::*;

verus! {

/// The table line of a locker.
pub open spec fn locker_line(l: Locker) -> Seq<char> {
    "| "@ + int_text(l.id as int) + " | "@ + l.number@ + " | "@ + l.location@ + " | "@ + l.size@ + " | "@
        + (if l.is_damaged { "Ja"@ } else { "Nein"@ }) + " |\n"@
}

/// The table line of a rental.
pub open spec fn rental_line(r: Rental) -> Seq<char> {
    "| "@ + int_text(r.id as int) + " | "@ + int_text(r.locker_id as int) + " | "@ + r.renter_name@ + " | "@
        + spec_date_text(r.start_date@ as i32) + " → "@ + spec_date_text(r.end_date@ as i32) + " |\n"@
}

/// The table lines of the lockers, in order.
pub open spec fn locker_lines(ls: Seq<Locker>) -> Seq<char>
    decreases ls.len(),
{
    if ls.len() == 0 { Seq::empty() } else { locker_lines(ls.drop_last()) + locker_line(ls.last()) }
}

/// The table lines of the rentals, in order.
pub open spec fn rental_lines(rs: Seq<Rental>) -> Seq<char>
    decreases rs.len(),
{
    if rs.len() == 0 { Seq::empty() } else { rental_lines(rs.drop_last()) + rental_line(rs.last()) }
}

/// The whole report.
pub open spec fn report_text(data: ExportData) -> Seq<char> {
    "# Schließfach-Manager Export\n\n"@ + "- Version: "@ + data.metadata.version@ + "\n- Export Datum: "@
        + data.metadata.export_date@ + "\n- Datenbank-Version: "@ + data.metadata.database_version@ + "\n\n"@
        + "## Schließfächer\n\n"@ + "| ID | Nummer | Standort | Größe | Defekt |\n"@
        + "|----|--------|----------|-------|--------|\n"@ + locker_lines(data.lockers@)
        + "\n## Verleihvorgänge\n\n"@ + "| ID | Schließfach | Verleiher | Zeitraum |\n"@
        + "|----|-------------|-----------|----------|\n"@ + rental_lines(data.rentals@)
}

/// Appends the table line of a locker.
fn push_locker_line(out: &mut String, l: &Locker)
    ensures
        final(out)@ == old(out)@ + locker_line(*l),
{
    out.append("| ");
    out.append(i64_text(l.id).as_str());
    out.append(" | ");
    out.append(l.number.as_str());
    out.append(" | ");
    out.append(l.location.as_str());
    out.append(" | ");
    out.append(l.size.as_str());
    out.append(" | ");
    out.append(if l.is_damaged { "Ja" } else { "Nein" });
    out.append(" |\n");
    assert(final(out)@ =~= old(out)@ + locker_line(*l));
}

/// Appends the table line of a rental.
fn push_rental_line(out: &mut String, r: &Rental)
    ensures
        final(out)@ == old(out)@ + rental_line(*r),
{
    out.append("| ");
    out.append(i64_text(r.id).as_str());
    out.append(" | ");
    out.append(i64_text(r.locker_id).as_str());
    out.append(" | ");
    out.append(r.renter_name.as_str());
    out.append(" | ");
    out.append(r.start_date.to_text().as_str());
    out.append(" → ");
    out.append(r.end_date.to_text().as_str());
    out.append(" |\n");
    assert(final(out)@ =~= old(out)@ + rental_line(*r));
}

/// The Markdown report of an export (see `report_text`).
pub fn export_content(data: &ExportData) -> (r: String)
    ensures
        r@ == report_text(*data),
{
    let mut out = "# Schließfach-Manager Export\n\n".to_owned();
    out.append("- Version: ");
    out.append(data.metadata.version.as_str());
    out.append("\n- Export Datum: ");
    out.append(data.metadata.export_date.as_str());
    out.append("\n- Datenbank-Version: ");
    out.append(data.metadata.database_version.as_str());
    out.append("\n\n");
    out.append("## Schließfächer\n\n");
    out.append("| ID | Nummer | Standort | Größe | Defekt |\n");
    out.append("|----|--------|----------|-------|--------|\n");
    let ghost head = out@;
    let mut i: usize = 0;
    while i < data.lockers.len()
        invariant
            i <= data.lockers.len(),
            out@ == head + locker_lines(data.lockers@.take(i as int)),
        decreases data.lockers.len() - i,
    {
        push_locker_line(&mut out, &data.lockers[i]);
        proof {
            let t = data.lockers@.take(i + 1);
            assert(t.drop_last() =~= data.lockers@.take(i as int));
            assert(out@ =~= head + locker_lines(t));
        }
        i = i + 1;
    }
    assert(data.lockers@.take(data.lockers.len() as int) =~= data.lockers@);
    out.append("\n## Verleihvorgänge\n\n");
    out.append("| ID | Schließfach | Verleiher | Zeitraum |\n");
    out.append("|----|-------------|-----------|----------|\n");
    let ghost middle = out@;
    let mut k: usize = 0;
    while k < data.rentals.len()
        invariant
            k <= data.rentals.len(),
            out@ == middle + rental_lines(data.rentals@.take(k as int)),
        decreases data.rentals.len() - k,
    {
        push_rental_line(&mut out, &data.rentals[k]);
        proof {
            let t = data.rentals@.take(k + 1);
            assert(t.drop_last() =~= data.rentals@.take(k as int));
            assert(out@ =~= middle + rental_lines(t));
        }
        k = k + 1;
    }
    assert(data.rentals@.take(data.rentals.len() as int) =~= data.rentals@);
    assert(out@ =~= report_text(*data));
    out
}

} // verus!
