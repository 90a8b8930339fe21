//! The sample data a new database is filled with: 150 lockers in three buildings, a
//! few of them damaged, and rentals that are running, overdue, running out or over.

use crate::calendar::{Date, Timestamp};
use crate::models::{Payment, PaymentType, TenantType};
use crate::text::digit_char;
use vstd::prelude::*;

verus! {

/// A locker of the sample data: its label, its building, and its position among the
/// lockers of that building, counted from 1, with their number (the height is taken
/// from where it stands in the row).
#[derive(Debug, Clone)]
pub struct SeedLocker {
    /// The label, such as `A-001`.
    pub label: String,
    /// The building.
    pub location: &'static str,
    /// Position in the building's row, from 1.
    pub position: u32,
    /// Number of lockers in the building.
    pub count: u32,
}

/// Three-digit, zero-padded decimal text of `n` (below 1000).
pub open spec fn pad3(n: nat) -> Seq<char> {
    seq![digit_char(((n / 100) % 10) as int), digit_char(((n / 10) % 10) as int), digit_char((n % 10) as int)]
}

/// Buildings, label prefixes and numbers of lockers of the sample data.
pub open spec fn seed_block(b: int) -> (Seq<char>, char, nat) {
    if b == 0 {
        ("Hauptgebäude"@, 'A', 60)
    } else if b == 1 {
        ("Turnhalle"@, 'B', 50)
    } else {
        ("Neubau"@, 'C', 40)
    }
}

/// Index of the first sample locker of building `b`; 150 after the last building.
pub open spec fn block_start(b: int) -> nat {
    if b == 0 { 0 } else if b == 1 { 60 } else if b == 2 { 110 } else { 150 }
}

/// Building of the sample locker at index `k`.
pub open spec fn block_of(k: int) -> int {
    if k < 60 { 0 } else if k < 110 { 1 } else { 2 }
}

/// The sample locker at index `k` (0 to 149) as label, building, position and count.
pub open spec fn seed_locker_view(k: int) -> (Seq<char>, Seq<char>, u32, u32) {
    let b = block_of(k);
    let (location, prefix, count) = seed_block(b);
    let position = (k - block_start(b) + 1) as nat;
    (seq![prefix, '-'] + pad3(position), location, position as u32, count as u32)
}

/// The label of locker `i` of a building with the given prefix.
fn seed_label(prefix: char, i: u32) -> (r: String)
    requires
        i < 1000,
    ensures
        r@ == seq![prefix, '-'] + pad3(i as nat),
{
    let mut s = String::new();
    crate::text::push_char(&mut s, prefix);
    crate::text::push_char(&mut s, '-');
    crate::text::push_char(&mut s, crate::text::digit_of(((i / 100) % 10) as u64));
    crate::text::push_char(&mut s, crate::text::digit_of(((i / 10) % 10) as u64));
    crate::text::push_char(&mut s, crate::text::digit_of((i % 10) as u64));
    assert(s@ =~= seq![prefix, '-'] + pad3(i as nat));
    s
}

/// The 150 sample lockers: 60 in the main building (`A-001` to `A-060`), 50 in the
/// gym (`B-…`) and 40 in the new building (`C-…`).
pub fn seed_lockers() -> (r: Vec<SeedLocker>)
    ensures
        r.len() == 150,
        forall|k: int| 0 <= k < 150 ==> (#[trigger] r@[k].label@, r@[k].location@, r@[k].position, r@[k].count) == seed_locker_view(k),
{
    let mut out: Vec<SeedLocker> = Vec::new();
    let mut b: usize = 0;
    while b < 3
        invariant
            b <= 3,
            out.len() == block_start(b as int),
            forall|k: int| 0 <= k < out.len() ==> (#[trigger] out@[k].label@, out@[k].location@, out@[k].position, out@[k].count) == seed_locker_view(k),
        decreases 3 - b,
    {
        let (location, prefix, count): (&'static str, char, u32) = if b == 0 {
            ("Hauptgebäude", 'A', 60)
        } else if b == 1 {
            ("Turnhalle", 'B', 50)
        } else {
            ("Neubau", 'C', 40)
        };
        let mut i: u32 = 1;
        while i <= count
            invariant
                b < 3,
                1 <= i <= count + 1,
                (location@, prefix, count as nat) == seed_block(b as int),
                out.len() == block_start(b as int) + i - 1,
                forall|k: int| 0 <= k < out.len() ==> (#[trigger] out@[k].label@, out@[k].location@, out@[k].position, out@[k].count) == seed_locker_view(k),
            decreases count + 1 - i,
        {
            let label = seed_label(prefix, i);
            let ghost k = out.len() as int;
            out.push(SeedLocker { label, location, position: i, count });
            assert(block_of(k) == b);
            i = i + 1;
        }
        b = b + 1;
    }
    out
}

/// Labels of the sample lockers that are damaged.
pub fn seed_damaged_labels() -> (r: Vec<&'static str>)
    ensures
        r@.map_values(|s: &str| s@) == seq!["A-015"@, "B-025"@, "C-010"@],
{
    let r = vec!["A-015", "B-025", "C-010"];
    assert(r@.map_values(|s: &str| s@) =~= seq!["A-015"@, "B-025"@, "C-010"@]);
    r
}

/// A rental of the sample data; its dates are days from the day the data is made.
#[derive(Debug, Clone, Copy, PartialEq, Eq)]
pub struct SeedRental {
    /// Label of the rented locker.
    pub label: &'static str,
    /// Username of the tenant.
    pub username: &'static str,
    /// Kind of tenant.
    pub tenant_type: TenantType,
    /// Start, in days from today.
    pub start_offset: i64,
    /// End, in days from today.
    pub end_offset: i64,
    /// Whether the deposit was paid.
    pub deposit_paid: bool,
    /// Whether the locker was returned, with the deposit.
    pub returned: bool,
}

/// The sample rentals: four running, two overdue, two running out soon, and two that
/// are over and whose lockers were returned.
pub open spec fn seed_rental_views() -> Seq<(Seq<char>, Seq<char>, TenantType, i64, i64, bool, bool)> {
    seq![
        ("A-001"@, "max.mustermann"@, TenantType::Schueler, -100i64, 265i64, true, false),
        ("A-010"@, "anna.schmidt"@, TenantType::Schueler, -200i64, 165i64, true, false),
        ("A-020"@, "peter.mueller"@, TenantType::Lehrer, -50i64, 315i64, true, false),
        ("B-005"@, "lisa.weber"@, TenantType::Schueler, -300i64, 65i64, true, false),
        ("A-042"@, "overdue.student"@, TenantType::Schueler, -400i64, -35i64, true, false),
        ("B-015"@, "another.overdue"@, TenantType::Schueler, -500i64, -85i64, true, false),
        ("C-005"@, "expiring.soon"@, TenantType::Schueler, -350i64, 15i64, true, false),
        ("C-010"@, "also.expiring"@, TenantType::Lehrer, -340i64, 25i64, true, false),
        ("A-003"@, "returned.user1"@, TenantType::Schueler, -500i64, -100i64, true, true),
        ("A-004"@, "returned.user2"@, TenantType::Lehrer, -600i64, -200i64, true, true),
    ]
}

/// A sample rental as its texts and numbers.
pub open spec fn seed_rental_view(r: SeedRental) -> (Seq<char>, Seq<char>, TenantType, i64, i64, bool, bool) {
    (r.label@, r.username@, r.tenant_type, r.start_offset, r.end_offset, r.deposit_paid, r.returned)
}

/// A sample rental.
fn seed_rental(label: &'static str, username: &'static str, tenant_type: TenantType, start_offset: i64, end_offset: i64, returned: bool) -> (r: SeedRental)
    ensures
        seed_rental_view(r) == (label@, username@, tenant_type, start_offset, end_offset, true, returned),
{
    SeedRental { label, username, tenant_type, start_offset, end_offset, deposit_paid: true, returned }
}

/// The sample rentals (see `seed_rental_views`).
pub fn seed_rentals() -> (r: Vec<SeedRental>)
    ensures
        r@.map_values(|x: SeedRental| seed_rental_view(x)) == seed_rental_views(),
{
    let r = vec![
        seed_rental("A-001", "max.mustermann", TenantType::Schueler, -100, 265, false),
        seed_rental("A-010", "anna.schmidt", TenantType::Schueler, -200, 165, false),
        seed_rental("A-020", "peter.mueller", TenantType::Lehrer, -50, 315, false),
        seed_rental("B-005", "lisa.weber", TenantType::Schueler, -300, 65, false),
        seed_rental("A-042", "overdue.student", TenantType::Schueler, -400, -35, false),
        seed_rental("B-015", "another.overdue", TenantType::Schueler, -500, -85, false),
        seed_rental("C-005", "expiring.soon", TenantType::Schueler, -350, 15, false),
        seed_rental("C-010", "also.expiring", TenantType::Lehrer, -340, 25, false),
        seed_rental("A-003", "returned.user1", TenantType::Schueler, -500, -100, true),
        seed_rental("A-004", "returned.user2", TenantType::Lehrer, -600, -200, true),
    ];
    assert(r@.map_values(|x: SeedRental| seed_rental_view(x)) =~= seed_rental_views());
    r
}

/// `p` is a payment as `Payment::new` makes it: not stored yet, without notes.
pub open spec fn new_payment_is(p: Payment, rental_id: i64, amount_cents: i32, payment_type: PaymentType, date: Date) -> bool {
    &&& p.id == 0
    &&& p.rental_id == rental_id
    &&& p.amount_cents == amount_cents
    &&& p.payment_type == payment_type
    &&& p.payment_date == date
    &&& p.notes is None
}

/// The payments recorded for the sample rental `rental`, stored with id `rental_id`,
/// that runs from `start` to `end`: a deposit of 10 € and an extension of 10 €, both
/// on the start day, and, where the locker was returned, the deposit paid back
/// (−10 €) on the end day.
pub fn seed_payments(rental: SeedRental, rental_id: i64, start: Date, end: Date) -> (r: Vec<Payment>)
    ensures
        r.len() == if rental.returned { 3int } else { 2int },
        new_payment_is(r@[0], rental_id, 1000, PaymentType::Deposit, start),
        new_payment_is(r@[1], rental_id, 1000, PaymentType::Extension, start),
        rental.returned ==> new_payment_is(r@[2], rental_id, -1000i32, PaymentType::DepositReturn, end),
{
    let mut r = Vec::new();
    r.push(Payment::new(rental_id, 1000, PaymentType::Deposit, start));
    r.push(Payment::new(rental_id, 1000, PaymentType::Extension, start));
    if rental.returned {
        r.push(Payment::new(rental_id, -1000, PaymentType::DepositReturn, end));
    }
    r
}

/// `|n|`.
pub open spec fn abs_int(n: int) -> int {
    if n < 0 { -n } else { n }
}

/// When the sample rental `rental` was returned, for a data set made at `now_secs`
/// seconds since the epoch: as many whole days before `now_secs` as its end lies away
/// from today, or none where the locker was not returned.
pub fn seed_returned_at(rental: SeedRental, now_secs: i64) -> (r: Option<Timestamp>)
    requires
        rental.returned ==> now_secs - abs_int(rental.end_offset as int) * 86_400 >= i64::MIN,
    ensures
        r == if rental.returned {
            Some(Timestamp { secs: (now_secs - abs_int(rental.end_offset as int) * 86_400) as i64, nanos: 0 })
        } else {
            None
        },
{
    if rental.returned {
        let days: i128 = if rental.end_offset < 0 { -(rental.end_offset as i128) } else { rental.end_offset as i128 };
        let secs: i128 = now_secs as i128 - days * 86_400;
        Some(Timestamp { secs: secs as i64, nanos: 0 })
    } else {
        None
    }
}

} // verus!
