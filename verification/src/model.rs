//! Records of the storage layer: lockers, rentals, payments, locations and the
//! audit trail, with the small rules that act on them.

use crate::calendar::{Date, Timestamp};
use crate::text::str_eq;
use vstd::prelude::*;

verus! {

/// Locker entity stored in the database.
#[derive(Debug, Clone, PartialEq, Eq)]
pub struct Locker {
    /// Identifier in the database (0 before it is stored).
    pub id: i64,
    /// Number shown on the locker.
    pub number: String,
    /// Where the locker stands.
    pub location: String,
    /// Size class of the locker.
    pub size: String,
    /// Whether the locker is damaged.
    pub is_damaged: bool,
    /// Free-form notes.
    pub notes: Option<String>,
    /// When the record was created.
    pub created_at: Timestamp,
}

impl Locker {
    /// Creates a new, undamaged locker without notes, stamped with the current time.
    pub fn new(id: i64, number: &str, location: &str, size: &str) -> (r: Self)
        ensures
            r.id == id,
            r.number@ == number@,
            r.location@ == location@,
            r.size@ == size@,
            !r.is_damaged,
            r.notes is None,
    {
        Locker {
            id,
            number: number.to_owned(),
            location: location.to_owned(),
            size: size.to_owned(),
            is_damaged: false,
            notes: None,
            created_at: Timestamp::now(),
        }
    }

    /// Marks the locker as damaged; a given note replaces the existing notes.
    pub fn mark_damaged(&mut self, note: Option<String>)
        ensures
            final(self).is_damaged,
            final(self).notes == (match note {
                Some(n) => Some(n),
                None => old(self).notes,
            }),
            final(self).id == old(self).id,
            final(self).number == old(self).number,
            final(self).location == old(self).location,
            final(self).size == old(self).size,
            final(self).created_at == old(self).created_at,
    {
        self.is_damaged = true;
        if let Some(note) = note {
            self.notes = Some(note);
        }
    }

    /// Clears the damaged flag, keeping everything else.
    pub fn mark_repaired(&mut self)
        ensures
            *final(self) == (Locker { is_damaged: false, ..*old(self) }),
    {
        self.is_damaged = false;
    }
}

/// Rental record representing a locker being assigned to a renter.
#[derive(Debug, Clone, PartialEq, Eq)]
pub struct Rental {
    /// Identifier in the database (0 before it is stored).
    pub id: i64,
    /// Identifier of the rented locker.
    pub locker_id: i64,
    /// Name of the renter.
    pub renter_name: String,
    /// E-mail address of the renter.
    pub renter_email: Option<String>,
    /// Phone number of the renter.
    pub renter_phone: Option<String>,
    /// First day of the rental.
    pub start_date: Date,
    /// Last day of the rental.
    pub end_date: Date,
    /// Whether the deposit was paid.
    pub deposit_paid: bool,
    /// Whether the deposit was returned.
    pub deposit_returned: bool,
    /// Free-form notes.
    pub notes: Option<String>,
    /// When the record was created.
    pub created_at: Timestamp,
}

impl Rental {
    /// Whether the rental covers `date` (both ends included).
    pub open spec fn spec_active_on(&self, date: Date) -> bool {
        self.start_date@ <= date@ && date@ <= self.end_date@
    }

    /// Creates a rental with the required fields; nothing is paid or returned yet.
    pub fn new(id: i64, locker_id: i64, renter_name: &str, start_date: Date, end_date: Date) -> (r: Self)
        ensures
            r.id == id,
            r.locker_id == locker_id,
            r.renter_name@ == renter_name@,
            r.renter_email is None,
            r.renter_phone is None,
            r.start_date == start_date,
            r.end_date == end_date,
            !r.deposit_paid,
            !r.deposit_returned,
            r.notes is None,
    {
        Rental {
            id,
            locker_id,
            renter_name: renter_name.to_owned(),
            renter_email: None,
            renter_phone: None,
            start_date,
            end_date,
            deposit_paid: false,
            deposit_returned: false,
            notes: None,
            created_at: Timestamp::now(),
        }
    }

    /// Whether the rental is active on the given date.
    pub fn is_active_on(&self, date: Date) -> (r: bool)
        ensures
            r == self.spec_active_on(date),
    {
        self.start_date.days() <= date.days() && self.end_date.days() >= date.days()
    }

    /// Moves the end date to `new_end_date` if that is later; an earlier date changes nothing.
    pub fn extend_to(&mut self, new_end_date: Date)
        ensures
            *final(self) == (Rental {
                end_date: if new_end_date@ > old(self).end_date@ {
                    new_end_date
                } else {
                    old(self).end_date
                },
                ..*old(self)
            }),
    {
        if new_end_date.days() > self.end_date.days() {
            self.end_date = new_end_date;
        }
    }

    /// Closes the rental on `return_date`: an earlier return cuts the end date to it, and
    /// the deposit counts as returned.
    pub fn close(&mut self, return_date: Date)
        ensures
            *final(self) == (Rental {
                end_date: if return_date@ < old(self).end_date@ {
                    return_date
                } else {
                    old(self).end_date
                },
                deposit_returned: true,
                ..*old(self)
            }),
    {
        if return_date.days() < self.end_date.days() {
            self.end_date = return_date;
        }
        self.deposit_returned = true;
    }
}

/// Payment record linked to a rental.
#[derive(Debug, Clone, PartialEq, Eq)]
pub struct Payment {
    /// Identifier in the database (0 before it is stored).
    pub id: i64,
    /// Identifier of the rental the payment belongs to.
    pub rental_id: i64,
    /// Amount in cents; refunds are negative.
    pub amount_cents: i64,
    /// Day of the payment.
    pub payment_date: Date,
    /// Kind of payment.
    pub payment_type: PaymentType,
    /// Free-form notes.
    pub notes: Option<String>,
    /// When the record was created.
    pub created_at: Timestamp,
}

impl Payment {
    /// Creates a payment record with the required fields and no notes.
    pub fn new(
        id: i64,
        rental_id: i64,
        amount_cents: i64,
        payment_date: Date,
        payment_type: PaymentType,
    ) -> (r: Self)
        ensures
            r.id == id,
            r.rental_id == rental_id,
            r.amount_cents == amount_cents,
            r.payment_date == payment_date,
            r.payment_type == payment_type,
            r.notes is None,
    {
        Payment {
            id,
            rental_id,
            amount_cents,
            payment_date,
            payment_type,
            notes: None,
            created_at: Timestamp::now(),
        }
    }
}

/// Location entry for grouping lockers.
#[derive(Debug, Clone, PartialEq, Eq)]
pub struct Location {
    /// Identifier in the database (0 before it is stored).
    pub id: i64,
    /// Name of the location.
    pub name: String,
    /// When the record was created.
    pub created_at: Timestamp,
}

impl Location {
    /// Creates a location stamped with the current time.
    pub fn new(id: i64, name: &str) -> (r: Self)
        ensures
            r.id == id,
            r.name@ == name@,
    {
        Location { id, name: name.to_owned(), created_at: Timestamp::now() }
    }
}

/// Summary data used on the dashboard for each location.
#[derive(Debug, Clone, PartialEq, Eq)]
pub struct LocationSummary {
    /// Name of the location.
    pub name: String,
    /// Number of rented lockers.
    pub occupied: usize,
    /// Number of lockers.
    pub total: usize,
}

/// Billing period option.
#[derive(Debug, Clone, Copy, PartialEq, Eq, Structural)]
pub enum BillingPeriod {
    /// Billed every month.
    Monthly,
    /// Billed every year.
    Yearly,
}

/// Text of a billing period in settings and exports.
pub open spec fn billing_period_text(p: BillingPeriod) -> Seq<char> {
    match p {
        BillingPeriod::Monthly => "monthly"@,
        BillingPeriod::Yearly => "yearly"@,
    }
}

impl BillingPeriod {
    /// Returns the string representation used in settings and exports.
    pub fn as_str(&self) -> (r: &'static str)
        ensures
            r@ == billing_period_text(*self),
    {
        match self {
            BillingPeriod::Monthly => "monthly",
            BillingPeriod::Yearly => "yearly",
        }
    }

    /// Reads a stored billing period: `monthly` is monthly, any other text yearly.
    pub fn from_str(value: &str) -> (r: Self)
        ensures
            r == (if value@ == "monthly"@ {
                BillingPeriod::Monthly
            } else {
                BillingPeriod::Yearly
            }),
    {
        if str_eq(value, "monthly") {
            BillingPeriod::Monthly
        } else {
            BillingPeriod::Yearly
        }
    }
}

/// Payment type value stored in the database.
#[derive(Debug, Clone, PartialEq, Eq)]
pub enum PaymentType {
    /// The deposit.
    Deposit,
    /// The yearly fee.
    YearlyFee,
    /// Any other kind, by its stored text.
    Other(String),
}

/// Database text of a payment type.
pub open spec fn payment_type_text(p: PaymentType) -> Seq<char> {
    match p {
        PaymentType::Deposit => "deposit"@,
        PaymentType::YearlyFee => "yearly_fee"@,
        PaymentType::Other(v) => v@,
    }
}

impl PaymentType {
    /// Returns the database representation of the payment type.
    pub fn as_str(&self) -> (r: &str)
        ensures
            r@ == payment_type_text(*self),
    {
        match self {
            PaymentType::Deposit => "deposit",
            PaymentType::YearlyFee => "yearly_fee",
            PaymentType::Other(value) => value.as_str(),
        }
    }

    /// Parses a stored payment type: `deposit`, `yearly_fee`, or any other text kept as is.
    pub fn from_str(value: &str) -> (r: Self)
        ensures
            payment_type_text(r) == value@,
            value@ == "deposit"@ ==> r is Deposit,
            value@ == "yearly_fee"@ ==> r is YearlyFee,
            value@ != "deposit"@ && value@ != "yearly_fee"@ ==> r is Other,
    {
        proof {
            reveal_strlit("deposit");
            reveal_strlit("yearly_fee");
            assert("deposit"@.len() != "yearly_fee"@.len());
        }
        if str_eq(value, "deposit") {
            PaymentType::Deposit
        } else if str_eq(value, "yearly_fee") {
            PaymentType::YearlyFee
        } else {
            PaymentType::Other(value.to_owned())
        }
    }
}

/// Reading back the stored text of a billing period gives the same period.
pub proof fn billing_period_roundtrip(p: BillingPeriod)
    ensures
        (if billing_period_text(p) == "monthly"@ {
            BillingPeriod::Monthly
        } else {
            BillingPeriod::Yearly
        }) == p,
{
    reveal_strlit("monthly");
    reveal_strlit("yearly");
    if p is Yearly {
        assert("yearly"@[0] != "monthly"@[0]);
    }
}

/// Reading back the stored text of a payment type gives a payment type with the same
/// text, and the same variant unless a custom type is spelled like a built-in one.
pub proof fn payment_type_roundtrip(p: PaymentType)
    requires
        p is Other ==> payment_type_text(p) != "deposit"@ && payment_type_text(p) != "yearly_fee"@,
    ensures
        payment_type_text(p) == "deposit"@ <==> p is Deposit,
        payment_type_text(p) == "yearly_fee"@ <==> p is YearlyFee,
{
    reveal_strlit("deposit");
    reveal_strlit("yearly_fee");
    assert("deposit"@.len() != "yearly_fee"@.len());
}

/// Audit log entry persisted to the database.
#[derive(Debug, Clone, PartialEq, Eq)]
pub struct AuditEntry {
    /// Identifier in the database (0 before it is stored).
    pub id: i64,
    /// When it happened.
    pub timestamp: Timestamp,
    /// What was done.
    pub action: String,
    /// Kind of record it was done to.
    pub entity_type: String,
    /// Identifier of that record, if any.
    pub entity_id: Option<i64>,
    /// Details of the change.
    pub details: String,
    /// Who did it.
    pub username: String,
}

} // verus!
