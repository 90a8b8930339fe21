//! Rental domain model, tenant types and the overdue-debt rule.

use crate::calendar::{day_in_range, Date, Timestamp, MAX_DAY, MIN_DAY};
use crate::text::{contains_seq, contains_text, i64_text, int_text, spec_lowercase, str_eq, to_lowercase};
use vstd::prelude::*;

verus! {

/// Fee in cents for each started year a rental is overdue.
pub const YEARLY_FEE_CENTS: i32 = 1000;

/// Kind of tenant.
#[derive(Debug, Clone, Copy, PartialEq, Eq, Structural)]
pub enum TenantType {
    /// A student ("Schüler").
    Schueler,
    /// A teacher ("Lehrer").
    Lehrer,
}

/// Stored name of a tenant type.
pub open spec fn tenant_type_name(t: TenantType) -> Seq<char> {
    match t {
        TenantType::Schueler => "Schüler"@,
        TenantType::Lehrer => "Lehrer"@,
    }
}

/// The tenant type with a given stored name, if any.
pub open spec fn tenant_type_named(s: Seq<char>) -> Option<TenantType> {
    if s == "Schüler"@ {
        Some(TenantType::Schueler)
    } else if s == "Lehrer"@ {
        Some(TenantType::Lehrer)
    } else {
        None
    }
}

impl TenantType {
    /// The stored name of the tenant type.
    pub fn as_str(&self) -> (r: &'static str)
        ensures
            r@ == tenant_type_name(*self),
    {
        match self {
            TenantType::Schueler => "Schüler",
            TenantType::Lehrer => "Lehrer",
        }
    }

    /// Parses a stored name; any other text gives `None`.
    pub fn from_str(s: &str) -> (r: Option<Self>)
        ensures
            r == tenant_type_named(s@),
    {
        if str_eq(s, "Schüler") {
            Some(TenantType::Schueler)
        } else if str_eq(s, "Lehrer") {
            Some(TenantType::Lehrer)
        } else {
            None
        }
    }
}

/// Parsing the stored name of a tenant type gives that tenant type back.
pub proof fn tenant_type_name_roundtrip(t: TenantType)
    ensures
        tenant_type_named(tenant_type_name(t)) == Some(t),
{
    reveal_strlit("Schüler");
    reveal_strlit("Lehrer");
    assert("Schüler"@[0] != "Lehrer"@[0]);
}

/// Number of started years in `days` days of overdue, a year being 365.25 days:
/// the ceiling of `days / 365.25`, i.e. of `4 * days / 1461`.
pub open spec fn years_overdue(days: int) -> int {
    (4 * days + 1460) / 1461
}

/// Debt in cents of a rental ending on day `end`, seen on day `today`: nothing until
/// the end date has passed, then the yearly fee for every started year of overdue.
pub open spec fn debt_cents(end: int, today: int) -> int {
    if today <= end {
        0
    } else {
        years_overdue(today - end) * YEARLY_FEE_CENTS
    }
}

/// Nothing is owed up to the end date; after it, the debt never shrinks as days pass,
/// and it is the yearly fee for every started year: one fee up to 365 days after the
/// end, two up to 730.
pub proof fn debt_grows_with_time(end: int, t1: int, t2: int)
    requires
        t1 <= t2,
    ensures
        t1 <= end ==> debt_cents(end, t1) == 0,
        debt_cents(end, t1) <= debt_cents(end, t2),
        end < t1 <= end + 365 ==> debt_cents(end, t1) == YEARLY_FEE_CENTS,
        end + 365 < t1 <= end + 730 ==> debt_cents(end, t1) == 2 * YEARLY_FEE_CENTS,
{
    if t1 > end {
        vstd::arithmetic::div_mod::lemma_div_is_ordered(4 * (t1 - end) + 1460, 4 * (t2 - end) + 1460, 1461);
        assert(years_overdue(t1 - end) * 1000 <= years_overdue(t2 - end) * 1000) by (nonlinear_arith)
            requires
                years_overdue(t1 - end) <= years_overdue(t2 - end),
        ;
    } else if t2 > end {
        assert(years_overdue(t2 - end) >= 1) by {
            vstd::arithmetic::div_mod::lemma_div_is_ordered(1461, 4 * (t2 - end) + 1460, 1461);
        }
    }
}

/// For `d = today - end > 0` days past the end date, the debt is the yearly fee times
/// the number of started years of 365.25 days (10 €, 1000 cents, per started year),
/// the ceiling of `d / 365.25`: the fee
/// times the `y` with `(y - 1) * 365.25 < d <= y * 365.25`. So it rises by one fee
/// with each further started year, with no upper bound.
pub proof fn debt_is_fee_per_started_year(end: int, today: int)
    requires
        end < today,
    ensures
        debt_cents(end, today) % 1000 == 0,
        ({
            let y = debt_cents(end, today) / 1000;
            &&& y >= 1
            &&& (y - 1) * 1461 < 4 * (today - end)
            &&& 4 * (today - end) <= y * 1461
        }),
{
    let d = today - end;
    let y = (4 * d + 1460) / 1461;
    vstd::arithmetic::div_mod::lemma_fundamental_div_mod(4 * d + 1460, 1461);
    assert(y * 1000 % 1000 == 0 && (y * 1000) / 1000 == y) by (nonlinear_arith);
    assert(y >= 1) by {
        vstd::arithmetic::div_mod::lemma_div_is_ordered(1461, 4 * d + 1460, 1461);
    }
    assert((y - 1) * 1461 < 4 * d && 4 * d <= y * 1461) by (nonlinear_arith)
        requires
            4 * d + 1460 == 1461 * y + (4 * d + 1460) % 1461,
            0 <= (4 * d + 1460) % 1461 < 1461,
    ;
}

/// Computes the overdue debt in cents for a rental ending on `end`, as of `today`.
pub fn debt_for_end_date(end: Date, today: Date) -> (r: i32)
    ensures
        r == debt_cents(end@, today@),
{
    let e = end.days() as i64;
    let t = today.days() as i64;
    if t <= e {
        return 0;
    }
    let d: i64 = t - e;
    let years: i64 = (4 * d + 1460) / 1461;
    assert(years <= 524_277) by (nonlinear_arith)
        requires
            0 < d <= MAX_DAY - MIN_DAY,
            years == (4 * d + 1460) / 1461,
    ;
    (years * 1000) as i32
}

/// A rental agreement between a tenant and a locker.
#[derive(Debug, Clone)]
pub struct Rental {
    /// Identifier in the database (0 before it is stored).
    pub id: i64,
    /// Identifier of the rented locker.
    pub locker_id: i64,
    /// Username of the tenant.
    pub tenant_username: String,
    /// Kind of tenant.
    pub tenant_type: TenantType,
    /// First day of the rental.
    pub rental_start_date: Date,
    /// Last day of the rental.
    pub rental_end_date: Date,
    /// Whether the deposit was paid.
    pub deposit_paid: bool,
    /// Whether the deposit was returned.
    pub deposit_returned: bool,
    /// When the record was created.
    pub created_at: Timestamp,
    /// When the locker was returned, if it was.
    pub returned_at: Option<Timestamp>,
}

/// Whether a rental matches a search query: the lower-cased query occurs in the
/// lower-cased username or in the decimal id.
pub open spec fn rental_matches(username: Seq<char>, id: i64, query: Seq<char>) -> bool {
    let needle = spec_lowercase(query);
    ||| contains_seq(spec_lowercase(username), needle)
    ||| contains_seq(int_text(id as int), needle)
}

impl Rental {
    /// Creates a rental with id 0, nothing paid and nothing returned.
    pub fn new(
        locker_id: i64,
        tenant_username: &str,
        tenant_type: TenantType,
        rental_start_date: Date,
        rental_end_date: Date,
    ) -> (r: Self)
        ensures
            r.id == 0,
            r.locker_id == locker_id,
            r.tenant_username@ == tenant_username@,
            r.tenant_type == tenant_type,
            r.rental_start_date == rental_start_date,
            r.rental_end_date == rental_end_date,
            !r.deposit_paid,
            !r.deposit_returned,
            r.returned_at is None,
    {
        Rental {
            id: 0,
            locker_id,
            tenant_username: tenant_username.to_owned(),
            tenant_type,
            rental_start_date,
            rental_end_date,
            deposit_paid: false,
            deposit_returned: false,
            created_at: Timestamp::now(),
            returned_at: None,
        }
    }

    /// A rental is active until the locker has been returned.
    pub fn is_active(&self) -> (r: bool)
        ensures
            r == (self.returned_at is None),
    {
        self.returned_at.is_none()
    }

    /// Whether the rental is active and its end date lies before `today`.
    pub fn is_overdue_on(&self, today: Date) -> (r: bool)
        ensures
            r == (self.returned_at is None && today@ > self.rental_end_date@),
    {
        self.is_active() && today.days() > self.rental_end_date.days()
    }

    /// Whether the rental is active and its end date lies before today's date.
    pub fn is_overdue(&self) -> (r: bool)
        ensures
            r ==> self.returned_at is None,
            exists|today: Date| r == (self.returned_at is None && #[trigger] today@ > self.rental_end_date@),
    {
        let today = Date::today();
        let r = self.is_overdue_on(today);
        assert(r == (self.returned_at is None && today@ > self.rental_end_date@));
        r
    }

    /// Days from `today` until the end date (negative once it has passed).
    pub fn days_until_expiration_on(&self, today: Date) -> (r: i64)
        ensures
            r == self.rental_end_date@ - today@,
    {
        self.rental_end_date.days_since(today)
    }

    /// Days from today's date until the end date (negative once it has passed).
    pub fn days_until_expiration(&self) -> (r: i64)
        ensures
            exists|today: Date| r == self.rental_end_date@ - #[trigger] today@,
    {
        let today = Date::today();
        self.days_until_expiration_on(today)
    }

    /// The overdue debt in cents as of `today`: 10 € per started year after the end date.
    pub fn calculate_debt_on(&self, today: Date) -> (r: i32)
        ensures
            r == debt_cents(self.rental_end_date@, today@),
    {
        debt_for_end_date(self.rental_end_date, today)
    }

    /// The overdue debt in cents as of today's date.
    pub fn calculate_debt(&self) -> (r: i32)
        ensures
            exists|today: Date| r == debt_cents(self.rental_end_date@, #[trigger] today@),
    {
        let today = Date::today();
        self.calculate_debt_on(today)
    }

    /// The tenant's e-mail address: the username at `athenetz.de`.
    pub fn email(&self) -> (r: String)
        ensures
            r@ == self.tenant_username@ + "@athenetz.de"@,
    {
        let mut out = self.tenant_username.clone();
        out.append("@athenetz.de");
        out
    }

    /// Checks if the rental matches the given query string.
    pub fn matches_query(&self, query: &str) -> (r: bool)
        ensures
            r == rental_matches(self.tenant_username@, self.id, query@),
    {
        let needle = to_lowercase(query);
        let name = to_lowercase(self.tenant_username.as_str());
        if contains_text(name.as_str(), needle.as_str()) {
            return true;
        }
        let id = i64_text(self.id);
        contains_text(id.as_str(), needle.as_str())
    }
}

} // verus!
