//! State of the finance screen: the selected tab, the selected debtor, the period of
//! the overview, and the debt totals the overview shows.

use crate::models::{DebtorInfo, TenantType};
use crate::text::{amount_string, amount_text, i64_text, int_text, nat_text, pad_left, pad_left_string, u64_text};
use crate::ui::state::{finance_tab_at, finance_tab_index, FinanceTab};
use vstd::prelude::*;

verus! {

/// Time period filter for the finance overview.
#[derive(Debug, Clone, Copy, PartialEq, Eq, Structural)]
pub enum TimePeriod {
    /// Since the beginning.
    Lifetime,
    /// The last year.
    OneYear,
    /// The last six months.
    SixMonths,
    /// The last three months.
    ThreeMonths,
    /// The last month.
    OneMonth,
}

impl Default for TimePeriod {
    fn default() -> (r: Self)
        ensures
            r == TimePeriod::Lifetime,
    {
        TimePeriod::Lifetime
    }
}

impl TimePeriod {
    /// The label of the period.
    pub fn label(&self) -> (r: &'static str)
        ensures
            r@ == (match *self {
                TimePeriod::Lifetime => "Lebenszeit"@,
                TimePeriod::OneYear => "1 Jahr"@,
                TimePeriod::SixMonths => "6 Monate"@,
                TimePeriod::ThreeMonths => "3 Monate"@,
                TimePeriod::OneMonth => "1 Monat"@,
            }),
    {
        match self {
            TimePeriod::Lifetime => "Lebenszeit",
            TimePeriod::OneYear => "1 Jahr",
            TimePeriod::SixMonths => "6 Monate",
            TimePeriod::ThreeMonths => "3 Monate",
            TimePeriod::OneMonth => "1 Monat",
        }
    }
}

/// State for finance screens.
#[derive(Debug)]
pub struct FinanceState {
    /// The tab shown.
    pub selected_tab: FinanceTab,
    /// Index of the selected debtor.
    pub debtors_selected: usize,
    /// The period of the overview.
    pub time_period: TimePeriod,
}

impl FinanceState {
    /// The overview over all time, with the first debtor selected.
    pub fn new() -> (r: Self)
        ensures
            r.selected_tab == FinanceTab::Overview,
            r.debtors_selected == 0,
            r.time_period == TimePeriod::Lifetime,
    {
        FinanceState { selected_tab: FinanceTab::Overview, debtors_selected: 0, time_period: TimePeriod::Lifetime }
    }

    /// Shows the next tab, wrapping around.
    pub fn next_tab(&mut self)
        ensures
            final(self).selected_tab == finance_tab_at(((finance_tab_index(old(self).selected_tab) + 1) % 2) as int)->0,
            final(self).debtors_selected == old(self).debtors_selected,
            final(self).time_period == old(self).time_period,
    {
        let idx = self.selected_tab.index();
        let count = FinanceTab::all().len();
        let next = FinanceTab::from_index((idx + 1) % count);
        self.selected_tab = match next {
            Some(t) => t,
            None => FinanceTab::Overview,
        };
    }

    /// Shows the previous tab, wrapping around.
    pub fn prev_tab(&mut self)
        ensures
            final(self).selected_tab == finance_tab_at(
                if finance_tab_index(old(self).selected_tab) == 0 { 1int } else { finance_tab_index(old(self).selected_tab) - 1 },
            )->0,
            final(self).debtors_selected == old(self).debtors_selected,
            final(self).time_period == old(self).time_period,
    {
        let idx = self.selected_tab.index();
        let prev = if idx == 0 { FinanceTab::all().len() - 1 } else { idx - 1 };
        self.selected_tab = match FinanceTab::from_index(prev) {
            Some(t) => t,
            None => FinanceTab::Overview,
        };
    }
}

impl Default for FinanceState {
    fn default() -> (r: Self)
        ensures
            r.selected_tab == FinanceTab::Overview,
            r.debtors_selected == 0,
            r.time_period == TimePeriod::Lifetime,
    {
        Self::new()
    }
}

/// Total debt in cents of the debtors of a tenant type.
pub open spec fn debt_of_type(debtors: Seq<DebtorInfo>, t: TenantType) -> int
    decreases debtors.len(),
{
    if debtors.len() == 0 {
        0
    } else {
        debt_of_type(debtors.drop_last(), t) + if debtors.last().tenant_type == t {
            debtors.last().total_debt_cents as int
        } else {
            0
        }
    }
}

/// Number of debtors of a tenant type.
pub open spec fn count_of_type(debtors: Seq<DebtorInfo>, t: TenantType) -> int
    decreases debtors.len(),
{
    if debtors.len() == 0 {
        0
    } else {
        count_of_type(debtors.drop_last(), t) + if debtors.last().tenant_type == t { 1int } else { 0 }
    }
}

/// The outstanding debts of the overview: per tenant type the total and the number of
/// debtors, and the total over both.
#[derive(Debug, Clone, Copy, PartialEq, Eq, Structural)]
pub struct DebtBreakdown {
    /// Debt of the students in cents.
    pub student_cents: i64,
    /// Number of indebted students.
    pub student_count: u64,
    /// Debt of the teachers in cents.
    pub teacher_cents: i64,
    /// Number of indebted teachers.
    pub teacher_count: u64,
    /// Debt of all debtors in cents.
    pub total_cents: i64,
}

/// A sum of `n` debts in `i32` fits in `i64` for any list that fits in memory.
proof fn debt_bounds(debtors: Seq<DebtorInfo>, t: TenantType)
    ensures
        -0x8000_0000 * debtors.len() <= debt_of_type(debtors, t) <= 0x7fff_ffff * debtors.len(),
        0 <= count_of_type(debtors, t) <= debtors.len(),
    decreases debtors.len(),
{
    if debtors.len() > 0 {
        debt_bounds(debtors.drop_last(), t);
    }
}

/// Sums the debts of the debtors per tenant type.
pub fn debt_breakdown(debtors: &Vec<DebtorInfo>) -> (r: DebtBreakdown)
    requires
        debtors.len() <= 0x7fff_ffff,
    ensures
        r.student_cents == debt_of_type(debtors@, TenantType::Schueler),
        r.student_count == count_of_type(debtors@, TenantType::Schueler),
        r.teacher_cents == debt_of_type(debtors@, TenantType::Lehrer),
        r.teacher_count == count_of_type(debtors@, TenantType::Lehrer),
        r.total_cents == r.student_cents + r.teacher_cents,
{
    let mut r = DebtBreakdown { student_cents: 0, student_count: 0, teacher_cents: 0, teacher_count: 0, total_cents: 0 };
    let mut i: usize = 0;
    while i < debtors.len()
        invariant
            i <= debtors.len(),
            debtors.len() <= 0x7fff_ffff,
            r.student_cents == debt_of_type(debtors@.take(i as int), TenantType::Schueler),
            r.student_count == count_of_type(debtors@.take(i as int), TenantType::Schueler),
            r.teacher_cents == debt_of_type(debtors@.take(i as int), TenantType::Lehrer),
            r.teacher_count == count_of_type(debtors@.take(i as int), TenantType::Lehrer),
        decreases debtors.len() - i,
    {
        proof {
            let t = debtors@.take(i + 1);
            assert(t.drop_last() =~= debtors@.take(i as int));
            debt_bounds(t, TenantType::Schueler);
            debt_bounds(t, TenantType::Lehrer);
        }
        let d = &debtors[i];
        match d.tenant_type {
            TenantType::Schueler => {
                r.student_cents = r.student_cents + d.total_debt_cents as i64;
                r.student_count = r.student_count + 1;
            },
            TenantType::Lehrer => {
                r.teacher_cents = r.teacher_cents + d.total_debt_cents as i64;
                r.teacher_count = r.teacher_count + 1;
            },
        }
        i = i + 1;
    }
    proof {
        assert(debtors@.take(debtors.len() as int) =~= debtors@);
        debt_bounds(debtors@, TenantType::Schueler);
        debt_bounds(debtors@, TenantType::Lehrer);
        let n = debtors@.len() as int;
        assert(0x8000_0000 * n <= 0x8000_0000 * 0x7fff_ffff) by (nonlinear_arith)
            requires
                0 <= n <= 0x7fff_ffff,
        ;
    }
    r.total_cents = r.student_cents + r.teacher_cents;
    r
}

/// An amount of cents right-aligned in ten characters, followed by the euro sign, as
/// `{:>10.2} €` prints the euros.
pub open spec fn amount_column_text(cents: int) -> Seq<char> {
    pad_left(amount_text(cents), 10) + " €"@
}

/// An amount of cents right-aligned in ten characters, followed by the euro sign.
pub fn amount_column(cents: i64) -> (r: String)
    ensures
        r@ == amount_column_text(cents as int),
{
    let a = amount_string(cents);
    let mut out = pad_left_string(&a, 10);
    out.append(" €");
    out
}

/// A line of income of the overview: the amount and how many payments of 10 € it is.
pub open spec fn income_line_text(cents: int, count: int) -> Seq<char> {
    amount_column_text(cents) + " ("@ + int_text(count) + " × 10€)"@
}

/// A line of income of the overview (see `income_line_text`).
pub fn income_line(cents: i32, count: i32) -> (r: String)
    ensures
        r@ == income_line_text(cents as int, count as int),
{
    let mut out = amount_column(cents as i64);
    out.append(" (");
    out.append(i64_text(count as i64).as_str());
    out.append(" × 10€)");
    out
}

/// A line of outstanding debt of the overview: the amount and the number of rentals.
pub open spec fn debt_line_text(cents: int, count: nat) -> Seq<char> {
    amount_column_text(cents) + " ("@ + nat_text(count) + " Verleih)"@
}

/// A line of outstanding debt of the overview (see `debt_line_text`).
pub fn debt_line(cents: i64, count: u64) -> (r: String)
    ensures
        r@ == debt_line_text(cents as int, count as nat),
{
    let mut out = amount_column(cents);
    out.append(" (");
    out.append(u64_text(count).as_str());
    out.append(" Verleih)");
    out
}

/// The line under the debtor table: the number of debtors and what they owe in sum.
pub open spec fn debtors_total_text(count: nat, cents: int) -> Seq<char> {
    "Gesamt: "@ + nat_text(count) + " Schuldner, "@ + amount_text(cents) + " € ausstehend"@
}

/// The line under the debtor table (see `debtors_total_text`).
pub fn debtors_total_line(count: u64, cents: i64) -> (r: String)
    ensures
        r@ == debtors_total_text(count as nat, cents as int),
{
    let mut out = "Gesamt: ".to_owned();
    out.append(u64_text(count).as_str());
    out.append(" Schuldner, ");
    out.append(amount_string(cents).as_str());
    out.append(" € ausstehend");
    out
}

} // verus!
