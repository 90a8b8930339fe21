//! Aggregations over query results: the payment summary per payment type, the total
//! of outstanding debts, and the debtors, one per tenant, largest debt first.

use crate::calendar::{day_in_range, lemma_date_of_view, parsed_date, spec_parse_date, Date};
use crate::models::payment::payment_type_named;
use crate::models::rental::{debt_cents, debt_for_end_date, tenant_type_named};
use crate::models::{DebtorInfo, PaymentSummary, PaymentType, TenantType};
use vstd::prelude::*;

verus! {

/// A summary with every amount and count zero.
pub open spec fn zero_summary() -> PaymentSummary {
    PaymentSummary {
        deposits_cents: 0,
        extensions_cents: 0,
        deposit_returns_cents: 0,
        total_cents: 0,
        net_cents: 0,
        deposit_count: 0,
        extension_count: 0,
        deposit_return_count: 0,
    }
}

/// The summary after a row of payment type, amount and count: the row's amount and
/// count become those of its type; a row of an unknown type changes nothing.
pub open spec fn summary_step(s: PaymentSummary, payment_type: Seq<char>, amount: i32, count: i32) -> PaymentSummary {
    match payment_type_named(payment_type) {
        Some(PaymentType::Deposit) => PaymentSummary { deposits_cents: amount, deposit_count: count, ..s },
        Some(PaymentType::Extension) => PaymentSummary { extensions_cents: amount, extension_count: count, ..s },
        Some(PaymentType::DepositReturn) => PaymentSummary {
            deposit_returns_cents: amount,
            deposit_return_count: count,
            ..s
        },
        None => s,
    }
}

/// The per-type amounts and counts after all rows, in order.
pub open spec fn summary_of_rows(rows: Seq<(String, i32, i32)>) -> PaymentSummary
    decreases rows.len(),
{
    if rows.len() == 0 {
        zero_summary()
    } else {
        let r = rows.last();
        summary_step(summary_of_rows(rows.drop_last()), r.0@, r.1, r.2)
    }
}

/// Sum of the three per-type amounts of a summary.
pub open spec fn summary_sum(s: PaymentSummary) -> int {
    s.deposits_cents + s.extensions_cents + s.deposit_returns_cents
}

/// The payment summary from rows of payment type, summed amount and count, one per
/// payment type: each known type's amount and count are taken, and the total and the
/// net amount are their sum.
pub fn payment_summary_from_rows(rows: &Vec<(String, i32, i32)>) -> (r: PaymentSummary)
    requires
        i32::MIN <= summary_sum(summary_of_rows(rows@)) <= i32::MAX,
    ensures
        r == (PaymentSummary {
            total_cents: summary_sum(summary_of_rows(rows@)) as i32,
            net_cents: summary_sum(summary_of_rows(rows@)) as i32,
            ..summary_of_rows(rows@)
        }),
{
    let mut s = PaymentSummary {
        deposits_cents: 0,
        extensions_cents: 0,
        deposit_returns_cents: 0,
        total_cents: 0,
        net_cents: 0,
        deposit_count: 0,
        extension_count: 0,
        deposit_return_count: 0,
    };
    let mut i: usize = 0;
    while i < rows.len()
        invariant
            i <= rows.len(),
            s == summary_of_rows(rows@.take(i as int)),
        decreases rows.len() - i,
    {
        let (payment_type, amount, count) = (&rows[i].0, rows[i].1, rows[i].2);
        match PaymentType::from_str(payment_type.as_str()) {
            Some(PaymentType::Deposit) => {
                s.deposits_cents = amount;
                s.deposit_count = count;
            },
            Some(PaymentType::Extension) => {
                s.extensions_cents = amount;
                s.extension_count = count;
            },
            Some(PaymentType::DepositReturn) => {
                s.deposit_returns_cents = amount;
                s.deposit_return_count = count;
            },
            None => {},
        }
        proof {
            assert(rows@.take(i + 1).drop_last() =~= rows@.take(i as int));
        }
        i = i + 1;
    }
    assert(rows@.take(rows.len() as int) =~= rows@);
    let total = s.deposits_cents as i64 + s.extensions_cents as i64 + s.deposit_returns_cents as i64;
    s.total_cents = total as i32;
    s.net_cents = total as i32;
    s
}

/// The debt of an end date stored as text, seen on `today`: nothing when the text is
/// no date.
pub open spec fn stored_debt(end: Seq<char>, today: Date) -> int {
    match parsed_date(end) {
        Some(d) => debt_cents(d@, today@),
        None => 0,
    }
}

/// Sum of the debts of the end dates.
pub open spec fn debts_sum(ends: Seq<String>, today: Date) -> int
    decreases ends.len(),
{
    if ends.len() == 0 { 0 } else { debts_sum(ends.drop_last(), today) + stored_debt(ends.last()@, today) }
}

/// A debt is never negative, nor more than the fee of the longest overdue the
/// calendar allows.
proof fn debt_bounds(end: int, today: int)
    requires
        day_in_range(end),
        day_in_range(today),
    ensures
        0 <= debt_cents(end, today) <= 524_277_000,
{
    if today > end {
        let d = today - end;
        assert((4 * d + 1460) / 1461 <= 524_277) by (nonlinear_arith)
            requires
                0 < d <= crate::calendar::MAX_DAY - crate::calendar::MIN_DAY,
        ;
        assert((4 * d + 1460) / 1461 >= 0) by (nonlinear_arith)
            requires
                0 < d,
        ;
    }
}

/// The outstanding payments: the sum of the debts of the end dates of the unreturned
/// rentals that have passed, as seen on `today`. Texts that are no dates count nothing.
pub fn outstanding_total(end_dates: &Vec<String>, today: Date) -> (r: i32)
    requires
        debts_sum(end_dates@, today) <= i32::MAX,
    ensures
        r == debts_sum(end_dates@, today),
{
    let mut total: i64 = 0;
    let mut i: usize = 0;
    // The day number of `today` lies in the calendar's range, which bounds each debt.
    let _ = today.days();
    proof {
        debts_sum_monotone(end_dates@, today);
    }
    while i < end_dates.len()
        invariant
            i <= end_dates.len(),
            total == debts_sum(end_dates@.take(i as int), today),
            debts_sum(end_dates@, today) <= i32::MAX,
            forall|k: int| 0 <= k <= end_dates.len() ==> #[trigger] debts_sum(end_dates@.take(k), today) <= debts_sum(end_dates@, today),
            forall|k: int| 0 <= k <= end_dates.len() ==> 0 <= #[trigger] debts_sum(end_dates@.take(k), today),
        decreases end_dates.len() - i,
    {
        let debt: i32 = match Date::parse(end_dates[i].as_str()) {
            Some(d) => debt_for_end_date(d, today),
            None => 0,
        };
        proof {
            assert(end_dates@.take(i + 1).drop_last() =~= end_dates@.take(i as int));
            assert(debts_sum(end_dates@.take(i + 1), today) <= debts_sum(end_dates@, today));
        }
        total = total + debt as i64;
        i = i + 1;
    }
    assert(end_dates@.take(end_dates.len() as int) =~= end_dates@);
    total as i32
}

/// Every prefix of the end dates owes no more than all of them, and nothing negative.
proof fn debts_sum_monotone(ends: Seq<String>, today: Date)
    requires
        day_in_range(today@),
    ensures
        forall|k: int| 0 <= k <= ends.len() ==> #[trigger] debts_sum(ends.take(k), today) <= debts_sum(ends, today),
        forall|k: int| 0 <= k <= ends.len() ==> 0 <= #[trigger] debts_sum(ends.take(k), today),
    decreases ends.len(),
{
    if ends.len() > 0 {
        debts_sum_monotone(ends.drop_last(), today);
        stored_debt_bounds(ends.last()@, today);
        assert forall|k: int| 0 <= k <= ends.len() implies #[trigger] debts_sum(ends.take(k), today) <= debts_sum(ends, today)
            && 0 <= debts_sum(ends.take(k), today) by {
            if k == ends.len() {
                assert(ends.take(k) =~= ends);
                assert(ends.drop_last().take(k - 1) =~= ends.drop_last());
                assert(debts_sum(ends.drop_last().take(k - 1), today) <= debts_sum(ends.drop_last(), today));
            } else {
                assert(ends.take(k) =~= ends.drop_last().take(k));
            }
        }
    }
}

/// The debt of a stored end date lies between zero and the largest possible debt.
proof fn stored_debt_bounds(end: Seq<char>, today: Date)
    requires
        day_in_range(today@),
    ensures
        0 <= stored_debt(end, today) <= 524_277_000,
{
    match parsed_date(end) {
        Some(d) => {
            let n = spec_parse_date(end)->0 as int;
            lemma_date_of_view(n);
            debt_bounds(d@, today@);
        },
        None => {},
    }
}

/// A debtor as username, tenant type, total debt in cents and days overdue.
pub struct DebtorView {
    /// The tenant's username.
    pub username: Seq<char>,
    /// The tenant type of the tenant's first overdue rental.
    pub tenant_type: TenantType,
    /// Sum of the debts of the tenant's overdue rentals.
    pub total: int,
    /// Days since the end of the tenant's longest overdue rental.
    pub days: int,
}

/// A debtor as its view.
pub open spec fn debtor_view(d: DebtorInfo) -> DebtorView {
    DebtorView {
        username: d.username@,
        tenant_type: d.tenant_type,
        total: d.total_debt_cents as int,
        days: d.days_overdue as int,
    }
}

/// The views of a list of debtors.
pub open spec fn debtor_views(ds: Seq<DebtorInfo>) -> Seq<DebtorView> {
    ds.map_values(|d: DebtorInfo| debtor_view(d))
}

/// What a row of username, tenant type and end date contributes, seen on `today`:
/// nothing when the end date is no date; otherwise the username, the tenant type (a
/// student where the stored type is unknown), the debt and the days since the end.
pub open spec fn row_entry(row: (String, String, String), today: Date) -> Option<DebtorView> {
    match parsed_date(row.2@) {
        Some(d) => Some(DebtorView {
            username: row.0@,
            tenant_type: match tenant_type_named(row.1@) {
                Some(t) => t,
                None => TenantType::Schueler,
            },
            total: debt_cents(d@, today@),
            days: today@ - d@,
        }),
        None => None,
    }
}

/// Position of the first debtor with username `u` from position `i` on.
pub open spec fn user_index(ds: Seq<DebtorView>, u: Seq<char>, i: int) -> Option<int>
    decreases ds.len() - i,
{
    if i < 0 || i >= ds.len() {
        None
    } else if ds[i].username == u {
        Some(i)
    } else {
        user_index(ds, u, i + 1)
    }
}

/// The debtors after one more row: a known tenant's debt grows by the row's debt and
/// the days become the larger of the two, keeping the tenant type; a new tenant is
/// added at the end.
pub open spec fn add_entry(ds: Seq<DebtorView>, e: Option<DebtorView>) -> Seq<DebtorView> {
    match e {
        Some(e) => match user_index(ds, e.username, 0) {
            Some(i) => ds.update(i, DebtorView {
                total: ds[i].total + e.total,
                days: if ds[i].days >= e.days { ds[i].days } else { e.days },
                ..ds[i]
            }),
            None => ds.push(e),
        },
        None => ds,
    }
}

/// The debtors of the rows, one per username, in the order of their first row.
pub open spec fn group_rows(rows: Seq<(String, String, String)>, today: Date) -> Seq<DebtorView>
    decreases rows.len(),
{
    if rows.len() == 0 {
        Seq::empty()
    } else {
        add_entry(group_rows(rows.drop_last(), today), row_entry(rows.last(), today))
    }
}

/// Sum of the debts of the rows.
pub open spec fn rows_debt(rows: Seq<(String, String, String)>, today: Date) -> int
    decreases rows.len(),
{
    if rows.len() == 0 {
        0
    } else {
        rows_debt(rows.drop_last(), today) + match row_entry(rows.last(), today) {
            Some(e) => e.total,
            None => 0,
        }
    }
}

/// Where a debtor goes in a list sorted by debt, largest first: before the first
/// debtor with a smaller debt, from position `j` on.
pub open spec fn insert_position(sorted: Seq<DebtorView>, x: DebtorView, j: int) -> int
    decreases sorted.len() - j,
{
    if j < 0 || j >= sorted.len() {
        sorted.len() as int
    } else if sorted[j].total < x.total {
        j
    } else {
        insert_position(sorted, x, j + 1)
    }
}

/// The debtors sorted by debt, largest first; debtors with equal debts keep their
/// order.
pub open spec fn sort_by_debt(ds: Seq<DebtorView>) -> Seq<DebtorView>
    decreases ds.len(),
{
    if ds.len() == 0 {
        Seq::empty()
    } else {
        let s = sort_by_debt(ds.drop_last());
        s.insert(insert_position(s, ds.last(), 0), ds.last())
    }
}

/// Whether the debtors are sorted by debt, largest first.
pub open spec fn sorted_by_debt(ds: Seq<DebtorView>) -> bool {
    forall|i: int, j: int| 0 <= i < j < ds.len() ==> ds[i].total >= ds[j].total
}

/// Whether no username occurs twice.
pub open spec fn unique_users(ds: Seq<DebtorView>) -> bool {
    forall|i: int, j: int| 0 <= i < j < ds.len() ==> ds[i].username != ds[j].username
}

/// Sum of the debts of a list of debtors.
pub open spec fn total_debt(ds: Seq<DebtorView>) -> int
    decreases ds.len(),
{
    if ds.len() == 0 { 0 } else { total_debt(ds.drop_last()) + ds.last().total }
}

/// The position found by `user_index` holds the username, and none before it does.
proof fn user_index_facts(ds: Seq<DebtorView>, u: Seq<char>, i: int)
    requires
        0 <= i <= ds.len(),
    ensures
        user_index(ds, u, i) matches Some(k) ==> i <= k < ds.len() && ds[k].username == u
            && forall|m: int| i <= m < k ==> ds[m].username != u,
        user_index(ds, u, i) is None ==> forall|m: int| i <= m < ds.len() ==> ds[m].username != u,
    decreases ds.len() - i,
{
    if i < ds.len() && ds[i].username != u {
        user_index_facts(ds, u, i + 1);
    }
}

/// The insert position lies within the list; the debtors before it owe at least as
/// much as `x`, and in a sorted list the ones from it on owe less.
proof fn insert_position_facts(sorted: Seq<DebtorView>, x: DebtorView, j: int)
    requires
        0 <= j <= sorted.len(),
    ensures
        j <= insert_position(sorted, x, j) <= sorted.len(),
        forall|m: int| j <= m < insert_position(sorted, x, j) ==> sorted[m].total >= x.total,
        sorted_by_debt(sorted) ==> forall|m: int| insert_position(sorted, x, j) <= m < sorted.len() ==> sorted[m].total < x.total,
    decreases sorted.len() - j,
{
    if j < sorted.len() && sorted[j].total >= x.total {
        insert_position_facts(sorted, x, j + 1);
    }
}

/// Sorting by debt gives a sorted list with the same debtors.
pub proof fn sort_by_debt_sorts(ds: Seq<DebtorView>)
    ensures
        sorted_by_debt(sort_by_debt(ds)),
        sort_by_debt(ds).to_multiset() == ds.to_multiset(),
        sort_by_debt(ds).len() == ds.len(),
    decreases ds.len(),
{
    broadcast use vstd::seq_lib::group_to_multiset_ensures;
    if ds.len() > 0 {
        let s = sort_by_debt(ds.drop_last());
        sort_by_debt_sorts(ds.drop_last());
        let x = ds.last();
        let p = insert_position(s, x, 0);
        insert_position_facts(s, x, 0);
        let t = s.insert(p, x);
        s.insert_ensures(p, x);
        assert forall|i: int, j: int| 0 <= i < j < t.len() implies t[i].total >= t[j].total by {
            if j < p {
            } else if j == p {
            } else if i < p {
                assert(t[j] == s[j - 1]);
            } else if i == p {
                assert(t[j] == s[j - 1]);
            } else {
                assert(t[i] == s[i - 1]);
                assert(t[j] == s[j - 1]);
            }
        }
        vstd::seq_lib::to_multiset_insert(s, p, x);
        assert(ds.drop_last().push(x) =~= ds);
        vstd::seq_lib::to_multiset_build(ds.drop_last(), x);
    }
}

/// Replacing a debtor changes the sum of the debts by the change of its debt.
proof fn total_debt_update(ds: Seq<DebtorView>, i: int, v: DebtorView)
    requires
        0 <= i < ds.len(),
    ensures
        total_debt(ds.update(i, v)) == total_debt(ds) - ds[i].total + v.total,
    decreases ds.len(),
{
    if i == ds.len() - 1 {
        assert(ds.update(i, v).drop_last() =~= ds.drop_last());
    } else {
        total_debt_update(ds.drop_last(), i, v);
        assert(ds.update(i, v).drop_last() =~= ds.drop_last().update(i, v));
    }
}

/// With no negative debts, each debt is at most the sum.
proof fn total_debt_bounds(ds: Seq<DebtorView>)
    requires
        forall|k: int| 0 <= k < ds.len() ==> 0 <= #[trigger] ds[k].total,
    ensures
        0 <= total_debt(ds),
        forall|k: int| 0 <= k < ds.len() ==> #[trigger] ds[k].total <= total_debt(ds),
    decreases ds.len(),
{
    if ds.len() > 0 {
        total_debt_bounds(ds.drop_last());
        assert forall|k: int| 0 <= k < ds.len() implies #[trigger] ds[k].total <= total_debt(ds) by {
            if k < ds.len() - 1 {
                assert(ds.drop_last()[k] == ds[k]);
            }
        }
    }
}

/// The debt of a row is never negative.
proof fn row_entry_nonnegative(row: (String, String, String), today: Date)
    requires
        day_in_range(today@),
    ensures
        row_entry(row, today) matches Some(e) ==> 0 <= e.total <= 524_277_000,
{
    match parsed_date(row.2@) {
        Some(d) => {
            lemma_date_of_view(spec_parse_date(row.2@)->0 as int);
            debt_bounds(d@, today@);
        },
        None => {},
    }
}

/// Grouping the rows gives each username once, the debts of all rows in sum, and no
/// negative debt.
pub proof fn group_rows_facts(rows: Seq<(String, String, String)>, today: Date)
    requires
        day_in_range(today@),
    ensures
        unique_users(group_rows(rows, today)),
        total_debt(group_rows(rows, today)) == rows_debt(rows, today),
        forall|k: int| 0 <= k < group_rows(rows, today).len() ==> 0 <= #[trigger] group_rows(rows, today)[k].total,
    decreases rows.len(),
{
    if rows.len() > 0 {
        let prev = group_rows(rows.drop_last(), today);
        group_rows_facts(rows.drop_last(), today);
        let e = row_entry(rows.last(), today);
        row_entry_nonnegative(rows.last(), today);
        match e {
            Some(e) => {
                user_index_facts(prev, e.username, 0);
                match user_index(prev, e.username, 0) {
                    Some(i) => {
                        let v = DebtorView {
                            total: prev[i].total + e.total,
                            days: if prev[i].days >= e.days { prev[i].days } else { e.days },
                            ..prev[i]
                        };
                        total_debt_update(prev, i, v);
                        assert(add_entry(prev, Some(e)) == prev.update(i, v));
                    },
                    None => {
                        assert(prev.push(e).drop_last() =~= prev);
                    },
                }
            },
            None => {},
        }
    }
}

/// Inserting into a list inserts the view into its views.
proof fn debtor_views_insert(ds: Seq<DebtorInfo>, p: int, d: DebtorInfo)
    requires
        0 <= p <= ds.len(),
    ensures
        debtor_views(ds.insert(p, d)) == debtor_views(ds).insert(p, debtor_view(d)),
{
    ds.insert_ensures(p, d);
    debtor_views(ds).insert_ensures(p, debtor_view(d));
    assert(debtor_views(ds.insert(p, d)) =~= debtor_views(ds).insert(p, debtor_view(d)));
}

/// The e-mail address of every debtor is its username at `athenetz.de`.
pub open spec fn emails_match(ds: Seq<DebtorInfo>) -> bool {
    forall|k: int| 0 <= k < ds.len() ==> (#[trigger] ds[k]).email@ == ds[k].username@ + "@athenetz.de"@
}

/// A new debtor for a username, with the e-mail address of the username.
fn new_debtor(username: &String, tenant_type: TenantType, debt: i32, days: i64) -> (r: DebtorInfo)
    ensures
        r.username@ == username@,
        r.email@ == username@ + "@athenetz.de"@,
        r.tenant_type == tenant_type,
        r.total_debt_cents == debt,
        r.days_overdue == days,
{
    let mut email = username.clone();
    email.append("@athenetz.de");
    DebtorInfo { username: username.clone(), email, total_debt_cents: debt, tenant_type, days_overdue: days }
}

/// Adds a row's debt to the debtors (see `add_entry`).
fn add_row(groups: &mut Vec<DebtorInfo>, username: &String, tenant_type: TenantType, debt: i32, days: i64, Ghost(bound): Ghost<int>)
    requires
        emails_match(old(groups)@),
        forall|k: int| 0 <= k < old(groups).len() ==> 0 <= #[trigger] old(groups)@[k].total_debt_cents <= total_debt(debtor_views(old(groups)@)),
        0 <= debt,
        total_debt(debtor_views(old(groups)@)) + debt <= bound <= i32::MAX,
    ensures
        emails_match(final(groups)@),
        debtor_views(final(groups)@) == add_entry(
            debtor_views(old(groups)@),
            Some(DebtorView { username: username@, tenant_type, total: debt as int, days: days as int }),
        ),
{
    let ghost before = groups@;
    let ghost e = DebtorView { username: username@, tenant_type, total: debt as int, days: days as int };
    let mut k: usize = 0;
    let mut found = false;
    proof {
        user_index_facts(debtor_views(before), username@, 0);
    }
    while !found && k < groups.len()
        invariant
            k <= groups.len(),
            groups@ == before,
            found ==> k < groups.len() && user_index(debtor_views(before), username@, 0) == Some(k as int),
            !found ==> user_index(debtor_views(before), username@, 0) == user_index(debtor_views(before), username@, k as int),
        decreases groups.len() - k + (if found { 0int } else { 1int }),
    {
        if crate::text::str_eq(groups[k].username.as_str(), username.as_str()) {
            found = true;
        } else {
            k = k + 1;
        }
    }
    if found {
        let mut g = groups.remove(k);
        let ghost gv = debtor_view(g);
        assert(debtor_views(before)[k as int] == gv);
        g.total_debt_cents = g.total_debt_cents + debt;
        if days > g.days_overdue {
            g.days_overdue = days;
        }
        groups.insert(k, g);
        proof {
            assert(groups@ =~= before.update(k as int, g));
            assert(debtor_views(groups@) =~= debtor_views(before).update(k as int, debtor_view(g)));
            assert(emails_match(groups@)) by {
                assert forall|m: int| 0 <= m < groups.len() implies (#[trigger] groups@[m]).email@ == groups@[m].username@ + "@athenetz.de"@ by {
                    if m != k {
                        assert(groups@[m] == before[m]);
                    }
                }
            }
        }
    } else {
        let d = new_debtor(username, tenant_type, debt, days);
        groups.push(d);
        proof {
            assert(debtor_views(groups@) =~= debtor_views(before).push(e));
            assert(emails_match(groups@)) by {
                assert forall|m: int| 0 <= m < groups.len() implies (#[trigger] groups@[m]).email@ == groups@[m].username@ + "@athenetz.de"@ by {
                    if m < before.len() {
                        assert(groups@[m] == before[m]);
                    }
                }
            }
        }
    }
}

/// The debtors among the rows of username, tenant type and end date of the unreturned
/// rentals, seen on `today` (see `group_rows`), sorted by debt, largest first (see
/// `sort_by_debt`); each with the e-mail address of its username.
pub fn debtors_from_rows(rows: &Vec<(String, String, String)>, today: Date) -> (r: Vec<DebtorInfo>)
    requires
        rows_debt(rows@, today) <= i32::MAX,
    ensures
        debtor_views(r@) == sort_by_debt(group_rows(rows@, today)),
        emails_match(r@),
{
    // The day number of `today` lies in the calendar's range, which bounds each debt.
    let today_days = today.days();
    let mut groups: Vec<DebtorInfo> = Vec::new();
    let mut i: usize = 0;
    assert(debtor_views(groups@) =~= Seq::<DebtorView>::empty());
    while i < rows.len()
        invariant
            i <= rows.len(),
            today_days == today@,
            day_in_range(today@),
            rows_debt(rows@, today) <= i32::MAX,
            debtor_views(groups@) == group_rows(rows@.take(i as int), today),
            emails_match(groups@),
        decreases rows.len() - i,
    {
        proof {
            let t = rows@.take(i + 1);
            assert(t.drop_last() =~= rows@.take(i as int));
            assert(t.last() == rows@[i as int]);
            group_rows_facts(rows@.take(i as int), today);
            rows_debt_prefix(rows@, today, i + 1);
            row_entry_nonnegative(rows@[i as int], today);
            total_debt_bounds(group_rows(rows@.take(i as int), today));
            assert forall|k: int| 0 <= k < groups.len() implies 0 <= #[trigger] groups@[k].total_debt_cents
                <= total_debt(debtor_views(groups@)) by {
                let ds = group_rows(rows@.take(i as int), today);
                assert(ds.len() == groups.len());
                assert(debtor_views(groups@)[k] == debtor_view(groups@[k]));
                assert(ds[k] == debtor_views(groups@)[k]);
                assert(0 <= ds[k].total);
                assert(ds[k].total <= total_debt(ds));
            }
        }
        let row = &rows[i];
        match Date::parse(row.2.as_str()) {
            Some(end) => {
                let debt = debt_for_end_date(end, today);
                let days: i64 = today_days as i64 - end.days() as i64;
                let tenant_type = match TenantType::from_str(row.1.as_str()) {
                    Some(t) => t,
                    None => TenantType::Schueler,
                };
                add_row(&mut groups, &row.0, tenant_type, debt, days, Ghost(rows_debt(rows@, today)));
            },
            None => {},
        }
        i = i + 1;
    }
    assert(rows@.take(rows.len() as int) =~= rows@);
    let ghost all = debtor_views(groups@);
    let n = groups.len();
    let mut sorted: Vec<DebtorInfo> = Vec::new();
    let mut k: usize = 0;
    assert(all.subrange(0, n as int) =~= all);
    assert(debtor_views(sorted@) =~= sort_by_debt(all.take(0)));
    while groups.len() > 0
        invariant
            k + groups.len() == n,
            n == all.len(),
            debtor_views(groups@) == all.subrange(k as int, n as int),
            debtor_views(sorted@) == sort_by_debt(all.take(k as int)),
            emails_match(groups@),
            emails_match(sorted@),
        decreases groups.len(),
    {
        let ghost rest = groups@;
        let g = groups.remove(0);
        proof {
            assert(g == rest[0]);
            assert(debtor_views(rest)[0] == debtor_view(rest[0]));
            assert(debtor_views(rest)[0] == all[k as int]);
            assert forall|m: int| 0 <= m < groups.len() implies #[trigger] debtor_views(groups@)[m] == all[k + 1 + m] by {
                assert(groups@[m] == rest[m + 1]);
                assert(debtor_views(rest)[m + 1] == debtor_view(rest[m + 1]));
            }
            assert(debtor_views(groups@) =~= all.subrange(k + 1, n as int));
            assert(debtor_view(g) == all[k as int]);
            assert(emails_match(groups@)) by {
                assert forall|m: int| 0 <= m < groups.len() implies (#[trigger] groups@[m]).email@ == groups@[m].username@ + "@athenetz.de"@ by {
                    assert(groups@[m] == rest[m + 1]);
                }
            }
            assert(rest[0] == g);
        }
        let ghost sv = debtor_views(sorted@);
        let ghost gv = debtor_view(g);
        let mut p: usize = 0;
        while p < sorted.len() && sorted[p].total_debt_cents >= g.total_debt_cents
            invariant
                p <= sorted.len(),
                sv == debtor_views(sorted@),
                gv == debtor_view(g),
                insert_position(sv, gv, 0) == insert_position(sv, gv, p as int),
            decreases sorted.len() - p,
        {
            assert(sv[p as int] == debtor_view(sorted@[p as int]));
            p = p + 1;
        }
        proof {
            if p < sorted.len() {
                assert(sv[p as int] == debtor_view(sorted@[p as int]));
            }
            assert(insert_position(sv, gv, p as int) == p);
            let t = all.take(k + 1);
            assert(t.drop_last() =~= all.take(k as int));
            assert(t.last() == gv);
            debtor_views_insert(sorted@, p as int, g);
        }
        let ghost old_sorted = sorted@;
        sorted.insert(p, g);
        proof {
            old_sorted.insert_ensures(p as int, g);
            assert(emails_match(sorted@)) by {
                assert forall|m: int| 0 <= m < sorted.len() implies (#[trigger] sorted@[m]).email@ == sorted@[m].username@ + "@athenetz.de"@ by {
                    if m < p {
                        assert(sorted@[m] == old_sorted[m]);
                    } else if m > p {
                        assert(sorted@[m] == old_sorted[m - 1]);
                    }
                }
            }
        }
        k = k + 1;
    }
    assert(all.take(n as int) =~= all);
    sorted
}

/// The debts of a prefix of the rows add up to at most those of all rows.
proof fn rows_debt_prefix(rows: Seq<(String, String, String)>, today: Date, k: int)
    requires
        0 <= k <= rows.len(),
        day_in_range(today@),
    ensures
        rows_debt(rows.take(k), today) <= rows_debt(rows, today),
    decreases rows.len(),
{
    if k < rows.len() {
        rows_debt_prefix(rows.drop_last(), today, k);
        assert(rows.take(k) =~= rows.drop_last().take(k));
        assert(rows.drop_last().take(rows.len() - 1) =~= rows.drop_last());
        row_entry_nonnegative(rows.last(), today);
    } else {
        assert(rows.take(k) =~= rows);
    }
}

/// `days` is the longest overdue among the rows of tenant `user` whose end date can be
/// read: the largest `today - end` over those rows, whatever their order.
pub open spec fn longest_overdue(rows: Seq<(String, String, String)>, today: Date, user: Seq<char>, days: int) -> bool {
    &&& forall|j: int| 0 <= j < rows.len() && (#[trigger] rows[j]).0@ == user && parsed_date(rows[j].2@) is Some
        ==> today@ - parsed_date(rows[j].2@)->0@ <= days
    &&& exists|j: int| 0 <= j < rows.len() && (#[trigger] rows[j]).0@ == user && parsed_date(rows[j].2@) is Some
        && today@ - parsed_date(rows[j].2@)->0@ == days
}

/// A row that is not about `user`, or says less, keeps the longest overdue of `user`.
proof fn longest_overdue_keep(p: Seq<(String, String, String)>, r: (String, String, String), today: Date, user: Seq<char>, days: int)
    requires
        longest_overdue(p, today, user, days),
        r.0@ == user && parsed_date(r.2@) is Some ==> today@ - parsed_date(r.2@)->0@ <= days,
    ensures
        longest_overdue(p.push(r), today, user, days),
{
    let q = p.push(r);
    assert forall|j: int| 0 <= j < q.len() && (#[trigger] q[j]).0@ == user && parsed_date(q[j].2@) is Some
        implies today@ - parsed_date(q[j].2@)->0@ <= days by {
        if j < p.len() {
            assert(q[j] == p[j]);
        }
    }
    let w = choose|j: int| 0 <= j < p.len() && (#[trigger] p[j]).0@ == user && parsed_date(p[j].2@) is Some
        && today@ - parsed_date(p[j].2@)->0@ == days;
    assert(q[w] == p[w]);
}

/// A row about `user` that says more sets the longest overdue of `user` to its days.
proof fn longest_overdue_raise(p: Seq<(String, String, String)>, r: (String, String, String), today: Date, user: Seq<char>, days: int)
    requires
        forall|j: int| 0 <= j < p.len() && (#[trigger] p[j]).0@ == user && parsed_date(p[j].2@) is Some
            ==> today@ - parsed_date(p[j].2@)->0@ <= days,
        r.0@ == user,
        parsed_date(r.2@) is Some,
        today@ - parsed_date(r.2@)->0@ == days,
    ensures
        longest_overdue(p.push(r), today, user, days),
{
    let q = p.push(r);
    assert forall|j: int| 0 <= j < q.len() && (#[trigger] q[j]).0@ == user && parsed_date(q[j].2@) is Some
        implies today@ - parsed_date(q[j].2@)->0@ <= days by {
        if j < p.len() {
            assert(q[j] == p[j]);
        }
    }
    assert(q[p.len() as int] == r);
}

/// Every debtor's days are the longest overdue of its tenant's rows.
pub open spec fn all_longest(rows: Seq<(String, String, String)>, today: Date, g: Seq<DebtorView>) -> bool {
    forall|k: int| 0 <= k < g.len() ==> longest_overdue(rows, today, (#[trigger] g[k]).username, g[k].days)
}

/// Every row with a readable end date has its tenant among the debtors.
pub open spec fn covers(rows: Seq<(String, String, String)>, g: Seq<DebtorView>) -> bool {
    forall|j: int| 0 <= j < rows.len() && parsed_date((#[trigger] rows[j]).2@) is Some ==> exists|k: int|
        0 <= k < g.len() && (#[trigger] g[k]).username == rows[j].0@
}

/// The grouping has a debtor for the tenant of every row with a readable end date.
proof fn group_rows_cover(rows: Seq<(String, String, String)>, today: Date)
    ensures
        covers(rows, group_rows(rows, today)),
    decreases rows.len(),
{
    if rows.len() > 0 {
        let p = rows.drop_last();
        let r = rows.last();
        let prev = group_rows(p, today);
        let g = group_rows(rows, today);
        group_rows_cover(p, today);
        assert(p.push(r) =~= rows);
        assert forall|j: int| 0 <= j < rows.len() && parsed_date((#[trigger] rows[j]).2@) is Some implies exists|k: int|
            0 <= k < g.len() && (#[trigger] g[k]).username == rows[j].0@ by {
            match row_entry(r, today) {
                None => {
                    assert(j < p.len());
                    assert(rows[j] == p[j]);
                    assert(g == prev);
                },
                Some(e) => {
                    user_index_facts(prev, e.username, 0);
                    match user_index(prev, e.username, 0) {
                        Some(i) => {
                            if j < p.len() {
                                assert(rows[j] == p[j]);
                                let k = choose|k: int| 0 <= k < prev.len() && (#[trigger] prev[k]).username == p[j].0@;
                                assert(g[k].username == prev[k].username);
                            } else {
                                assert(g[i].username == rows[j].0@);
                            }
                        },
                        None => {
                            if j < p.len() {
                                assert(rows[j] == p[j]);
                                let k = choose|k: int| 0 <= k < prev.len() && (#[trigger] prev[k]).username == p[j].0@;
                                assert(g[k] == prev[k]);
                            } else {
                                assert(g[prev.len() as int].username == rows[j].0@);
                            }
                        },
                    }
                },
            }
        }
    }
}

/// A row whose end date cannot be read changes no debtor's longest overdue.
proof fn group_step_unread(p: Seq<(String, String, String)>, r: (String, String, String), today: Date, prev: Seq<DebtorView>)
    requires
        all_longest(p, today, prev),
        parsed_date(r.2@) is None,
    ensures
        all_longest(p.push(r), today, prev),
{
    assert forall|k: int| 0 <= k < prev.len() implies longest_overdue(p.push(r), today, (#[trigger] prev[k]).username, prev[k].days) by {
        longest_overdue_keep(p, r, today, prev[k].username, prev[k].days);
    }
}

/// A row of a known tenant raises that tenant's days to its own where they are more.
proof fn group_step_known(p: Seq<(String, String, String)>, r: (String, String, String), today: Date, prev: Seq<DebtorView>, e: DebtorView, i: int)
    requires
        all_longest(p, today, prev),
        unique_users(prev),
        row_entry(r, today) == Some(e),
        user_index(prev, e.username, 0) == Some(i),
    ensures
        all_longest(p.push(r), today, add_entry(prev, Some(e))),
{
    let v = DebtorView {
        total: prev[i].total + e.total,
        days: if prev[i].days >= e.days { prev[i].days } else { e.days },
        ..prev[i]
    };
    user_index_facts(prev, e.username, 0);
    let g = prev.update(i, v);
    assert(add_entry(prev, Some(e)) == g);
    assert forall|k: int| 0 <= k < g.len() implies longest_overdue(p.push(r), today, (#[trigger] g[k]).username, g[k].days) by {
        assert(longest_overdue(p, today, prev[k].username, prev[k].days));
        if k == i {
            if prev[i].days >= e.days {
                longest_overdue_keep(p, r, today, g[k].username, g[k].days);
            } else {
                longest_overdue_raise(p, r, today, g[k].username, g[k].days);
            }
        } else {
            assert(g[k] == prev[k]);
            assert(prev[k].username != prev[i].username);
            longest_overdue_keep(p, r, today, g[k].username, g[k].days);
        }
    }
}

/// A row of a new tenant adds a debtor whose days are that row's.
proof fn group_step_new(p: Seq<(String, String, String)>, r: (String, String, String), today: Date, prev: Seq<DebtorView>, e: DebtorView)
    requires
        all_longest(p, today, prev),
        covers(p, prev),
        row_entry(r, today) == Some(e),
        forall|m: int| 0 <= m < prev.len() ==> prev[m].username != e.username,
    ensures
        all_longest(p.push(r), today, prev.push(e)),
{
    let g = prev.push(e);
    assert forall|k: int| 0 <= k < g.len() implies longest_overdue(p.push(r), today, (#[trigger] g[k]).username, g[k].days) by {
        if k < prev.len() {
            assert(g[k] == prev[k]);
            assert(longest_overdue(p, today, prev[k].username, prev[k].days));
            longest_overdue_keep(p, r, today, g[k].username, g[k].days);
        } else {
            assert forall|j: int| 0 <= j < p.len() && (#[trigger] p[j]).0@ == e.username && parsed_date(p[j].2@) is Some
                implies today@ - parsed_date(p[j].2@)->0@ <= e.days by {
                let k2 = choose|k2: int| 0 <= k2 < prev.len() && (#[trigger] prev[k2]).username == p[j].0@;
                assert(prev[k2].username != e.username);
            }
            longest_overdue_raise(p, r, today, e.username, e.days);
        }
    }
}

/// In the grouping, each debtor's days are the longest overdue of its rows.
proof fn group_rows_days(rows: Seq<(String, String, String)>, today: Date)
    requires
        day_in_range(today@),
    ensures
        all_longest(rows, today, group_rows(rows, today)),
    decreases rows.len(),
{
    if rows.len() > 0 {
        let p = rows.drop_last();
        let r = rows.last();
        let prev = group_rows(p, today);
        group_rows_days(p, today);
        group_rows_cover(p, today);
        group_rows_facts(p, today);
        assert(p.push(r) =~= rows);
        match row_entry(r, today) {
            None => {
                group_step_unread(p, r, today, prev);
            },
            Some(e) => {
                user_index_facts(prev, e.username, 0);
                match user_index(prev, e.username, 0) {
                    Some(i) => {
                        group_step_known(p, r, today, prev, e, i);
                    },
                    None => {
                        group_step_new(p, r, today, prev, e);
                    },
                }
            },
        }
    }
}

/// What row `r` owes for tenant `user`: the debt for its end date when it is that
/// tenant's and the end date can be read, nothing otherwise.
pub open spec fn row_debt_for(r: (String, String, String), today: Date, user: Seq<char>) -> int {
    if r.0@ == user {
        match parsed_date(r.2@) {
            Some(d) => debt_cents(d@, today@),
            None => 0,
        }
    } else {
        0
    }
}

/// Sum of the debts of the rows of tenant `user` whose end date can be read.
pub open spec fn user_rows_debt(rows: Seq<(String, String, String)>, today: Date, user: Seq<char>) -> int
    decreases rows.len(),
{
    if rows.len() == 0 {
        0
    } else {
        user_rows_debt(rows.drop_last(), today, user) + row_debt_for(rows.last(), today, user)
    }
}

/// The tenant type a row gives: the stored one, a student where it is unknown.
pub open spec fn row_type(r: (String, String, String)) -> TenantType {
    match tenant_type_named(r.1@) {
        Some(t) => t,
        None => TenantType::Schueler,
    }
}

/// `tt` is the tenant type of the first row of tenant `user` whose end date can be read.
pub open spec fn first_type(rows: Seq<(String, String, String)>, user: Seq<char>, tt: TenantType) -> bool {
    exists|j: int| 0 <= j < rows.len() && (#[trigger] rows[j]).0@ == user && parsed_date(rows[j].2@) is Some
        && row_type(rows[j]) == tt
        && forall|m: int| 0 <= m < j ==> !((#[trigger] rows[m]).0@ == user && parsed_date(rows[m].2@) is Some)
}

/// Every debtor owes the sum of its tenant's rows and has the type of its first row.
pub open spec fn all_totals_types(rows: Seq<(String, String, String)>, today: Date, g: Seq<DebtorView>) -> bool {
    forall|k: int| 0 <= k < g.len() ==> (#[trigger] g[k]).total == user_rows_debt(rows, today, g[k].username)
        && first_type(rows, g[k].username, g[k].tenant_type)
}

/// One more row adds what it owes for `user`, and keeps a first type found before.
proof fn user_rows_push(p: Seq<(String, String, String)>, r: (String, String, String), today: Date, user: Seq<char>, tt: TenantType)
    ensures
        user_rows_debt(p.push(r), today, user) == user_rows_debt(p, today, user) + row_debt_for(r, today, user),
        first_type(p, user, tt) ==> first_type(p.push(r), user, tt),
{
    assert(p.push(r).drop_last() =~= p);
    if first_type(p, user, tt) {
        let q = p.push(r);
        let j = choose|j: int| 0 <= j < p.len() && (#[trigger] p[j]).0@ == user && parsed_date(p[j].2@) is Some
            && row_type(p[j]) == tt
            && forall|m: int| 0 <= m < j ==> !((#[trigger] p[m]).0@ == user && parsed_date(p[m].2@) is Some);
        assert(q[j] == p[j]);
        assert forall|m: int| 0 <= m < j implies !((#[trigger] q[m]).0@ == user && parsed_date(q[m].2@) is Some) by {
            assert(q[m] == p[m]);
        }
    }
}

/// Without a readable row of `user`, nothing is owed for `user`.
proof fn user_rows_debt_none(p: Seq<(String, String, String)>, today: Date, user: Seq<char>)
    requires
        forall|j: int| 0 <= j < p.len() ==> !((#[trigger] p[j]).0@ == user && parsed_date(p[j].2@) is Some),
    ensures
        user_rows_debt(p, today, user) == 0,
    decreases p.len(),
{
    if p.len() > 0 {
        let q = p.drop_last();
        assert forall|j: int| 0 <= j < q.len() implies !((#[trigger] q[j]).0@ == user && parsed_date(q[j].2@) is Some) by {
            assert(q[j] == p[j]);
        }
        user_rows_debt_none(q, today, user);
        assert(p[p.len() - 1] == p.last());
    }
}

/// The first readable row of a new tenant gives its type.
proof fn first_type_new(p: Seq<(String, String, String)>, r: (String, String, String), user: Seq<char>)
    requires
        forall|j: int| 0 <= j < p.len() ==> !((#[trigger] p[j]).0@ == user && parsed_date(p[j].2@) is Some),
        r.0@ == user,
        parsed_date(r.2@) is Some,
    ensures
        first_type(p.push(r), user, row_type(r)),
{
    let q = p.push(r);
    assert(q[p.len() as int] == r);
    assert forall|m: int| 0 <= m < p.len() implies !((#[trigger] q[m]).0@ == user && parsed_date(q[m].2@) is Some) by {
        assert(q[m] == p[m]);
    }
}

/// The grouping step keeps the totals and types right.
proof fn group_step_totals(p: Seq<(String, String, String)>, r: (String, String, String), today: Date, prev: Seq<DebtorView>)
    requires
        day_in_range(today@),
        all_totals_types(p, today, prev),
        covers(p, prev),
        unique_users(prev),
    ensures
        all_totals_types(p.push(r), today, add_entry(prev, row_entry(r, today))),
{
    let g = add_entry(prev, row_entry(r, today));
    match row_entry(r, today) {
        None => {
            assert forall|k: int| 0 <= k < g.len() implies (#[trigger] g[k]).total == user_rows_debt(p.push(r), today, g[k].username)
                && first_type(p.push(r), g[k].username, g[k].tenant_type) by {
                user_rows_push(p, r, today, g[k].username, g[k].tenant_type);
            }
        },
        Some(e) => {
            user_index_facts(prev, e.username, 0);
            match user_index(prev, e.username, 0) {
                Some(i) => {
                    assert forall|k: int| 0 <= k < g.len() implies (#[trigger] g[k]).total == user_rows_debt(p.push(r), today, g[k].username)
                        && first_type(p.push(r), g[k].username, g[k].tenant_type) by {
                        assert(prev[k].total == user_rows_debt(p, today, prev[k].username));
                        user_rows_push(p, r, today, g[k].username, g[k].tenant_type);
                        if k != i {
                            assert(prev[k].username != prev[i].username);
                        }
                    }
                },
                None => {
                    assert forall|k: int| 0 <= k < g.len() implies (#[trigger] g[k]).total == user_rows_debt(p.push(r), today, g[k].username)
                        && first_type(p.push(r), g[k].username, g[k].tenant_type) by {
                        user_rows_push(p, r, today, g[k].username, g[k].tenant_type);
                        if k < prev.len() {
                            assert(g[k] == prev[k]);
                            assert(prev[k].total == user_rows_debt(p, today, prev[k].username));
                        } else {
                            assert forall|j: int| 0 <= j < p.len() implies !((#[trigger] p[j]).0@ == e.username && parsed_date(p[j].2@) is Some) by {
                                if p[j].0@ == e.username && parsed_date(p[j].2@) is Some {
                                    let k2 = choose|k2: int| 0 <= k2 < prev.len() && (#[trigger] prev[k2]).username == p[j].0@;
                                    assert(prev[k2].username != e.username);
                                }
                            }
                            user_rows_debt_none(p, today, e.username);
                            first_type_new(p, r, e.username);
                        }
                    }
                },
            }
        },
    }
}

/// In the grouping, each debtor owes the sum of its tenant's rows and has the type of
/// its first row.
proof fn group_rows_totals(rows: Seq<(String, String, String)>, today: Date)
    requires
        day_in_range(today@),
    ensures
        all_totals_types(rows, today, group_rows(rows, today)),
    decreases rows.len(),
{
    if rows.len() > 0 {
        let p = rows.drop_last();
        let r = rows.last();
        assert(p.push(r) =~= rows);
        group_rows_totals(p, today);
        group_rows_cover(p, today);
        group_rows_facts(p, today);
        group_step_totals(p, r, today, group_rows(p, today));
    }
}

/// Each debtor of the list (see `debtors_from_rows`) owes the sum of the debts of its
/// tenant's rows with a readable end date and has the tenant type of the first of
/// them; and every tenant with such a row is in the list.
pub proof fn debtors_sum_their_rows(rows: Seq<(String, String, String)>, today: Date)
    requires
        day_in_range(today@),
    ensures
        forall|k: int| 0 <= k < sort_by_debt(group_rows(rows, today)).len() ==>
            (#[trigger] sort_by_debt(group_rows(rows, today))[k]).total == user_rows_debt(rows, today, sort_by_debt(group_rows(rows, today))[k].username)
            && first_type(rows, sort_by_debt(group_rows(rows, today))[k].username, sort_by_debt(group_rows(rows, today))[k].tenant_type),
        forall|j: int| 0 <= j < rows.len() && parsed_date((#[trigger] rows[j]).2@) is Some ==> exists|k: int|
            0 <= k < sort_by_debt(group_rows(rows, today)).len() && (#[trigger] sort_by_debt(group_rows(rows, today))[k]).username == rows[j].0@,
{
    broadcast use vstd::seq_lib::group_to_multiset_ensures;
    let g = group_rows(rows, today);
    let s = sort_by_debt(g);
    group_rows_totals(rows, today);
    group_rows_cover(rows, today);
    sort_by_debt_sorts(g);
    assert forall|k: int| 0 <= k < s.len() implies (#[trigger] s[k]).total == user_rows_debt(rows, today, s[k].username)
        && first_type(rows, s[k].username, s[k].tenant_type) by {
        assert(s.contains(s[k]));
        assert(s.to_multiset().count(s[k]) > 0);
        assert(g.contains(s[k]));
        let m = choose|m: int| 0 <= m < g.len() && g[m] == s[k];
        assert(g[m].total == user_rows_debt(rows, today, g[m].username));
    }
    assert forall|j: int| 0 <= j < rows.len() && parsed_date((#[trigger] rows[j]).2@) is Some implies exists|k: int|
        0 <= k < s.len() && (#[trigger] s[k]).username == rows[j].0@ by {
        let m = choose|m: int| 0 <= m < g.len() && (#[trigger] g[m]).username == rows[j].0@;
        assert(g.contains(g[m]));
        assert(g.to_multiset().count(g[m]) > 0);
        assert(s.contains(g[m]));
        let k = choose|k: int| 0 <= k < s.len() && s[k] == g[m];
        assert(s[k].username == rows[j].0@);
    }
}

/// Each debtor of the list (see `debtors_from_rows`) is overdue by the longest overdue of
/// its tenant's rows with a readable end date, whatever the order of the rows.
pub proof fn debtor_days_are_the_longest_overdue(rows: Seq<(String, String, String)>, today: Date)
    requires
        day_in_range(today@),
    ensures
        forall|k: int| 0 <= k < sort_by_debt(group_rows(rows, today)).len() ==> longest_overdue(rows, today,
            (#[trigger] sort_by_debt(group_rows(rows, today))[k]).username, sort_by_debt(group_rows(rows, today))[k].days),
{
    broadcast use vstd::seq_lib::group_to_multiset_ensures;
    let g = group_rows(rows, today);
    let s = sort_by_debt(g);
    group_rows_days(rows, today);
    sort_by_debt_sorts(g);
    assert forall|k: int| 0 <= k < s.len() implies longest_overdue(rows, today, (#[trigger] s[k]).username, s[k].days) by {
        assert(s.contains(s[k]));
        assert(s.to_multiset().count(s[k]) > 0);
        assert(g.contains(s[k]));
        let m = choose|m: int| 0 <= m < g.len() && g[m] == s[k];
        assert(longest_overdue(rows, today, g[m].username, g[m].days));
    }
}

/// The debtor list holds each username once, as many debtors as the grouping made, in
/// order of debt, largest first; and the grouped debts add up to the debts of all rows.
pub proof fn debtor_list_laws(rows: Seq<(String, String, String)>, today: Date)
    requires
        day_in_range(today@),
    ensures
        sorted_by_debt(sort_by_debt(group_rows(rows, today))),
        sort_by_debt(group_rows(rows, today)).to_multiset() == group_rows(rows, today).to_multiset(),
        unique_users(group_rows(rows, today)),
        total_debt(group_rows(rows, today)) == rows_debt(rows, today),
{
    group_rows_facts(rows, today);
    sort_by_debt_sorts(group_rows(rows, today));
}

} // verus!
