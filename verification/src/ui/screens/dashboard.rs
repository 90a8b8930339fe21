//! What the dashboard shows besides numbers: the occupancy bar and the list of actions
//! that need doing.

use crate::models::DashboardStats;
use crate::text::{i64_text, int_text, nat_text, u64_text};
use vstd::prelude::*;

verus! {

/// Number of filled cells of a bar of `width` cells for `percentage` percent, at most
/// the whole bar.
pub open spec fn filled_cells(percentage: u8, width: usize) -> nat {
    let f = (percentage as nat * width as nat) / 100;
    if f < width { f } else { width as nat }
}

/// The text of a progress bar: `[`, a full block per filled cell, a light shade per
/// empty one, and `]`.
pub open spec fn progress_bar_text(percentage: u8, width: usize) -> Seq<char> {
    seq!['['] + Seq::new(filled_cells(percentage, width), |_i: int| '█')
        + Seq::new((width - filled_cells(percentage, width)) as nat, |_i: int| '░') + seq![']']
}

/// Draws a progress bar of `width` cells for `percentage` percent (see
/// `progress_bar_text`).
pub fn render_progress_bar(percentage: u8, width: usize) -> (r: String)
    requires
        percentage as nat * width as nat <= usize::MAX,
    ensures
        r@ == progress_bar_text(percentage, width),
{
    let product = percentage as usize * width;
    let f = product / 100;
    let filled = if f < width { f } else { width };
    let empty = width - filled;
    let mut out = String::new();
    crate::text::push_char(&mut out, '[');
    let mut i: usize = 0;
    while i < filled
        invariant
            i <= filled,
            out@ == seq!['['] + Seq::new(i as nat, |_k: int| '█'),
        decreases filled - i,
    {
        crate::text::push_char(&mut out, '█');
        i = i + 1;
        assert(out@ =~= seq!['['] + Seq::new(i as nat, |_k: int| '█'));
    }
    let ghost head = out@;
    let mut j: usize = 0;
    while j < empty
        invariant
            j <= empty,
            out@ == head + Seq::new(j as nat, |_k: int| '░'),
        decreases empty - j,
    {
        crate::text::push_char(&mut out, '░');
        j = j + 1;
        assert(out@ =~= head + Seq::new(j as nat, |_k: int| '░'));
    }
    crate::text::push_char(&mut out, ']');
    assert(out@ =~= progress_bar_text(percentage, width));
    out
}

/// How urgent an action of the dashboard is.
#[derive(Debug, Clone, Copy, PartialEq, Eq, Structural)]
pub enum ActionLevel {
    /// Must be done.
    Error,
    /// Should be done.
    Warning,
    /// Worth knowing.
    Info,
    /// Nothing to do.
    Calm,
}

/// The actions the dashboard lists: overdue extensions, damaged lockers and contracts
/// running out, each when there are any, or that nothing needs doing.
pub open spec fn action_texts(overdue: nat, damaged: int, expiring: nat) -> Seq<(ActionLevel, Seq<char>)> {
    let a: Seq<(ActionLevel, Seq<char>)> = if overdue > 0 {
        seq![(ActionLevel::Error, nat_text(overdue) + " Verlängerungen überfällig"@)]
    } else {
        Seq::empty()
    };
    let b: Seq<(ActionLevel, Seq<char>)> = if damaged > 0 {
        seq![(ActionLevel::Warning, int_text(damaged) + " Schließfächer defekt"@)]
    } else {
        Seq::empty()
    };
    let c: Seq<(ActionLevel, Seq<char>)> = if expiring > 0 {
        seq![(ActionLevel::Info, nat_text(expiring) + " Verträge laufen in 30 Tagen aus"@)]
    } else {
        Seq::empty()
    };
    if (a + b + c).len() == 0 {
        seq![(ActionLevel::Calm, "Keine Aktionen erforderlich"@)]
    } else {
        a + b + c
    }
}

/// The lines of the dashboard's action box (see `action_texts`).
pub fn action_lines(stats: &DashboardStats) -> (r: Vec<(ActionLevel, String)>)
    ensures
        r@.map_values(|l: (ActionLevel, String)| (l.0, l.1@)) == action_texts(
            stats.overdue_rentals.len() as nat,
            stats.damaged_lockers as int,
            stats.expiring_soon.len() as nat,
        ),
{
    let mut out: Vec<(ActionLevel, String)> = Vec::new();
    let overdue = stats.overdue_rentals.len();
    let expiring = stats.expiring_soon.len();
    if overdue > 0 {
        let mut t = u64_text(overdue as u64);
        t.append(" Verlängerungen überfällig");
        out.push((ActionLevel::Error, t));
    }
    if stats.damaged_lockers > 0 {
        let mut t = i64_text(stats.damaged_lockers as i64);
        t.append(" Schließfächer defekt");
        out.push((ActionLevel::Warning, t));
    }
    if expiring > 0 {
        let mut t = u64_text(expiring as u64);
        t.append(" Verträge laufen in 30 Tagen aus");
        out.push((ActionLevel::Info, t));
    }
    if out.len() == 0 {
        out.push((ActionLevel::Calm, "Keine Aktionen erforderlich".to_owned()));
    }
    assert(out@.map_values(|l: (ActionLevel, String)| (l.0, l.1@)) =~= action_texts(
        overdue as nat,
        stats.damaged_lockers as int,
        expiring as nat,
    ));
    out
}

} // verus!
