//! Restoring a full backup: the counts of imported and skipped records, and the
//! bookkeeping that maps the ids of the backup to the ids the database gives the
//! records. The database work itself is done by the caller, one record at a time.

use crate::text::nat_text;
use std::collections::HashMap;
use vstd::prelude::*;

verus! {

broadcast use vstd::std_specs::hash::group_hash_axioms;

/// Statistics about an import operation.
#[derive(Debug, Clone, Copy, PartialEq, Eq, Structural)]
pub struct ImportStats {
    /// Number of lockers successfully imported.
    pub lockers_imported: usize,
    /// Number of lockers skipped (e.g., due to duplicate labels).
    pub lockers_skipped: usize,
    /// Number of rentals successfully imported.
    pub rentals_imported: usize,
    /// Number of rentals skipped (e.g., due to missing locker references).
    pub rentals_skipped: usize,
    /// Number of payments successfully imported.
    pub payments_imported: usize,
    /// Number of payments skipped.
    pub payments_skipped: usize,
    /// Number of locations successfully imported.
    pub locations_imported: usize,
    /// Number of locations skipped (e.g., due to duplicate names).
    pub locations_skipped: usize,
}

/// Total number of imported records.
pub open spec fn spec_total_imported(s: ImportStats) -> int {
    s.lockers_imported + s.rentals_imported + s.payments_imported + s.locations_imported
}

/// Total number of skipped records.
pub open spec fn spec_total_skipped(s: ImportStats) -> int {
    s.lockers_skipped + s.rentals_skipped + s.payments_skipped + s.locations_skipped
}

/// `n` followed by a blank and `noun`, when `n` is not zero.
pub open spec fn count_part(n: usize, noun: Seq<char>) -> Seq<Seq<char>> {
    if n > 0 { seq![nat_text(n as nat) + seq![' '] + noun] } else { Seq::empty() }
}

/// The counted parts of a summary: lockers, rentals, payments and locations, each
/// only when some were imported.
pub open spec fn summary_parts(s: ImportStats) -> Seq<Seq<char>> {
    count_part(s.lockers_imported, "Schließfächer"@) + count_part(s.rentals_imported, "Vermietungen"@)
        + count_part(s.payments_imported, "Zahlungen"@) + count_part(s.locations_imported, "Standorte"@)
}

/// The parts joined with `", "`.
pub open spec fn join_parts(parts: Seq<Seq<char>>) -> Seq<char>
    decreases parts.len(),
{
    if parts.len() == 0 {
        Seq::empty()
    } else if parts.len() == 1 {
        parts[0]
    } else {
        join_parts(parts.drop_last()) + ", "@ + parts.last()
    }
}

/// The German summary: "Importiert: " and the parts, or "Keine Daten importiert".
pub open spec fn summary_text(s: ImportStats) -> Seq<char> {
    if summary_parts(s).len() == 0 {
        "Keine Daten importiert"@
    } else {
        "Importiert: "@ + join_parts(summary_parts(s))
    }
}

impl Default for ImportStats {
    fn default() -> (r: Self)
        ensures
            r == (ImportStats {
                lockers_imported: 0,
                lockers_skipped: 0,
                rentals_imported: 0,
                rentals_skipped: 0,
                payments_imported: 0,
                payments_skipped: 0,
                locations_imported: 0,
                locations_skipped: 0,
            }),
    {
        ImportStats {
            lockers_imported: 0,
            lockers_skipped: 0,
            rentals_imported: 0,
            rentals_skipped: 0,
            payments_imported: 0,
            payments_skipped: 0,
            locations_imported: 0,
            locations_skipped: 0,
        }
    }
}

/// Appends `", "` (unless it is the first part) and `n noun` to `out` when `n` is not
/// zero.
fn append_part(out: &mut String, first: &mut bool, n: usize, noun: &str, Ghost(prefix): Ghost<Seq<char>>, Ghost(parts): Ghost<Seq<Seq<char>>>)
    requires
        *old(first) <==> parts.len() == 0,
        old(out)@ == prefix + join_parts(parts),
    ensures
        *final(first) <==> (parts + count_part(n, noun@)).len() == 0,
        final(out)@ == prefix + join_parts(parts + count_part(n, noun@)),
{
    if n > 0 {
        let ghost part = nat_text(n as nat) + seq![' '] + noun@;
        if !*first {
            out.append(", ");
        }
        out.append(crate::text::u64_text(n as u64).as_str());
        out.append(" ");
        out.append(noun);
        proof {
            reveal_strlit(" ");
            let all = parts + count_part(n, noun@);
            assert(count_part(n, noun@) == seq![part]);
            assert(all.drop_last() =~= parts);
            assert(all.last() == part);
            if parts.len() == 0 {
                assert(all =~= seq![part]);
            }
        }
        *first = false;
    } else {
        assert(parts + count_part(n, noun@) =~= parts);
    }
}

impl ImportStats {
    /// Returns the total number of records successfully imported.
    pub fn total_imported(&self) -> (r: usize)
        requires
            spec_total_imported(*self) <= usize::MAX,
        ensures
            r == spec_total_imported(*self),
    {
        self.lockers_imported + self.rentals_imported + self.payments_imported + self.locations_imported
    }

    /// Returns the total number of records skipped.
    pub fn total_skipped(&self) -> (r: usize)
        requires
            spec_total_skipped(*self) <= usize::MAX,
        ensures
            r == spec_total_skipped(*self),
    {
        self.lockers_skipped + self.rentals_skipped + self.payments_skipped + self.locations_skipped
    }

    /// Returns true if any records were skipped during import.
    pub fn has_skipped(&self) -> (r: bool)
        requires
            spec_total_skipped(*self) <= usize::MAX,
        ensures
            r == (spec_total_skipped(*self) > 0),
    {
        self.total_skipped() > 0
    }

    /// Formats the import statistics as a human-readable summary in German (see
    /// `summary_text`).
    pub fn format_summary(&self) -> (r: String)
        ensures
            r@ == summary_text(*self),
    {
        let mut out = "Importiert: ".to_owned();
        let mut first = true;
        let ghost prefix = "Importiert: "@;
        assert(join_parts(Seq::<Seq<char>>::empty()) =~= Seq::<char>::empty());
        append_part(&mut out, &mut first, self.lockers_imported, "Schließfächer", Ghost(prefix), Ghost(Seq::empty()));
        let ghost p1 = Seq::<Seq<char>>::empty() + count_part(self.lockers_imported, "Schließfächer"@);
        append_part(&mut out, &mut first, self.rentals_imported, "Vermietungen", Ghost(prefix), Ghost(p1));
        let ghost p2 = p1 + count_part(self.rentals_imported, "Vermietungen"@);
        append_part(&mut out, &mut first, self.payments_imported, "Zahlungen", Ghost(prefix), Ghost(p2));
        let ghost p3 = p2 + count_part(self.payments_imported, "Zahlungen"@);
        append_part(&mut out, &mut first, self.locations_imported, "Standorte", Ghost(prefix), Ghost(p3));
        let ghost p4 = p3 + count_part(self.locations_imported, "Standorte"@);
        assert(p4 =~= summary_parts(*self));
        if first {
            "Keine Daten importiert".to_owned()
        } else {
            out
        }
    }
}

/// What the database did with a record it was asked to insert.
#[derive(Debug, Clone, Copy, PartialEq, Eq, Structural)]
pub enum InsertOutcome {
    /// The record was inserted under this id.
    Inserted(i64),
    /// The record was ignored as a duplicate; the id of the record it duplicates, if
    /// that could be found.
    Ignored(Option<i64>),
    /// The insert failed.
    Failed,
}

/// The bookkeeping of restoring a backup: the counts, and the ids the database gave
/// the lockers and rentals of the backup.
#[derive(Debug)]
pub struct BackupImport {
    stats: ImportStats,
    locker_ids: HashMap<i64, i64>,
    rental_ids: HashMap<i64, i64>,
}

/// Statistics with every count zero.
pub open spec fn empty_stats() -> ImportStats {
    ImportStats {
        lockers_imported: 0,
        lockers_skipped: 0,
        rentals_imported: 0,
        rentals_skipped: 0,
        payments_imported: 0,
        payments_skipped: 0,
        locations_imported: 0,
        locations_skipped: 0,
    }
}

impl BackupImport {
    /// The counts so far.
    pub closed spec fn counts(&self) -> ImportStats {
        self.stats
    }

    /// The counts so far.
    pub fn stats(&self) -> (r: ImportStats)
        ensures
            r == self.counts(),
    {
        self.stats
    }

    /// Database ids of the backup's lockers, by their ids in the backup.
    pub closed spec fn locker_map(&self) -> Map<i64, i64> {
        self.locker_ids@
    }

    /// Database ids of the backup's rentals, by their ids in the backup.
    pub closed spec fn rental_map(&self) -> Map<i64, i64> {
        self.rental_ids@
    }

    /// Nothing counted and no id known.
    pub fn new() -> (r: Self)
        ensures
            r.counts() == empty_stats(),
            r.locker_map() == Map::<i64, i64>::empty(),
            r.rental_map() == Map::<i64, i64>::empty(),
    {
        BackupImport { stats: ImportStats::default(), locker_ids: HashMap::new(), rental_ids: HashMap::new() }
    }

    /// Counts a location: imported when the database inserted it, skipped otherwise.
    pub fn record_location(&mut self, inserted: bool)
        requires
            old(self).counts().locations_imported < usize::MAX,
            old(self).counts().locations_skipped < usize::MAX,
        ensures
            final(self).counts() == (if inserted {
                ImportStats { locations_imported: (old(self).counts().locations_imported + 1) as usize, ..old(self).counts() }
            } else {
                ImportStats { locations_skipped: (old(self).counts().locations_skipped + 1) as usize, ..old(self).counts() }
            }),
            final(self).locker_map() == old(self).locker_map(),
            final(self).rental_map() == old(self).rental_map(),
    {
        if inserted {
            self.stats.locations_imported = self.stats.locations_imported + 1;
        } else {
            self.stats.locations_skipped = self.stats.locations_skipped + 1;
        }
    }

    /// Counts the locker with id `old_id` in the backup: when inserted, it is imported
    /// and its new id is noted; when ignored as a duplicate, it is skipped and the id
    /// of the locker it duplicates is noted where known; when failed, it is skipped.
    pub fn record_locker(&mut self, old_id: i64, outcome: InsertOutcome)
        requires
            old(self).counts().lockers_imported < usize::MAX,
            old(self).counts().lockers_skipped < usize::MAX,
        ensures
            final(self).rental_map() == old(self).rental_map(),
            match outcome {
                InsertOutcome::Inserted(new_id) => {
                    &&& final(self).counts() == (ImportStats {
                        lockers_imported: (old(self).counts().lockers_imported + 1) as usize,
                        ..old(self).counts()
                    })
                    &&& final(self).locker_map() == old(self).locker_map().insert(old_id, new_id)
                },
                InsertOutcome::Ignored(existing) => {
                    &&& final(self).counts() == (ImportStats {
                        lockers_skipped: (old(self).counts().lockers_skipped + 1) as usize,
                        ..old(self).counts()
                    })
                    &&& final(self).locker_map() == match existing {
                        Some(e) => old(self).locker_map().insert(old_id, e),
                        None => old(self).locker_map(),
                    }
                },
                InsertOutcome::Failed => {
                    &&& final(self).counts() == (ImportStats {
                        lockers_skipped: (old(self).counts().lockers_skipped + 1) as usize,
                        ..old(self).counts()
                    })
                    &&& final(self).locker_map() == old(self).locker_map()
                },
            },
    {
        match outcome {
            InsertOutcome::Inserted(new_id) => {
                self.locker_ids.insert(old_id, new_id);
                self.stats.lockers_imported = self.stats.lockers_imported + 1;
            },
            InsertOutcome::Ignored(existing) => {
                match existing {
                    Some(e) => {
                        self.locker_ids.insert(old_id, e);
                    },
                    None => {},
                }
                self.stats.lockers_skipped = self.stats.lockers_skipped + 1;
            },
            InsertOutcome::Failed => {
                self.stats.lockers_skipped = self.stats.lockers_skipped + 1;
            },
        }
    }

    /// The database id of the backup's locker `old_locker_id`, if it is known.
    pub fn locker_target(&self, old_locker_id: i64) -> (r: Option<i64>)
        ensures
            r == (if self.locker_map().contains_key(old_locker_id) {
                Some(self.locker_map()[old_locker_id])
            } else {
                None
            }),
    {
        match self.locker_ids.get(&old_locker_id) {
            Some(id) => Some(*id),
            None => None,
        }
    }

    /// Counts the rental with id `old_id` in the backup. `outcome` is `None` when its
    /// locker has no known id, and the rental was not offered to the database; it is
    /// then skipped. When inserted, it is imported and its new id is noted; otherwise
    /// it is skipped.
    pub fn record_rental(&mut self, old_id: i64, outcome: Option<InsertOutcome>)
        requires
            old(self).counts().rentals_imported < usize::MAX,
            old(self).counts().rentals_skipped < usize::MAX,
        ensures
            final(self).locker_map() == old(self).locker_map(),
            match outcome {
                Some(InsertOutcome::Inserted(new_id)) => {
                    &&& final(self).counts() == (ImportStats {
                        rentals_imported: (old(self).counts().rentals_imported + 1) as usize,
                        ..old(self).counts()
                    })
                    &&& final(self).rental_map() == old(self).rental_map().insert(old_id, new_id)
                },
                _ => {
                    &&& final(self).counts() == (ImportStats {
                        rentals_skipped: (old(self).counts().rentals_skipped + 1) as usize,
                        ..old(self).counts()
                    })
                    &&& final(self).rental_map() == old(self).rental_map()
                },
            },
    {
        match outcome {
            Some(InsertOutcome::Inserted(new_id)) => {
                self.rental_ids.insert(old_id, new_id);
                self.stats.rentals_imported = self.stats.rentals_imported + 1;
            },
            _ => {
                self.stats.rentals_skipped = self.stats.rentals_skipped + 1;
            },
        }
    }

    /// The database id of the backup's rental `old_rental_id`, if it is known.
    pub fn rental_target(&self, old_rental_id: i64) -> (r: Option<i64>)
        ensures
            r == (if self.rental_map().contains_key(old_rental_id) {
                Some(self.rental_map()[old_rental_id])
            } else {
                None
            }),
    {
        match self.rental_ids.get(&old_rental_id) {
            Some(id) => Some(*id),
            None => None,
        }
    }

    /// Counts a payment. `inserted` is `None` when its rental has no known id, and the
    /// payment was not offered to the database; it is then skipped, as it is when the
    /// database did not insert it.
    pub fn record_payment(&mut self, inserted: Option<bool>)
        requires
            old(self).counts().payments_imported < usize::MAX,
            old(self).counts().payments_skipped < usize::MAX,
        ensures
            final(self).locker_map() == old(self).locker_map(),
            final(self).rental_map() == old(self).rental_map(),
            final(self).counts() == (if inserted == Some(true) {
                ImportStats { payments_imported: (old(self).counts().payments_imported + 1) as usize, ..old(self).counts() }
            } else {
                ImportStats { payments_skipped: (old(self).counts().payments_skipped + 1) as usize, ..old(self).counts() }
            }),
    {
        if inserted == Some(true) {
            self.stats.payments_imported = self.stats.payments_imported + 1;
        } else {
            self.stats.payments_skipped = self.stats.payments_skipped + 1;
        }
    }
}

} // verus!
