//! Locker domain model and height categories.

use crate::calendar::Timestamp;
use crate::text::{contains_seq, contains_text, i64_text, int_text, spec_lowercase, to_lowercase};
use vstd::prelude::*;

verus! {

/// A physical storage locker that can be rented by tenants.
#[derive(Debug, Clone, PartialEq, Eq)]
pub struct Locker {
    /// Database identifier (assigned on save).
    pub id: i64,
    /// Unique human-readable label (e.g. "A-001").
    pub label: String,
    /// Physical location name.
    pub location: String,
    /// Height in centimeters.
    pub height: i32,
    /// Whether the locker is currently marked as damaged.
    pub is_damaged: bool,
    /// When the locker was created.
    pub created_at: Timestamp,
}

/// Height preference for locker selection.
#[derive(Debug, Clone, Copy, PartialEq, Eq, Structural)]
pub enum HeightCategory {
    /// Up to 50 cm.
    Low,
    /// From 51 to 150 cm.
    Middle,
    /// Above 150 cm, or a height that makes no sense.
    High,
}

/// The category of a height in centimeters: up to 50 low, 51 to 150 middle,
/// anything else (taller, or negative) high.
pub open spec fn category_of_height(h: int) -> HeightCategory {
    if 0 <= h && h <= 50 {
        HeightCategory::Low
    } else if 51 <= h && h <= 150 {
        HeightCategory::Middle
    } else {
        HeightCategory::High
    }
}

/// The inclusive height range of a category.
pub open spec fn category_range(c: HeightCategory) -> (i32, i32) {
    match c {
        HeightCategory::Low => (0, 50),
        HeightCategory::Middle => (51, 150),
        HeightCategory::High => (151, 300),
    }
}

/// Whether a locker matches a search query: the lower-cased query occurs in the
/// lower-cased label, in the lower-cased location, or in the decimal id.
pub open spec fn locker_matches(label: Seq<char>, location: Seq<char>, id: i64, query: Seq<char>) -> bool {
    let needle = spec_lowercase(query);
    ||| contains_seq(spec_lowercase(label), needle)
    ||| contains_seq(spec_lowercase(location), needle)
    ||| contains_seq(int_text(id as int), needle)
}

impl Locker {
    /// Creates a new, undamaged locker with id 0, stamped with the current time.
    pub fn new(label: &str, location: &str, height: i32) -> (r: Self)
        ensures
            r.id == 0,
            r.label@ == label@,
            r.location@ == location@,
            r.height == height,
            !r.is_damaged,
    {
        Locker {
            id: 0,
            label: label.to_owned(),
            location: location.to_owned(),
            height,
            is_damaged: false,
            created_at: Timestamp::now(),
        }
    }

    /// Marks the locker as damaged.
    pub fn mark_damaged(&mut self)
        ensures
            *final(self) == (Locker { is_damaged: true, ..*old(self) }),
    {
        self.is_damaged = true;
    }

    /// Marks the locker as repaired.
    pub fn mark_repaired(&mut self)
        ensures
            *final(self) == (Locker { is_damaged: false, ..*old(self) }),
    {
        self.is_damaged = false;
    }

    /// Returns the height category for this locker.
    pub fn height_category(&self) -> (r: HeightCategory)
        ensures
            r == category_of_height(self.height as int),
    {
        if 0 <= self.height && self.height <= 50 {
            HeightCategory::Low
        } else if 51 <= self.height && self.height <= 150 {
            HeightCategory::Middle
        } else {
            HeightCategory::High
        }
    }

    /// Checks if the locker matches the given query string.
    pub fn matches_query(&self, query: &str) -> (r: bool)
        ensures
            r == locker_matches(self.label@, self.location@, self.id, query@),
    {
        let needle = to_lowercase(query);
        let label = to_lowercase(self.label.as_str());
        if contains_text(label.as_str(), needle.as_str()) {
            return true;
        }
        let location = to_lowercase(self.location.as_str());
        if contains_text(location.as_str(), needle.as_str()) {
            return true;
        }
        let id = i64_text(self.id);
        contains_text(id.as_str(), needle.as_str())
    }
}

impl HeightCategory {
    /// Returns the inclusive height range for this category.
    pub fn range(&self) -> (r: (i32, i32))
        ensures
            r == category_range(*self),
    {
        match self {
            HeightCategory::Low => (0, 50),
            HeightCategory::Middle => (51, 150),
            HeightCategory::High => (151, 300),
        }
    }
}

/// Every height from 0 to 300 cm lies in the range of its own category, and the
/// ranges of the three categories do not overlap.
pub proof fn height_category_within_range(h: int)
    requires
        0 <= h <= 300,
    ensures
        category_range(category_of_height(h)).0 <= h <= category_range(category_of_height(h)).1,
        forall|c: HeightCategory|
            #[trigger] category_range(c).0 <= h <= category_range(c).1 ==> c == category_of_height(h),
{
}

} // verus!
