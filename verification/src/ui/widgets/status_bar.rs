//! The status bar: the last status message and the escape indicator `[|||]`, whose
//! three pipes count the presses of Esc; the third press within a second of the
//! previous one returns to the dashboard.

use crate::calendar::clock_millis;
use crate::ui::state::millis_between;
use vstd::prelude::*;

verus! {

/// Milliseconds after which an Esc press no longer counts towards the next one.
pub const ESCAPE_WINDOW_MS: u64 = 1000;

/// Number of Esc presses that returns to the dashboard; the count stops there.
pub const ESCAPES_TO_DASHBOARD: u8 = 3;

/// The status bar `after` is `before` checked for an Esc timeout at the clock reading
/// `now`: the message stays; when the last press lies more than a second before `now`
/// the count and the time of the last press are forgotten, and otherwise both stay.
pub open spec fn timeout_checked(before: StatusBar, after: StatusBar, now: u64) -> bool {
    &&& after.spec_message() == before.spec_message()
    &&& if escape_expired(before.spec_last_escape(), now) {
        &&& after.spec_escape_count() == 0
        &&& after.spec_last_escape().is_none()
    } else {
        &&& after.spec_escape_count() == before.spec_escape_count()
        &&& after.spec_last_escape() == before.spec_last_escape()
    }
}

/// Status message level.
#[derive(Debug, Clone, Copy, PartialEq, Eq, Structural)]
pub enum StatusLevel {
    /// Neutral information.
    Info,
    /// Something succeeded.
    Success,
    /// Something needs attention.
    Warning,
    /// Something failed.
    Error,
}

/// A status message with level and timestamp.
#[derive(Debug, Clone)]
pub struct StatusMessage {
    /// The text shown.
    pub text: String,
    /// How the text is coloured.
    pub level: StatusLevel,
    /// Clock reading in milliseconds when the message was set.
    pub timestamp: u64,
}

/// Status bar component with message display and escape indicator.
#[derive(Debug)]
pub struct StatusBar {
    /// The message shown, if any.
    pub message: Option<StatusMessage>,
    escape_count: u8,
    last_escape_time: Option<u64>,
}

/// The escape count and the time of the last press after a press of Esc at `now`: a
/// press more than a second after the previous one starts counting anew, and the
/// count stops at three.
pub open spec fn escape_step(count: u8, last: Option<u64>, now: u64) -> (u8, Option<u64>) {
    let base: int = match last {
        Some(t) => if millis_between(t, now) > ESCAPE_WINDOW_MS { 0 } else { count as int },
        None => count as int,
    };
    let next: int = if base + 1 < ESCAPES_TO_DASHBOARD { base + 1 } else { ESCAPES_TO_DASHBOARD as int };
    (next as u8, Some(now))
}

/// Whether, at `now`, the last press of Esc lies more than a second back.
pub open spec fn escape_expired(last: Option<u64>, now: u64) -> bool {
    match last {
        Some(t) => millis_between(t, now) > ESCAPE_WINDOW_MS,
        None => false,
    }
}

impl StatusBar {
    /// The message shown.
    pub closed spec fn spec_message(&self) -> Option<StatusMessage> {
        self.message
    }

    /// Number of Esc presses counted.
    pub closed spec fn spec_escape_count(&self) -> u8 {
        self.escape_count
    }

    /// Time of the last counted Esc press.
    pub closed spec fn spec_last_escape(&self) -> Option<u64> {
        self.last_escape_time
    }

    /// A status bar with no message and no Esc press counted.
    pub fn new() -> (r: Self)
        ensures
            r.spec_message().is_none(),
            r.spec_escape_count() == 0,
            r.spec_last_escape().is_none(),
    {
        StatusBar { message: None, escape_count: 0, last_escape_time: None }
    }

    /// Shows `text` at `level`, stamped with `now`.
    pub fn set_message_at(&mut self, text: String, level: StatusLevel, now: u64)
        ensures
            final(self).spec_message() == Some(StatusMessage { text, level, timestamp: now }),
            final(self).spec_escape_count() == old(self).spec_escape_count(),
            final(self).spec_last_escape() == old(self).spec_last_escape(),
    {
        self.message = Some(StatusMessage { text, level, timestamp: now });
    }

    /// Shows `text` at `level`, stamped with the current time.
    pub fn set_message(&mut self, text: String, level: StatusLevel)
        ensures
            final(self).spec_message() matches Some(m) && m.text == text && m.level == level,
            final(self).spec_escape_count() == old(self).spec_escape_count(),
            final(self).spec_last_escape() == old(self).spec_last_escape(),
    {
        self.set_message_at(text, level, clock_millis());
    }

    /// Counts a press of Esc at `now` (see `escape_step`).
    pub fn increment_escape_count_at(&mut self, now: u64)
        ensures
            (final(self).spec_escape_count(), final(self).spec_last_escape())
                == escape_step(old(self).spec_escape_count(), old(self).spec_last_escape(), now),
            final(self).spec_escape_count() <= ESCAPES_TO_DASHBOARD,
            final(self).spec_message() == old(self).spec_message(),
    {
        if let Some(last) = self.last_escape_time {
            let elapsed: u64 = if now >= last { now - last } else { 0 };
            if elapsed > ESCAPE_WINDOW_MS {
                self.escape_count = 0;
            }
        }
        if self.escape_count < ESCAPES_TO_DASHBOARD - 1 {
            self.escape_count = self.escape_count + 1;
        } else {
            self.escape_count = ESCAPES_TO_DASHBOARD;
        }
        self.last_escape_time = Some(now);
    }

    /// Counts a press of Esc at the current time.
    pub fn increment_escape_count(&mut self)
        ensures
            exists|now: u64|
                (final(self).spec_escape_count(), final(self).spec_last_escape())
                    == escape_step(old(self).spec_escape_count(), old(self).spec_last_escape(), now),
            final(self).spec_escape_count() <= ESCAPES_TO_DASHBOARD,
            final(self).spec_message() == old(self).spec_message(),
    {
        let now = clock_millis();
        self.increment_escape_count_at(now);
    }

    /// Forgets all counted presses of Esc.
    pub fn reset_escape_count(&mut self)
        ensures
            final(self).spec_escape_count() == 0,
            final(self).spec_last_escape().is_none(),
            final(self).spec_message() == old(self).spec_message(),
    {
        self.escape_count = 0;
        self.last_escape_time = None;
    }

    /// Whether three presses of Esc have been counted.
    pub fn should_return_to_dashboard(&self) -> (r: bool)
        ensures
            r == (self.spec_escape_count() >= ESCAPES_TO_DASHBOARD),
    {
        self.escape_count >= ESCAPES_TO_DASHBOARD
    }

    /// Number of Esc presses counted.
    pub fn escape_count(&self) -> (r: u8)
        ensures
            r == self.spec_escape_count(),
    {
        self.escape_count
    }

    /// Forgets the counted presses of Esc when, at `now`, the last one lies more than
    /// a second back.
    pub fn check_escape_timeout_at(&mut self, now: u64)
        ensures
            final(self).spec_message() == old(self).spec_message(),
            if escape_expired(old(self).spec_last_escape(), now) {
                &&& final(self).spec_escape_count() == 0
                &&& final(self).spec_last_escape().is_none()
            } else {
                &&& final(self).spec_escape_count() == old(self).spec_escape_count()
                &&& final(self).spec_last_escape() == old(self).spec_last_escape()
            },
    {
        if let Some(last) = self.last_escape_time {
            let elapsed: u64 = if now >= last { now - last } else { 0 };
            if elapsed > ESCAPE_WINDOW_MS {
                self.reset_escape_count();
            }
        }
    }

    /// Forgets the counted presses of Esc when the last one lies more than a second back.
    pub fn check_escape_timeout(&mut self)
        ensures
            exists|now: u64| #[trigger] timeout_checked(*old(self), *final(self), now),
    {
        let now = clock_millis();
        self.check_escape_timeout_at(now);
        assert(timeout_checked(*old(self), *self, now));
    }

    /// A copy of the message shown.
    pub fn message_copy(&self) -> (r: Option<StatusMessage>)
        ensures
            r == self.spec_message(),
    {
        match &self.message {
            Some(m) => Some(StatusMessage { text: m.text.clone(), level: m.level, timestamp: m.timestamp }),
            None => None,
        }
    }

    /// Shows `message` in place of the current one, if any.
    pub fn replace_message(&mut self, message: Option<StatusMessage>)
        ensures
            final(self).spec_message() == message,
            final(self).spec_escape_count() == old(self).spec_escape_count(),
            final(self).spec_last_escape() == old(self).spec_last_escape(),
    {
        self.message = message;
    }

    /// Whether pipe `i` (0, 1 or 2) of the escape indicator `[|||]` is lit.
    pub fn escape_pipe_active(&self, i: usize) -> (r: bool)
        ensures
            r == (i < self.spec_escape_count()),
    {
        i < self.escape_count as usize
    }
}

impl Default for StatusBar {
    fn default() -> (r: Self)
        ensures
            r.spec_message().is_none(),
            r.spec_escape_count() == 0,
            r.spec_last_escape().is_none(),
    {
        Self::new()
    }
}

/// Three presses of Esc, each at most a second after the one before, starting from no
/// counted press, reach the count that returns to the dashboard; and a press more than
/// a second after the previous one counts as the first.
pub proof fn triple_escape_reaches_dashboard(t1: u64, t2: u64, t3: u64, count: u8, last: u64, now: u64)
    requires
        t1 <= t2 <= t3,
        t2 - t1 <= ESCAPE_WINDOW_MS,
        t3 - t2 <= ESCAPE_WINDOW_MS,
        millis_between(last, now) > ESCAPE_WINDOW_MS,
    ensures
        ({
            let s1 = escape_step(0, None, t1);
            let s2 = escape_step(s1.0, s1.1, t2);
            let s3 = escape_step(s2.0, s2.1, t3);
            &&& s1.0 == 1
            &&& s2.0 == 2
            &&& s3.0 == ESCAPES_TO_DASHBOARD
        }),
        escape_step(count, Some(last), now).0 == 1,
{
}

} // verus!
