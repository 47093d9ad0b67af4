use vstd::prelude::*;
use vstd::string::StringSliceAdditionalSpecFns;

use crate::validator::{accepted, verify_key};

verus! {

/// From this many attempts on, a failed attempt is reported as one too many.
pub const ATTEMPT_WARNING_THRESHOLD: u32 = 5;

/// The most entries that an `ActivityFeed` keeps.
pub const LOG_CAPACITY: usize = 50;

/// What an unlock attempt came to.
#[derive(Clone, Copy, Debug, PartialEq, Eq, Structural)]
pub enum UnlockOutcome {
    /// The key was accepted.
    Activated,
    /// The key was refused.
    Invalid,
    /// The key was refused, and the attempts have reached `ATTEMPT_WARNING_THRESHOLD`.
    TooManyAttempts,
}

/// The license state of a session: how many attempts were made, and whether the last
/// one unlocked the features.
#[derive(Clone, Copy, Debug, PartialEq, Eq, Structural)]
pub struct Activation {
    pub tries: u32,
    pub unlocked: bool,
}

/// `n + 1`, held at `u32::MAX`.
pub open spec fn tries_after(n: u32) -> u32 {
    if n == u32::MAX {
        n
    } else {
        (n + 1) as u32
    }
}

/// The outcome of an attempt, from the key's verdict and the attempt count after it.
pub open spec fn outcome_of(key_accepted: bool, tries: u32) -> UnlockOutcome {
    if key_accepted {
        UnlockOutcome::Activated
    } else if tries >= ATTEMPT_WARNING_THRESHOLD {
        UnlockOutcome::TooManyAttempts
    } else {
        UnlockOutcome::Invalid
    }
}

impl Activation {
    /// A session with no attempts, locked.
    pub fn new() -> (r: Activation)
        ensures
            r.tries == 0,
            !r.unlocked,
    {
        Activation { tries: 0, unlocked: false }
    }

    /// Counts one attempt with `key`; the session is unlocked exactly when `key` is
    /// accepted, and locked otherwise.
    pub fn attempt_unlock(&mut self, key: &str) -> (r: UnlockOutcome)
        ensures
            final(self).tries == tries_after(old(self).tries),
            final(self).unlocked == accepted(key.spec_bytes()),
            r == outcome_of(accepted(key.spec_bytes()), final(self).tries),
    {
        self.tries = self.tries.saturating_add(1);
        if verify_key(key) {
            self.unlocked = true;
            UnlockOutcome::Activated
        } else {
            self.unlocked = false;
            if self.tries >= ATTEMPT_WARNING_THRESHOLD {
                UnlockOutcome::TooManyAttempts
            } else {
                UnlockOutcome::Invalid
            }
        }
    }
}

/// One line of the activity log.
#[derive(Clone, Debug)]
pub struct ActivityLog {
    pub timestamp: String,
    pub action: String,
    pub status: String,
    pub icon: String,
}

/// The activity log: newest entry first, at most `LOG_CAPACITY` entries.
pub struct ActivityFeed {
    entries: Vec<ActivityLog>,
}

/// `entries` with `entry` put in front, cut to `LOG_CAPACITY` entries.
pub open spec fn pushed_front(entries: Seq<ActivityLog>, entry: ActivityLog) -> Seq<ActivityLog> {
    let all = seq![entry] + entries;
    if all.len() > LOG_CAPACITY {
        all.take(LOG_CAPACITY as int)
    } else {
        all
    }
}

impl View for ActivityFeed {
    type V = Seq<ActivityLog>;

    closed spec fn view(&self) -> Seq<ActivityLog> {
        self.entries@
    }
}

impl ActivityFeed {
    /// The feed holds no more than `LOG_CAPACITY` entries.
    pub open spec fn wf(&self) -> bool {
        self@.len() <= LOG_CAPACITY
    }

    /// An empty feed.
    pub fn new() -> (r: ActivityFeed)
        ensures
            r@ == Seq::<ActivityLog>::empty(),
            r.wf(),
    {
        ActivityFeed { entries: Vec::new() }
    }

    /// Puts an entry made of the given parts in front, dropping the oldest entry when the
    /// feed would exceed `LOG_CAPACITY`.
    pub fn add_activity_log(
        &mut self,
        timestamp: String,
        action: String,
        status: String,
        icon: String,
    )
        ensures
            final(self)@ == pushed_front(
                old(self)@,
                (ActivityLog { timestamp, action, status, icon }),
            ),
            final(self).wf(),
    {
        self.entries.insert(0, ActivityLog { timestamp, action, status, icon });
        if self.entries.len() > LOG_CAPACITY {
            self.entries.truncate(LOG_CAPACITY);
        }
    }

    /// The entries, newest first.
    pub fn entries(&self) -> (r: &[ActivityLog])
        ensures
            r@ == self@,
    {
        self.entries.as_slice()
    }

    /// The number of entries.
    pub fn len(&self) -> (r: usize)
        ensures
            r == self@.len(),
    {
        self.entries.len()
    }
}

/// The number of threats a finished security scan reports: one when the last decimal
/// digit of the low 32 bits of the Unix time `unix_secs` is below 3, none otherwise.
pub fn scan_threat_count(unix_secs: i64) -> (r: u32)
    ensures
        r == (if (unix_secs as u32) % 10 < 3 {
            1u32
        } else {
            0u32
        }),
{
    let now: u32 = unix_secs as u32;
    if now % 10 < 3 {
        1
    } else {
        0
    }
}

} // verus!
