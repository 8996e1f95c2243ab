//! Failure and hot-plug bookkeeping of the HID link that carries LED reports.
//!
//! The host keeps no open handle: each LED update enumerates, opens the device
//! non-exclusively, sends one feature report and closes. After a string of
//! failed opens or writes the link backs off for a while, so as not to hammer
//! USB. Lifecycle changes are reported on their edges only. The USB calls
//! themselves live outside this library; [`HidConnection`] decides.

use vstd::prelude::*;

verus! {

/// Backoff (ms) applied after a string of failed opens or writes.
pub const FAILURE_BACKOFF_MS: u64 = 2000;

/// Number of consecutive failures that starts a backoff.
pub const MAX_CONSECUTIVE_FAILURES: u32 = 5;

/// The state of the HID link.
pub struct LinkView {
    /// Failed opens or writes since the last success or backoff.
    pub consecutive_failures: u32,
    /// End (ms) of the current backoff, if one was entered.
    pub backoff_until: Option<u64>,
    /// Whether the last enumeration found the device.
    pub had_device: bool,
    /// Whether "entering backoff" was reported since the last successful write.
    pub backoff_logged: bool,
}

/// The link refuses to send at `now` (ms).
pub open spec fn backoff_at(v: LinkView, now: u64) -> bool {
    match v.backoff_until {
        Some(t) => now < t,
        None => false,
    }
}

/// The failure count after one more failure (saturating).
pub open spec fn bumped_failures(v: LinkView) -> int {
    if v.consecutive_failures == u32::MAX {
        u32::MAX as int
    } else {
        v.consecutive_failures + 1
    }
}

/// One more failure starts a backoff.
pub open spec fn failure_enters_backoff(v: LinkView) -> bool {
    bumped_failures(v) >= MAX_CONSECUTIVE_FAILURES
}

/// The link state after a failed open or write at `now` (ms): the failure is
/// counted, and the count reaching [`MAX_CONSECUTIVE_FAILURES`] starts a backoff
/// of [`FAILURE_BACKOFF_MS`] and restarts the count.
pub open spec fn after_failure(v: LinkView, now: u64) -> LinkView {
    if failure_enters_backoff(v) {
        LinkView {
            consecutive_failures: 0,
            backoff_until: Some((now + FAILURE_BACKOFF_MS) as u64),
            backoff_logged: true,
            ..v
        }
    } else {
        LinkView { consecutive_failures: bumped_failures(v) as u32, ..v }
    }
}

/// A failure in state `v` reports "entering backoff": it starts a backoff not
/// reported since the last successful write.
pub open spec fn reports_backoff(v: LinkView) -> bool {
    failure_enters_backoff(v) && !v.backoff_logged
}

/// Finding the device in state `v` reports "acquired".
pub open spec fn reports_acquired(v: LinkView) -> bool {
    !v.had_device
}

/// Missing the device in state `v` reports "lost".
pub open spec fn reports_lost(v: LinkView) -> bool {
    v.had_device
}

/// The link state after a successful write: count and backoff cleared.
pub open spec fn after_success(v: LinkView) -> LinkView {
    LinkView { consecutive_failures: 0, backoff_until: None, backoff_logged: false, ..v }
}

/// HID link bookkeeping.
pub struct HidConnection {
    consecutive_failures: u32,
    backoff_until: Option<u64>,
    had_device: bool,
    backoff_logged: bool,
}

impl View for HidConnection {
    type V = LinkView;

    closed spec fn view(&self) -> LinkView {
        LinkView {
            consecutive_failures: self.consecutive_failures,
            backoff_until: self.backoff_until,
            had_device: self.had_device,
            backoff_logged: self.backoff_logged,
        }
    }
}

impl HidConnection {
    /// A link that has seen no device and no failure.
    pub fn new() -> (conn: Self)
        ensures
            conn@ == (LinkView {
                consecutive_failures: 0,
                backoff_until: None,
                had_device: false,
                backoff_logged: false,
            }),
    {
        HidConnection {
            consecutive_failures: 0,
            backoff_until: None,
            had_device: false,
            backoff_logged: false,
        }
    }

    /// Whether the link is backing off at `now` (ms): a send then fails at once.
    pub fn in_backoff(&self, now: u64) -> (b: bool)
        ensures
            b == backoff_at(self@, now),
    {
        match self.backoff_until {
            Some(t) => now < t,
            None => false,
        }
    }

    /// Count a failed open or write at `now` (ms). Returns whether "entering
    /// backoff" must be reported: on entering a backoff, once until the next
    /// successful write.
    pub fn record_failure(&mut self, now: u64) -> (report_backoff: bool)
        requires
            failure_enters_backoff(old(self)@) ==> now <= u64::MAX - FAILURE_BACKOFF_MS,
        ensures
            final(self)@ == after_failure(old(self)@, now),
            report_backoff == reports_backoff(old(self)@),
    {
        self.consecutive_failures = self.consecutive_failures.saturating_add(1);
        let mut report_backoff = false;
        if self.consecutive_failures >= MAX_CONSECUTIVE_FAILURES {
            if !self.backoff_logged {
                report_backoff = true;
                self.backoff_logged = true;
            }
            self.backoff_until = Some(now + FAILURE_BACKOFF_MS);
            self.consecutive_failures = 0;
        }
        report_backoff
    }

    /// Record a successful write. Returns whether "resumed from backoff" must
    /// be reported: when a backoff was reported before.
    pub fn record_success(&mut self) -> (report_resumed: bool)
        ensures
            final(self)@ == after_success(old(self)@),
            report_resumed == old(self)@.backoff_logged,
    {
        let report_resumed = self.backoff_logged;
        self.backoff_logged = false;
        self.consecutive_failures = 0;
        self.backoff_until = None;
        report_resumed
    }

    /// The device was found. Returns whether "acquired" must be reported: on
    /// the lost-to-acquired edge only.
    pub fn note_device_acquired(&mut self) -> (report_acquired: bool)
        ensures
            final(self)@ == after_acquired(old(self)@),
            report_acquired == reports_acquired(old(self)@),
    {
        let report_acquired = !self.had_device;
        self.had_device = true;
        report_acquired
    }

    /// No matching device was found. Returns whether "lost" must be reported:
    /// on the acquired-to-lost edge only, silent during long disconnects.
    pub fn note_device_lost(&mut self) -> (report_lost: bool)
        ensures
            final(self)@ == after_lost(old(self)@),
            report_lost == reports_lost(old(self)@),
    {
        let report_lost = self.had_device;
        self.had_device = false;
        report_lost
    }
}

/// The link state after the device was found.
pub open spec fn after_acquired(v: LinkView) -> LinkView {
    LinkView { had_device: true, ..v }
}

/// The link state after no device was found.
pub open spec fn after_lost(v: LinkView) -> LinkView {
    LinkView { had_device: false, ..v }
}

/// [`MAX_CONSECUTIVE_FAILURES`] failures in a row, from a clean count, start a
/// backoff at the last of them; the ones before it do not.
pub proof fn lemma_backoff_after_max_failures(
    v: LinkView,
    t1: u64,
    t2: u64,
    t3: u64,
    t4: u64,
    t5: u64,
    now: u64,
)
    requires
        v.consecutive_failures == 0,
        t5 <= u64::MAX - FAILURE_BACKOFF_MS,
        t5 <= now < t5 + FAILURE_BACKOFF_MS,
    ensures
        ({
            let w1 = after_failure(v, t1);
            let w2 = after_failure(w1, t2);
            let w3 = after_failure(w2, t3);
            let w4 = after_failure(w3, t4);
            let w5 = after_failure(w4, t5);
            &&& !failure_enters_backoff(v) && !failure_enters_backoff(w1)
            &&& !failure_enters_backoff(w2) && !failure_enters_backoff(w3)
            &&& failure_enters_backoff(w4)
            &&& w4.consecutive_failures == 4
            &&& backoff_at(w5, now)
            &&& w5.consecutive_failures == 0
        }),
{
}

/// "Entering backoff" is reported once: after a failure has reported it, no
/// further failure reports it before a successful write.
pub proof fn lemma_backoff_reported_once(v: LinkView, now: u64)
    ensures
        failure_enters_backoff(v) ==> after_failure(v, now).backoff_logged,
        v.backoff_logged ==> !reports_backoff(v) && after_failure(v, now).backoff_logged,
{
}

/// A successful write ends any backoff and restarts the failure count, so that
/// the next backoff is reported again.
pub proof fn lemma_success_clears_backoff(v: LinkView, now: u64)
    ensures
        !backoff_at(after_success(v), now),
        after_success(v).consecutive_failures == 0,
        !after_success(v).backoff_logged,
{
}

/// Device lifecycle changes are reported on their edges only: finding the
/// device again, or missing it again, reports nothing; each change of
/// presence reports once.
pub proof fn lemma_lifecycle_edges(v: LinkView)
    ensures
        !reports_acquired(after_acquired(v)),
        !reports_lost(after_lost(v)),
        reports_lost(after_acquired(v)),
        reports_acquired(after_lost(v)),
{
}

/// Failure accounting: a failure that brings the count to
/// [`MAX_CONSECUTIVE_FAILURES`] restarts the count and starts a backoff of
/// [`FAILURE_BACKOFF_MS`] from `now`, reported only when not reported since
/// the last success; any other failure adds one to the count and leaves the
/// backoff as it was.
pub proof fn lemma_failure_accounting(v: LinkView, now: u64)
    requires
        failure_enters_backoff(v) ==> now <= u64::MAX - FAILURE_BACKOFF_MS,
    ensures
        failure_enters_backoff(v) <==> v.consecutive_failures + 1 >= MAX_CONSECUTIVE_FAILURES,
        failure_enters_backoff(v) ==> {
            &&& after_failure(v, now).consecutive_failures == 0
            &&& after_failure(v, now).backoff_until == Some((now + FAILURE_BACKOFF_MS) as u64)
            &&& after_failure(v, now).backoff_logged
            &&& reports_backoff(v) == !v.backoff_logged
        },
        !failure_enters_backoff(v) ==> {
            &&& after_failure(v, now).consecutive_failures == v.consecutive_failures + 1
            &&& after_failure(v, now).backoff_until == v.backoff_until
            &&& after_failure(v, now).backoff_logged == v.backoff_logged
            &&& !reports_backoff(v)
        },
        after_failure(v, now).had_device == v.had_device,
{
}

} // verus!
