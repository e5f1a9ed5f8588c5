//! The change-rate gate: a minute-resolution throttle that decides whether a
//! new wallpaper may be applied, remembering the minute of the last accepted
//! change.

use vstd::prelude::*;

verus! {

/// Linearizes the hour wraparound: when the recorded minute lies after the
/// current one, the hour boundary was crossed, and the recorded minute is
/// pulled back by 59. This is a deliberate minute-of-hour approximation, only
/// meaningful when at most one hour boundary was crossed since the last change.
pub open spec fn effective_last(last: u32, now: u32) -> int {
    if last > now {
        last - 59
    } else {
        last as int
    }
}

/// The throttle's decision rule: an interval of zero always allows; otherwise a
/// change is accepted once at least `interval` minutes have passed since the
/// last accepted change, under the wraparound approximation above.
pub open spec fn gate_allows(last: u32, now: u32, interval: u32) -> bool {
    interval == 0 || effective_last(last, now) + interval <= now
}

/// The stateful throttle: remembers the minute of the hour at which the last
/// change was accepted. The state starts at 0 ("never changed") and is updated
/// only when a change is accepted with a non-zero interval.
pub struct ChangeGate {
    last_changed_minute: u32,
}

impl ChangeGate {
    /// The recorded minute of the last accepted change.
    pub closed spec fn last_minute(&self) -> u32 {
        self.last_changed_minute
    }

    /// Well-formedness: the recorded minute is a minute of the hour.
    pub open spec fn wf(&self) -> bool {
        self.last_minute() < 60
    }

    pub fn new() -> (r: ChangeGate)
        ensures
            r.wf(),
            r.last_minute() == 0,
    {
        ChangeGate { last_changed_minute: 0 }
    }

    pub fn get_minute_last_changed(&self) -> (r: u32)
        ensures
            r == self.last_minute(),
    {
        self.last_changed_minute
    }

    pub fn set_minute_last_changed(&mut self, min: u32)
        requires
            min < 60,
        ensures
            final(self).last_minute() == min,
            final(self).wf(),
    {
        self.last_changed_minute = min;
    }

    /// Decides whether a change at minute `now_minute` is accepted under the
    /// requested interval. An interval of zero is a stateless pass-through:
    /// it allows and leaves the recorded minute untouched. Otherwise the throttle
    /// allows exactly when `gate_allows` holds, and records `now_minute` on
    /// acceptance.
    pub fn permit(&mut self, now_minute: u32, interval_minutes: u32) -> (r: bool)
        requires
            old(self).wf(),
            now_minute < 60,
        ensures
            final(self).wf(),
            r == gate_allows(old(self).last_minute(), now_minute, interval_minutes),
            interval_minutes == 0 ==> r && *final(self) == *old(self),
            !r ==> *final(self) == *old(self),
            r && interval_minutes != 0 ==> final(self).last_minute() == now_minute,
    {
        if interval_minutes == 0 {
            return true;
        }
        let eff: i64 = if self.last_changed_minute > now_minute {
            self.last_changed_minute as i64 - 59
        } else {
            self.last_changed_minute as i64
        };
        if eff + interval_minutes as i64 > now_minute as i64 {
            false
        } else {
            self.last_changed_minute = now_minute;
            true
        }
    }
}

/// Relies on chrono's `Utc::now` and `Timelike::minute`: the minute of the
/// current hour, documented to lie between 0 and 59.
#[verifier::external_body]
pub(crate) fn current_minute() -> (r: u32)
    ensures
        r < 60,
{
    chrono::Timelike::minute(&chrono::Utc::now())
}

/// Reads the current minute of the hour from the system clock and asks the
/// throttle for a decision. Whatever minute the clock reports, the result and
/// the state change follow the throttle's decision rule for that minute.
pub fn enough_time_between_changes(gate: &mut ChangeGate, minutes_between_changes: u32) -> (r: bool)
    requires
        old(gate).wf(),
    ensures
        final(gate).wf(),
        exists|now: u32|
            now < 60 && r == gate_allows(old(gate).last_minute(), now, minutes_between_changes)
                && (r && minutes_between_changes != 0 ==> final(gate).last_minute() == now),
        !r || minutes_between_changes == 0 ==> *final(gate) == *old(gate),
        minutes_between_changes == 0 ==> r,
{
    let now: u32 = current_minute();
    let r = gate.permit(now, minutes_between_changes);
    proof {
        assert(now < 60 && r == gate_allows(old(gate).last_minute(), now, minutes_between_changes)
            && (r && minutes_between_changes != 0 ==> final(gate).last_minute() == now));
    }
    r
}

/// Law: once a change was accepted at minute `m` with a non-zero interval `k`,
/// a later call within the interval — at minute `(m + d) % 60` for any offset
/// `1 <= d < k` that stays within one hour — is denied.
pub proof fn lemma_gate_denies_within_interval(m: u32, d: u32, k: u32)
    requires
        m < 60,
        1 <= d < k,
        d < 60,
    ensures
        !gate_allows(m, ((m + d) % 60) as u32, k),
{
}

/// Law: once a change was accepted at minute `m` with a non-zero interval `k`,
/// a call exactly `k` minutes later is accepted, provided the hour boundary is
/// not crossed in between (the wraparound approximation costs one extra minute
/// across the boundary).
pub proof fn lemma_gate_allows_after_interval(m: u32, k: u32)
    requires
        m < 60,
        0 < k,
        m + k < 60,
    ensures
        gate_allows(m, (m + k) as u32, k),
{
}

/// Law: when the interval ends past the hour boundary, the wraparound
/// approximation costs exactly one extra minute — the call `k` minutes after
/// the accepted change at minute `m` is still denied, and the call one minute
/// later is accepted.
pub proof fn lemma_gate_wraparound_costs_one_minute(m: u32, k: u32)
    requires
        m < 60,
        0 < k < 59,
        60 <= m + k,
    ensures
        !gate_allows(m, (m + k - 60) as u32, k),
        gate_allows(m, (m + k - 59) as u32, k),
{
}

} // verus!
