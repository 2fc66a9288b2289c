use vstd::prelude::*;

use crate::notification::Notification;

verus! {

/// One step of a countdown toward powering the adapter off.
#[derive(Debug, Clone, Copy, PartialEq, Eq, Structural)]
pub enum TimerStep {
    /// Suspend for this many milliseconds.
    Sleep(u64),
    /// Warn that the adapter goes off in this many milliseconds.
    Warn(u64),
    /// Power the adapter off.
    PowerOff,
    /// Tell the user that the adapter was powered off.
    NotifyOff,
}

/// Each element is greater than every later one.
pub open spec fn strictly_decreasing(s: Seq<u64>) -> bool {
    forall|i: int, j: int| 0 <= i < j < s.len() ==> s[i] > s[j]
}

/// Every element lies below `bound`.
pub open spec fn all_below(s: Seq<u64>, bound: u64) -> bool {
    forall|i: int| 0 <= i < s.len() ==> s[i] < bound
}

/// Time to sleep before the `i`-th warning: from the start, or from the warning before it.
pub open spec fn gap(timeout: u64, cps: Seq<u64>, i: int) -> int {
    (if i == 0 { timeout as int } else { cps[i - 1] as int }) - cps[i] as int
}

/// Time left after the last warning (the whole timeout where there is none).
pub open spec fn final_wait(timeout: u64, cps: Seq<u64>) -> u64 {
    if cps.len() == 0 { timeout } else { cps[cps.len() - 1] }
}

/// The `k`-th step of a countdown that warns at the checkpoints `cps`:
/// a sleep and a warning per checkpoint, then the last sleep, the power-off and
/// the final notification.
pub open spec fn warned_step(timeout: u64, cps: Seq<u64>, k: int) -> TimerStep {
    let n = cps.len() as int;
    if k < 2 * n {
        if k % 2 == 0 {
            TimerStep::Sleep(gap(timeout, cps, k / 2) as u64)
        } else {
            TimerStep::Warn(cps[k / 2])
        }
    } else if k == 2 * n {
        TimerStep::Sleep(final_wait(timeout, cps))
    } else if k == 2 * n + 1 {
        TimerStep::PowerOff
    } else {
        TimerStep::NotifyOff
    }
}

/// The steps of a countdown of `timeout` milliseconds with the checkpoints `cps`
/// (strictly decreasing, each below `timeout`).
pub open spec fn plan(timeout: u64, cps: Seq<u64>, notify: bool) -> Seq<TimerStep> {
    if notify {
        Seq::new((2 * cps.len() + 3) as nat, |k: int| warned_step(timeout, cps, k))
    } else {
        seq![TimerStep::Sleep(timeout), TimerStep::PowerOff]
    }
}

/// The index of the power-off step in `plan(timeout, cps, notify)`.
pub open spec fn power_off_index(cps: Seq<u64>, notify: bool) -> int {
    if notify { (2 * cps.len() + 1) as int } else { 1 }
}

/// The checkpoints of `at` that lie below `timeout`, each once, in decreasing order.
fn normalize_checkpoints(timeout: u64, at: &Vec<u64>) -> (r: Vec<u64>)
    ensures
        strictly_decreasing(r@),
        all_below(r@, timeout),
        forall|t: u64| r@.contains(t) <==> (at@.contains(t) && t < timeout),
{
    let mut r: Vec<u64> = Vec::new();
    let mut i: usize = 0;
    while i < at.len()
        invariant
            i <= at.len(),
            strictly_decreasing(r@),
            all_below(r@, timeout),
            forall|t: u64| r@.contains(t) <==> (at@.take(i as int).contains(t) && t < timeout),
        decreases at.len() - i,
    {
        let c = at[i];
        let ghost r0 = r@;
        if c < timeout {
            let mut j: usize = 0;
            while j < r.len() && r[j] > c
                invariant
                    j <= r.len(),
                    forall|k: int| 0 <= k < j ==> r@[k] > c,
                decreases r.len() - j,
            {
                j = j + 1;
            }
            if j == r.len() || r[j] != c {
                let ghost before = r@;
                r.insert(j, c);
                proof {
                    before.insert_ensures(j as int, c);
                    assert forall|a: int, b: int| 0 <= a < b < r@.len() implies r@[a] > r@[b] by {
                        if b < j {
                        } else if b == j {
                        } else if a < j {
                            assert(r@[b] == before[b - 1]);
                        } else if a == j {
                            assert(r@[b] == before[b - 1]);
                            assert(before[j as int] < c);
                        } else {
                            assert(r@[a] == before[a - 1]);
                            assert(r@[b] == before[b - 1]);
                        }
                    }
                    assert forall|t: u64| r@.contains(t) <==> (before.contains(t) || t == c) by {
                        if r@.contains(t) {
                            let k = choose|k: int| 0 <= k < r@.len() && r@[k] == t;
                            if k < j {
                                assert(before[k] == t);
                            } else if k > j {
                                assert(before[k - 1] == t);
                            }
                        }
                        if before.contains(t) {
                            let k = choose|k: int| 0 <= k < before.len() && before[k] == t;
                            if k < j {
                                assert(r@[k] == t);
                            } else {
                                assert(r@[k + 1] == t);
                            }
                        }
                        if t == c {
                            assert(r@[j as int] == c);
                        }
                    }
                }
            } else {
                assert(r@[j as int] == c);
            }
        }
        proof {
            let s = at@.take(i as int);
            assert(at@.take(i as int + 1) == s.push(c));
            assert forall|t: u64| r@.contains(t) <==> (s.push(c).contains(t) && t < timeout) by {
                assert(r@.contains(t) <==> (r0.contains(t) || (t == c && c < timeout)));
                if s.push(c).contains(t) {
                    let k = choose|k: int| 0 <= k < s.len() + 1 && s.push(c)[k] == t;
                    if k < s.len() {
                        assert(s[k] == t);
                    }
                }
                if s.contains(t) {
                    let k = choose|k: int| 0 <= k < s.len() && s[k] == t;
                    assert(s.push(c)[k] == t);
                }
                assert(s.push(c)[s.len() as int] == c);
            }
        }
        i = i + 1;
    }
    assert(at@.take(at.len() as int) == at@);
    r
}

/// The text that humantime gives for a duration of `ms` milliseconds.
pub uninterp spec fn duration_text(ms: nat) -> Seq<char>;

/// Relies on humantime::format_duration: its text depends on the duration alone.
#[verifier::external_body]
fn format_duration_ms(ms: u64) -> (r: String)
    ensures
        r@ == duration_text(ms as nat),
{
    humantime::format_duration(std::time::Duration::from_millis(ms)).to_string()
}

/// What a countdown does: how long it runs, whether it notifies, and at which
/// remaining times it warns.
#[derive(Debug, Clone)]
pub struct TimeoutTask {
    /// Milliseconds of inactivity before the adapter is powered off.
    pub timeout: u64,
    /// Whether warnings and the final notification are sent.
    pub notifications_enabled: bool,
    /// Remaining times (milliseconds) at which to warn, strictly decreasing and
    /// each below `timeout`.
    pub checkpoints: Vec<u64>,
}

impl TimeoutTask {
    pub open spec fn wf(&self) -> bool {
        strictly_decreasing(self.checkpoints@) && all_below(self.checkpoints@, self.timeout)
    }

    /// The steps that a countdown with these settings goes through.
    pub open spec fn spec_steps(&self) -> Seq<TimerStep> {
        plan(self.timeout, self.checkpoints@, self.notifications_enabled)
    }

    /// A task of `timeout` milliseconds that warns at the remaining times
    /// `notifications_at`; those at or above the timeout are skipped, repeats are
    /// dropped, and the rest are taken in decreasing order.
    pub fn new(timeout: u64, notifications_enabled: bool, notifications_at: &Vec<u64>) -> (r: Self)
        ensures
            r.wf(),
            r.timeout == timeout,
            r.notifications_enabled == notifications_enabled,
            forall|t: u64|
                r.checkpoints@.contains(t) <==> (notifications_at@.contains(t) && t < timeout),
    {
        TimeoutTask {
            timeout,
            notifications_enabled,
            checkpoints: normalize_checkpoints(timeout, notifications_at),
        }
    }

    /// The steps that a countdown with these settings goes through, in order.
    pub fn steps(&self) -> (r: Vec<TimerStep>)
        requires
            self.wf(),
        ensures
            r@ == self.spec_steps(),
    {
        let mut r: Vec<TimerStep> = Vec::new();
        if !self.notifications_enabled {
            r.push(TimerStep::Sleep(self.timeout));
            r.push(TimerStep::PowerOff);
            assert(r@ =~= self.spec_steps());
            return r;
        }
        let cps = &self.checkpoints;
        let ghost n = cps@.len() as int;
        let mut prev: u64 = self.timeout;
        let mut i: usize = 0;
        while i < cps.len()
            invariant
                self.wf(),
                self.notifications_enabled,
                cps == &self.checkpoints,
                i <= cps.len(),
                n == cps@.len(),
                r@.len() == 2 * i,
                prev == (if i == 0 { self.timeout } else { cps@[i - 1] }),
                forall|k: int| 0 <= k < 2 * i ==> r@[k] == warned_step(self.timeout, cps@, k),
            decreases cps.len() - i,
        {
            let t = cps[i];
            assert(t < prev) by {
                if i > 0 {
                    assert(cps@[i - 1] > cps@[i as int]);
                }
            }
            r.push(TimerStep::Sleep(prev - t));
            r.push(TimerStep::Warn(t));
            assert(warned_step(self.timeout, cps@, 2 * i) == TimerStep::Sleep((prev - t) as u64));
            assert(warned_step(self.timeout, cps@, 2 * i + 1) == TimerStep::Warn(t));
            prev = t;
            i = i + 1;
        }
        r.push(TimerStep::Sleep(prev));
        r.push(TimerStep::PowerOff);
        r.push(TimerStep::NotifyOff);
        assert(r@ =~= self.spec_steps());
        r
    }

    /// A fresh countdown with these settings, known to its owner as `id`.
    pub fn countdown(&self, id: u64) -> (r: Countdown)
        requires
            self.wf(),
        ensures
            r.id == id,
            r.steps@ == self.spec_steps(),
            r.pos == 0,
            !r.cancelled,
            r.wf(),
    {
        Countdown { id, steps: self.steps(), pos: 0, cancelled: false }
    }

    /// The warning for `text`, the written form of the remaining time.
    pub fn warning_notification_with(text: &str) -> (r: Notification)
        ensures
            r.app_name@ == crate::notification::NOTIFICATION_APP_NAME@,
            r.title@ == "Bluetooth Timeout Warning"@,
            r.body@ == "Bluetooth adapter will turn off in "@ + text@ + " due to inactivity."@,
            r.icon@ == "bluetooth-symbolic"@,
            r.replaces_id == 0,
            r.timeout == -1,
    {
        let mut body = String::from_str("Bluetooth adapter will turn off in ");
        body.append(text);
        body.append(" due to inactivity.");
        Notification::new().title("Bluetooth Timeout Warning").body(body.as_str()).icon(
            "bluetooth-symbolic",
        )
    }

    /// The warning that the adapter goes off in `remaining` milliseconds.
    pub fn warning_notification(remaining: u64) -> (r: Notification)
        ensures
            r.app_name@ == crate::notification::NOTIFICATION_APP_NAME@,
            r.title@ == "Bluetooth Timeout Warning"@,
            r.body@ == "Bluetooth adapter will turn off in "@ + duration_text(remaining as nat)
                + " due to inactivity."@,
            r.icon@ == "bluetooth-symbolic"@,
            r.replaces_id == 0,
            r.timeout == -1,
    {
        let text = format_duration_ms(remaining);
        Self::warning_notification_with(text.as_str())
    }

    /// The notification that the adapter was powered off.
    pub fn powered_off_notification() -> (r: Notification)
        ensures
            r.app_name@ == crate::notification::NOTIFICATION_APP_NAME@,
            r.title@ == "Bluetooth Adapter Turned Off"@,
            r.body@ == "Bluetooth adapter has been turned off due to inactivity."@,
            r.icon@ == "bluetooth-disabled-symbolic"@,
            r.replaces_id == 0,
            r.timeout == -1,
    {
        Notification::new().title("Bluetooth Adapter Turned Off").body(
            "Bluetooth adapter has been turned off due to inactivity.",
        ).icon("bluetooth-disabled-symbolic")
    }
}

/// A running countdown: hands out the steps of its task one at a time, and none
/// once cancelled.
#[derive(Debug, Clone)]
pub struct Countdown {
    /// The id under which the controller knows this countdown.
    pub id: u64,
    pub steps: Vec<TimerStep>,
    /// How many steps were handed out.
    pub pos: usize,
    pub cancelled: bool,
}


impl Countdown {
    pub open spec fn wf(&self) -> bool {
        self.pos <= self.steps@.len()
    }

    /// Whether a further call of `next_step` hands out a step.
    pub open spec fn has_next(&self) -> bool {
        !self.cancelled && self.pos < self.steps@.len()
    }

    /// Hands out the next step, or none once the countdown is cancelled or done.
    pub fn next_step(&mut self) -> (r: Option<TimerStep>)
        requires
            old(self).wf(),
        ensures
            final(self).wf(),
            final(self).id == old(self).id,
            final(self).steps@ == old(self).steps@,
            final(self).cancelled == old(self).cancelled,
            old(self).has_next() ==> r == Some(old(self).steps@[old(self).pos as int])
                && final(self).pos == old(self).pos + 1,
            !old(self).has_next() ==> r.is_none() && final(self).pos == old(self).pos,
    {
        if self.cancelled || self.pos >= self.steps.len() {
            None
        } else {
            let step = self.steps[self.pos];
            self.pos = self.pos + 1;
            Some(step)
        }
    }

    /// Requests cancellation: no step is handed out after this.
    pub fn cancel(&mut self)
        ensures
            final(self).cancelled,
            final(self).id == old(self).id,
            final(self).steps@ == old(self).steps@,
            final(self).pos == old(self).pos,
    {
        self.cancelled = true;
    }

    /// Whether cancellation was requested.
    pub fn is_cancelled(&self) -> (r: bool)
        ensures
            r == self.cancelled,
    {
        self.cancelled
    }
}

/// The steps that `k` further calls of `next_step` hand out, from `pos` on.
pub open spec fn handed_out(steps: Seq<TimerStep>, pos: int, cancelled: bool, k: nat) -> Seq<
    TimerStep,
> {
    if cancelled {
        Seq::empty()
    } else if pos + k <= steps.len() {
        steps.subrange(pos, pos + k)
    } else {
        steps.subrange(pos, steps.len() as int)
    }
}

/// Warnings come in strictly decreasing order of remaining time, each checkpoint
/// of the task is warned of, and no remaining time is warned of twice.
pub proof fn lemma_warnings_strictly_decrease(task: TimeoutTask)
    requires
        task.wf(),
    ensures
        forall|i: int, j: int|
            0 <= i < j < task.spec_steps().len() && (#[trigger] task.spec_steps()[i]) is Warn && (
            #[trigger] task.spec_steps()[j]) is Warn ==> task.spec_steps()[i]->Warn_0
                > task.spec_steps()[j]->Warn_0,
        forall|i: int, j: int|
            0 <= i < task.spec_steps().len() && 0 <= j < task.spec_steps().len() && (
            #[trigger] task.spec_steps()[i]) is Warn && task.spec_steps()[i] == (
            #[trigger] task.spec_steps()[j]) ==> i == j,
        task.notifications_enabled ==> forall|t: u64|
            #![trigger task.checkpoints@.contains(t)]
            task.checkpoints@.contains(t) ==> exists|i: int|
                0 <= i < task.spec_steps().len() && task.spec_steps()[i] == TimerStep::Warn(t),
{
    let p = task.spec_steps();
    let cps = task.checkpoints@;
    let n = cps.len() as int;
    assert forall|i: int, j: int| 0 <= i < j < p.len() && (#[trigger] p[i]) is Warn && (
    #[trigger] p[j]) is Warn implies p[i]->Warn_0 > p[j]->Warn_0 by {
        assert(task.notifications_enabled);
        assert(i < 2 * n && i % 2 == 1);
        assert(j < 2 * n && j % 2 == 1);
        assert(i / 2 < j / 2);
    }
    assert forall|i: int, j: int|
        0 <= i < p.len() && 0 <= j < p.len() && (#[trigger] p[i]) is Warn && p[i] == (
        #[trigger] p[j]) implies i == j by {
        if i < j {
            assert(p[i]->Warn_0 > p[j]->Warn_0);
        } else if j < i {
            assert(p[j]->Warn_0 > p[i]->Warn_0);
        }
    }
    if task.notifications_enabled {
        assert forall|t: u64| #[trigger] cps.contains(t) implies exists|i: int|
            0 <= i < p.len() && p[i] == TimerStep::Warn(t) by {
            let m = choose|m: int| 0 <= m < n && cps[m] == t;
            assert((2 * m + 1) / 2 == m);
            assert(p[2 * m + 1] == TimerStep::Warn(t));
        }
    }
}

/// A countdown whose cancellation is requested before its power-off step is handed
/// out (while it has at most begun its last sleep) never powers the adapter off:
/// neither among the steps handed out before nor among any handed out after.
/// The power-off step directly follows that last sleep.
pub proof fn lemma_cancel_before_last_sleep_resolves(task: TimeoutTask, pos: int, k: nat)
    requires
        task.wf(),
        0 <= pos <= power_off_index(task.checkpoints@, task.notifications_enabled),
    ensures
        task.spec_steps()[power_off_index(task.checkpoints@, task.notifications_enabled)]
            == TimerStep::PowerOff,
        task.spec_steps()[power_off_index(task.checkpoints@, task.notifications_enabled)
            - 1] is Sleep,
        !(task.spec_steps().take(pos) + handed_out(task.spec_steps(), pos, true, k)).contains(
            TimerStep::PowerOff,
        ),
{
    let p = task.spec_steps();
    let e = p.take(pos) + handed_out(p, pos, true, k);
    assert(e =~= p.take(pos));
    assert forall|i: int| 0 <= i < e.len() implies e[i] != TimerStep::PowerOff by {
        assert(e[i] == p[i]);
    }
}

/// Milliseconds slept in the first `k` steps.
pub open spec fn slept(steps: Seq<TimerStep>, k: int) -> int
    decreases k,
{
    if k <= 0 {
        0
    } else {
        slept(steps, k - 1) + match steps[k - 1] {
            TimerStep::Sleep(ms) => ms as int,
            _ => 0,
        }
    }
}

proof fn lemma_slept_before_warning(task: TimeoutTask, i: int)
    requires
        task.wf(),
        task.notifications_enabled,
        0 <= i <= task.checkpoints@.len(),
    ensures
        slept(task.spec_steps(), 2 * i) == task.timeout - (if i == 0 {
            task.timeout as int
        } else {
            task.checkpoints@[i - 1] as int
        }),
    decreases i,
{
    let p = task.spec_steps();
    let cps = task.checkpoints@;
    if i > 0 {
        lemma_slept_before_warning(task, i - 1);
        assert((2 * (i - 1)) / 2 == i - 1 && (2 * (i - 1)) % 2 == 0);
        assert((2 * i - 1) / 2 == i - 1 && (2 * i - 1) % 2 == 1);
        if i > 1 {
            assert(cps[i - 2] > cps[i - 1]);
        }
        assert(p[2 * (i - 1)] == TimerStep::Sleep(gap(task.timeout, cps, i - 1) as u64));
        assert(p[2 * i - 1] is Warn);
        assert(slept(p, 2 * i - 1) == slept(p, 2 * (i - 1)) + gap(task.timeout, cps, i - 1));
        assert(slept(p, 2 * i) == slept(p, 2 * i - 1));
    }
}

/// Each warning comes once the timeout less the time it announces has been slept,
/// and the power-off once the whole timeout has been slept.
pub proof fn lemma_warnings_on_time(task: TimeoutTask)
    requires
        task.wf(),
    ensures
        forall|k: int|
            0 <= k < task.spec_steps().len() && (#[trigger] task.spec_steps()[k]) is Warn
                ==> slept(task.spec_steps(), k) == task.timeout - task.spec_steps()[k]->Warn_0,
        slept(
            task.spec_steps(),
            power_off_index(task.checkpoints@, task.notifications_enabled),
        ) == task.timeout,
{
    let p = task.spec_steps();
    let cps = task.checkpoints@;
    let n = cps.len() as int;
    if task.notifications_enabled {
        assert forall|k: int| 0 <= k < p.len() && (#[trigger] p[k]) is Warn implies slept(p, k)
            == task.timeout - p[k]->Warn_0 by {
            let i = k / 2;
            assert(k == 2 * i + 1);
            lemma_slept_before_warning(task, i);
            assert((2 * i) / 2 == i && (2 * i) % 2 == 0);
            if i > 0 {
                assert(cps[i - 1] > cps[i]);
            }
        }
        lemma_slept_before_warning(task, n);
        assert(p[2 * n] == TimerStep::Sleep(final_wait(task.timeout, cps)));
    } else {
        assert(slept(p, 0) == 0);
    }
}

} // verus!
