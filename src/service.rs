use vstd::prelude::*;

use crate::event::{BluetoothEvent, Received};
use crate::timeout::{Countdown, TimeoutTask};

verus! {

/// The activity state of the adapter.
#[derive(Debug, Clone, Copy, PartialEq, Eq, Structural)]
pub enum BluetoothServiceState {
    /// The adapter is powered off.
    Off,
    /// The adapter is on and no device is connected.
    Idle,
    /// The adapter is on and at least one device is connected.
    Running,
}

/// The controller's handle on a countdown that it started.
#[derive(Debug, Clone, Copy, PartialEq, Eq, Structural)]
pub struct TimerHandle {
    /// The id that the countdown was started with.
    pub id: u64,
    /// Whether the countdown reported that it ran to its end.
    pub expired: bool,
}

/// What the controller asks of whoever runs its countdowns.
#[derive(Debug, Clone, Copy, PartialEq, Eq, Structural)]
pub enum TimerCommand {
    /// Nothing to do.
    Keep,
    /// Start a countdown under this id.
    Spawn(u64),
    /// Cancel the countdown with this id.
    Cancel(u64),
}

/// Errors that end the controller.
#[derive(Debug, Clone, Copy, PartialEq, Eq, Structural)]
pub enum ServiceError {
    /// At start the adapter was reported off while devices were reported connected.
    StateInconsistent,
    /// The event channel closed for good.
    ChannelClosed,
}

/// The state that a fresh device count resolves to while the adapter is on.
pub open spec fn resolved(count: nat) -> BluetoothServiceState {
    if count > 0 {
        BluetoothServiceState::Running
    } else {
        BluetoothServiceState::Idle
    }
}

/// The state at start for what the queries reported, or none where they disagree.
pub open spec fn initial_state(powered: bool, count: nat) -> Option<BluetoothServiceState> {
    if !powered && count > 0 {
        None
    } else if !powered {
        Some(BluetoothServiceState::Off)
    } else {
        Some(resolved(count))
    }
}

/// Whether the input is a hint to recount the devices (a lag counts as one).
pub open spec fn is_hint(r: Received) -> bool {
    r == Received::Event(BluetoothEvent::InterfaceAdded) || r == Received::Event(
        BluetoothEvent::InterfaceRemoved,
    ) || r is Lagged
}

/// Whether handling `r` in state `s` takes a fresh device count.
pub open spec fn needs_count(s: BluetoothServiceState, r: Received) -> bool {
    (r == Received::Event(BluetoothEvent::AdapterOn) && s == BluetoothServiceState::Off) || (
    is_hint(r) && s != BluetoothServiceState::Off)
}

/// The state after handling `r` in state `s`, where `count` is the device count.
pub open spec fn next_state(s: BluetoothServiceState, r: Received, count: nat) -> BluetoothServiceState {
    if r == Received::Event(BluetoothEvent::AdapterOff) {
        BluetoothServiceState::Off
    } else if needs_count(s, r) {
        resolved(count)
    } else {
        s
    }
}

/// The id that follows `id`.
pub open spec fn next_id(id: u64) -> u64 {
    if id == u64::MAX {
        0
    } else {
        (id + 1) as u64
    }
}

/// The controller: the sole owner of the adapter's state and of the one countdown
/// that runs while the adapter is idle.
pub struct BluetoothService {
    /// The adapter's object path.
    pub iface: String,
    pub state: BluetoothServiceState,
    /// The countdown of the current idle period.
    pub active_timer: Option<TimerHandle>,
    /// What each countdown does.
    pub timeout: TimeoutTask,
    /// The id for the next countdown.
    pub next_timer_id: u64,
    /// The last device count obtained, used where a recount fails.
    pub last_count: usize,
}

impl BluetoothService {
    /// A countdown is held exactly while the adapter is idle.
    pub open spec fn wf(&self) -> bool {
        &&& (self.active_timer is Some <==> self.state == BluetoothServiceState::Idle)
        &&& self.timeout.wf()
    }

    /// The count used for an input: the fresh one, or the last one where the query failed.
    pub open spec fn count_of(&self, count: Option<usize>) -> nat {
        match count {
            Some(n) => n as nat,
            None => self.last_count as nat,
        }
    }

    /// `next` and `cmd` are what handling `r` with the device count `count` makes of
    /// this controller. The countdown is cancelled when the adapter leaves the idle
    /// state, and started when it enters it, or when a recount finds it still idle
    /// after its countdown ran out; otherwise the countdown is left as it is.
    pub open spec fn stepped(self, next: Self, r: Received, count: Option<usize>, cmd: TimerCommand)
        -> bool {
        let s2 = next_state(self.state, r, self.count_of(count));
        &&& next.wf()
        &&& next.state == s2
        &&& next.iface == self.iface
        &&& next.timeout == self.timeout
        &&& next.last_count as nat == (if needs_count(self.state, r) {
            self.count_of(count)
        } else {
            self.last_count as nat
        })
        &&& if self.state == BluetoothServiceState::Idle && s2 != BluetoothServiceState::Idle {
            &&& cmd == TimerCommand::Cancel(self.active_timer->0.id)
            &&& next.active_timer is None
            &&& next.next_timer_id == self.next_timer_id
        } else if s2 == BluetoothServiceState::Idle && (self.state != BluetoothServiceState::Idle || (
        is_hint(r) && self.active_timer->0.expired)) {
            &&& cmd == TimerCommand::Spawn(self.next_timer_id)
            &&& next.active_timer == Some(TimerHandle { id: self.next_timer_id, expired: false })
            &&& next.next_timer_id == next_id(self.next_timer_id)
        } else {
            &&& cmd == TimerCommand::Keep
            &&& next.active_timer == self.active_timer
            &&& next.next_timer_id == self.next_timer_id
        }
    }

    /// `next` is this controller after the countdown `id` reported that it ran to its end.
    pub open spec fn expired_into(self, next: Self, id: u64) -> bool {
        &&& next.wf()
        &&& next.state == self.state
        &&& next.iface == self.iface
        &&& next.timeout == self.timeout
        &&& next.last_count == self.last_count
        &&& next.next_timer_id == self.next_timer_id
        &&& next.active_timer == (if self.active_timer is Some && self.active_timer->0.id == id {
            Some(TimerHandle { id, expired: true })
        } else {
            self.active_timer
        })
    }

    /// Sets up the controller from the queries made at start; a failed query counts
    /// as powered off, or as no device connected. Where the adapter is idle, the
    /// countdown with id 0 is to be started.
    pub fn new(iface: String, timeout: TimeoutTask, powered: Option<bool>, connected: Option<usize>)
        -> (r: Result<Self, ServiceError>)
        requires
            timeout.wf(),
        ensures
            ({
                let p = match powered { Some(b) => b, None => false };
                let n: nat = match connected { Some(c) => c as nat, None => 0 };
                match initial_state(p, n) {
                    Some(s) => r is Ok && r->Ok_0.state == s && r->Ok_0.wf() && r->Ok_0.iface == iface
                        && r->Ok_0.timeout == timeout && r->Ok_0.last_count == n
                        && (s == BluetoothServiceState::Idle ==> r->Ok_0.active_timer == Some(
                        TimerHandle { id: 0, expired: false })) && r->Ok_0.next_timer_id == (if s
                        == BluetoothServiceState::Idle { 1u64 } else { 0u64 }),
                    None => r == Err::<Self, ServiceError>(ServiceError::StateInconsistent),
                }
            }),
    {
        let p = match powered {
            Some(b) => b,
            None => false,
        };
        let n = match connected {
            Some(c) => c,
            None => 0,
        };
        if !p && n > 0 {
            return Err(ServiceError::StateInconsistent);
        }
        let state = if !p {
            BluetoothServiceState::Off
        } else if n > 0 {
            BluetoothServiceState::Running
        } else {
            BluetoothServiceState::Idle
        };
        let (active_timer, next_timer_id) = if state == BluetoothServiceState::Idle {
            (Some(TimerHandle { id: 0, expired: false }), 1u64)
        } else {
            (None, 0u64)
        };
        Ok(BluetoothService { iface, state, active_timer, timeout, next_timer_id, last_count: n })
    }

    /// The current state.
    pub fn current_state(&self) -> (r: BluetoothServiceState)
        ensures
            r == self.state,
    {
        self.state
    }

    /// Whether handling `r` now takes a fresh device count.
    pub fn needs_count(&self, r: &Received) -> (b: bool)
        ensures
            b == needs_count(self.state, *r),
    {
        match r {
            Received::Event(BluetoothEvent::AdapterOn) => self.state == BluetoothServiceState::Off,
            Received::Event(BluetoothEvent::AdapterOff) | Received::Closed => false,
            _ => self.state != BluetoothServiceState::Off,
        }
    }

    /// A fresh countdown of this controller's settings under `id`.
    pub fn countdown(&self, id: u64) -> (r: Countdown)
        requires
            self.wf(),
        ensures
            r.id == id,
            r.steps@ == self.timeout.spec_steps(),
            r.pos == 0,
            !r.cancelled,
            r.wf(),
    {
        self.timeout.countdown(id)
    }

    /// Handles one input of the event channel, with the device count taken for it:
    /// `None` where the query failed (the last count stands in), or where none was
    /// taken. A closed channel ends the controller.
    pub fn handle(&mut self, r: Received, count: Option<usize>) -> (res: Result<
        TimerCommand,
        ServiceError,
    >)
        requires
            old(self).wf(),
        ensures
            r == Received::Closed ==> res == Err::<TimerCommand, ServiceError>(
                ServiceError::ChannelClosed,
            ) && *final(self) == *old(self),
            r != Received::Closed ==> res is Ok && old(self).stepped(
                *final(self),
                r,
                count,
                res->Ok_0,
            ),
            (old(self).state == BluetoothServiceState::Running && r == Received::Event(
                BluetoothEvent::AdapterOn,
            )) || (old(self).state == BluetoothServiceState::Off && r == Received::Event(
                BluetoothEvent::AdapterOff,
            )) ==> res == Ok::<TimerCommand, ServiceError>(TimerCommand::Keep) && *final(self)
                == *old(self),
    {
        if matches!(r, Received::Closed) {
            return Err(ServiceError::ChannelClosed);
        }
        let cmd = self.step(r, count);
        Ok(cmd)
    }

    /// Handles the adapter being powered on.
    pub fn on_adapter_on(&mut self, count: Option<usize>) -> (cmd: TimerCommand)
        requires
            old(self).wf(),
        ensures
            old(self).stepped(*final(self), Received::Event(BluetoothEvent::AdapterOn), count, cmd),
            old(self).state == BluetoothServiceState::Running ==> cmd == TimerCommand::Keep
                && *final(self) == *old(self),
    {
        self.step(Received::Event(BluetoothEvent::AdapterOn), count)
    }

    /// Handles the adapter being powered off.
    pub fn on_adapter_off(&mut self) -> (cmd: TimerCommand)
        requires
            old(self).wf(),
        ensures
            old(self).stepped(*final(self), Received::Event(BluetoothEvent::AdapterOff), None, cmd),
            old(self).state == BluetoothServiceState::Off ==> cmd == TimerCommand::Keep
                && *final(self) == *old(self),
    {
        self.step(Received::Event(BluetoothEvent::AdapterOff), None)
    }

    /// Handles an interface that appeared, typically a device that connected.
    pub fn on_interface_added(&mut self, count: Option<usize>) -> (cmd: TimerCommand)
        requires
            old(self).wf(),
        ensures
            old(self).stepped(
                *final(self),
                Received::Event(BluetoothEvent::InterfaceAdded),
                count,
                cmd,
            ),
    {
        self.step(Received::Event(BluetoothEvent::InterfaceAdded), count)
    }

    /// Handles an interface that went away, typically a device that disconnected.
    pub fn on_interface_removed(&mut self, count: Option<usize>) -> (cmd: TimerCommand)
        requires
            old(self).wf(),
        ensures
            old(self).stepped(
                *final(self),
                Received::Event(BluetoothEvent::InterfaceRemoved),
                count,
                cmd,
            ),
    {
        self.step(Received::Event(BluetoothEvent::InterfaceRemoved), count)
    }

    /// Records that the countdown `id` ran to its end.
    pub fn on_timer_finished(&mut self, id: u64)
        requires
            old(self).wf(),
        ensures
            old(self).expired_into(*final(self), id),
    {
        match self.active_timer {
            Some(h) => {
                if h.id == id {
                    self.active_timer = Some(TimerHandle { id, expired: true });
                }
            },
            None => {},
        }
    }

    fn step(&mut self, r: Received, count: Option<usize>) -> (cmd: TimerCommand)
        requires
            old(self).wf(),
            r != Received::Closed,
        ensures
            old(self).stepped(*final(self), r, count, cmd),
            (old(self).state == BluetoothServiceState::Running && r == Received::Event(
                BluetoothEvent::AdapterOn,
            )) || (old(self).state == BluetoothServiceState::Off && r == Received::Event(
                BluetoothEvent::AdapterOff,
            )) ==> cmd == TimerCommand::Keep && *final(self) == *old(self),
    {
        let needs = self.needs_count(&r);
        let n = match count {
            Some(c) => c,
            None => self.last_count,
        };
        let target = if matches!(r, Received::Event(BluetoothEvent::AdapterOff)) {
            BluetoothServiceState::Off
        } else if needs {
            if n > 0 {
                BluetoothServiceState::Running
            } else {
                BluetoothServiceState::Idle
            }
        } else {
            self.state
        };
        let hint = match r {
            Received::Event(BluetoothEvent::InterfaceAdded) | Received::Event(
                BluetoothEvent::InterfaceRemoved,
            ) | Received::Lagged(_) => true,
            _ => false,
        };
        let expired = match self.active_timer {
            Some(h) => h.expired,
            None => true,
        };
        if needs {
            self.last_count = n;
        }
        let idle = self.state == BluetoothServiceState::Idle;
        let cmd = if idle && target != BluetoothServiceState::Idle {
            let id = match self.active_timer {
                Some(h) => h.id,
                None => 0,
            };
            self.active_timer = None;
            TimerCommand::Cancel(id)
        } else if target == BluetoothServiceState::Idle && (!idle || (hint && expired)) {
            let id = self.take_next_id();
            self.active_timer = Some(TimerHandle { id, expired: false });
            TimerCommand::Spawn(id)
        } else {
            TimerCommand::Keep
        };
        self.state = target;
        cmd
    }

    fn take_next_id(&mut self) -> (id: u64)
        ensures
            id == old(self).next_timer_id,
            final(self).next_timer_id == next_id(old(self).next_timer_id),
            final(self).iface == old(self).iface,
            final(self).state == old(self).state,
            final(self).active_timer == old(self).active_timer,
            final(self).timeout == old(self).timeout,
            final(self).last_count == old(self).last_count,
    {
        let id = self.next_timer_id;
        self.next_timer_id = if id == u64::MAX {
            0
        } else {
            id + 1
        };
        id
    }
}

/// `next` follows from `s` by handling an input or by a countdown running out.
pub open spec fn moves_to(s: BluetoothService, next: BluetoothService) -> bool {
    (exists|r: Received, count: Option<usize>, cmd: TimerCommand| s.stepped(next, r, count, cmd))
        || (exists|id: u64| s.expired_into(next, id))
}

/// In every state reachable from a well-formed start, a countdown is held exactly
/// while the adapter is idle.
pub proof fn lemma_timer_held_iff_idle(trace: Seq<BluetoothService>)
    requires
        trace.len() > 0,
        trace[0].wf(),
        forall|i: int| 0 <= i < trace.len() - 1 ==> #[trigger] moves_to(trace[i], trace[i + 1]),
    ensures
        forall|i: int|
            0 <= i < trace.len() ==> ((#[trigger] trace[i]).active_timer is Some <==> trace[i].state
                == BluetoothServiceState::Idle),
{
    assert forall|i: int| 0 <= i < trace.len() implies (#[trigger] trace[i]).wf() by {
        if i > 0 {
            assert(moves_to(trace[i - 1], trace[i - 1 + 1]));
            if exists|r: Received, count: Option<usize>, cmd: TimerCommand|
                #[trigger] trace[i - 1].stepped(trace[i], r, count, cmd) {
                let (r, count, cmd) = choose|r: Received, count: Option<usize>, cmd: TimerCommand|
                    #[trigger] trace[i - 1].stepped(trace[i], r, count, cmd);
            } else {
                let id = choose|id: u64| #[trigger] trace[i - 1].expired_into(trace[i], id);
            }
        }
    }
}

/// Power-on while running, or power-off while off, changes nothing and asks
/// nothing of the countdowns: repeating either is a no-op.
pub proof fn lemma_repeated_power_event_is_noop(
    a: BluetoothService,
    b: BluetoothService,
    r: Received,
    count: Option<usize>,
    cmd: TimerCommand,
)
    requires
        a.wf(),
        a.stepped(b, r, count, cmd),
        (a.state == BluetoothServiceState::Running && r == Received::Event(
            BluetoothEvent::AdapterOn,
        )) || (a.state == BluetoothServiceState::Off && r == Received::Event(
            BluetoothEvent::AdapterOff,
        )),
    ensures
        b == a,
        cmd == TimerCommand::Keep,
{
}

/// After a lag, an adapter that was on resolves to the state that the fresh device
/// count alone gives, whatever (possibly stale) state it was in before.
pub proof fn lemma_lag_resolves_by_count(
    a: BluetoothService,
    b: BluetoothService,
    dropped: u64,
    n: usize,
    cmd: TimerCommand,
)
    requires
        a.wf(),
        a.state != BluetoothServiceState::Off,
        a.stepped(b, Received::Lagged(dropped), Some(n), cmd),
    ensures
        b.state == resolved(n as nat),
        b.last_count == n,
        b.wf(),
{
}

/// Power-off while idle asks for the cancellation of exactly the countdown of the
/// idle period, and leaves no countdown held.
pub proof fn lemma_adapter_off_cancels_countdown(
    a: BluetoothService,
    b: BluetoothService,
    count: Option<usize>,
    cmd: TimerCommand,
)
    requires
        a.wf(),
        a.state == BluetoothServiceState::Idle,
        a.stepped(b, Received::Event(BluetoothEvent::AdapterOff), count, cmd),
    ensures
        a.active_timer is Some,
        cmd == TimerCommand::Cancel(a.active_timer->0.id),
        b.active_timer is None,
        b.state == BluetoothServiceState::Off,
{
}

} // verus!
