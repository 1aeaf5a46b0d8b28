use vstd::prelude::*;

verus! {

/// Where the inactivity monitor stands.
#[derive(PartialEq, Eq, Structural, Clone, Copy, Debug)]
pub enum MonitorState {
    /// Polling the activity clock.
    Running,
    /// Idle for too long: the process is to end. Never left.
    ShuttingDown,
    /// Halted by an explicit stop signal, without ending the process.
    Stopped,
}

/// What the caller driving the monitor is to do after a poll.
#[derive(PartialEq, Eq, Structural, Clone, Copy, Debug)]
pub enum MonitorAction {
    /// Sleep for the given number of ticks, then poll again.
    Sleep(u64),
    /// Announce the idle shutdown and end the process with a success status.
    Shutdown,
    /// Stop polling and leave the process running.
    Halt,
}

/// Why a monitor configuration is refused.
#[derive(PartialEq, Eq, Structural, Clone, Copy, Debug)]
pub enum ConfigError {
    /// The inactivity threshold is zero.
    ZeroThreshold,
    /// The poll interval is zero or not shorter than the threshold.
    BadPollInterval,
}

/// Ticks since `last`, or zero where `last` is not before `now`.
pub open spec fn elapsed(now: u64, last: u64) -> nat {
    if now >= last {
        (now - last) as nat
    } else {
        0
    }
}

/// The service has been idle for longer than `threshold`.
pub open spec fn idle(now: u64, last: u64, threshold: u64) -> bool {
    elapsed(now, last) > threshold
}

/// The state after a poll at `now` that read `last` as the last activity.
pub open spec fn step_state(s: MonitorState, threshold: u64, now: u64, last: u64) -> MonitorState {
    match s {
        MonitorState::Running => if idle(now, last, threshold) {
            MonitorState::ShuttingDown
        } else {
            MonitorState::Running
        },
        _ => s,
    }
}

/// The action that a poll in state `s` yields.
pub open spec fn step_action(
    s: MonitorState,
    threshold: u64,
    poll_interval: u64,
    now: u64,
    last: u64,
) -> MonitorAction {
    match step_state(s, threshold, now, last) {
        MonitorState::Running => MonitorAction::Sleep(poll_interval),
        MonitorState::ShuttingDown => MonitorAction::Shutdown,
        MonitorState::Stopped => MonitorAction::Halt,
    }
}

/// The state after a run of polls, each a pair (now, last activity read).
pub open spec fn run(s: MonitorState, threshold: u64, polls: Seq<(u64, u64)>) -> MonitorState
    decreases polls.len(),
{
    if polls.len() == 0 {
        s
    } else {
        let p = polls.last();
        step_state(run(s, threshold, polls.drop_last()), threshold, p.0, p.1)
    }
}

/// Decides whether the service has been idle for longer than `threshold`,
/// given the current instant and the last recorded activity. A last activity
/// that lies after `now` (a write that raced the read) counts as no idle time.
pub fn should_shut_down(now: u64, last: u64, threshold: u64) -> (r: bool)
    ensures
        r == idle(now, last, threshold),
{
    if now >= last {
        now - last > threshold
    } else {
        false
    }
}

/// The inactivity monitor: a state machine that a driver wakes every
/// `poll_interval` ticks with the current instant and a fresh read of the
/// activity clock. The read taken at the poll decides; the monitor does not
/// re-read before asking for the shutdown, so activity that lands after that
/// read and before the process ends does not cancel it.
pub struct InactivityMonitor {
    threshold: u64,
    poll_interval: u64,
    state: MonitorState,
}

impl InactivityMonitor {
    pub closed spec fn threshold(&self) -> u64 {
        self.threshold
    }

    pub closed spec fn poll_interval(&self) -> u64 {
        self.poll_interval
    }

    pub closed spec fn state(&self) -> MonitorState {
        self.state
    }

    /// A positive threshold and a positive poll interval shorter than it.
    pub open spec fn wf(&self) -> bool {
        &&& self.threshold() > 0
        &&& 0 < self.poll_interval() < self.threshold()
    }

    /// A running monitor, or the reason the configuration is refused.
    pub fn new(threshold: u64, poll_interval: u64) -> (r: Result<Self, ConfigError>)
        ensures
            threshold == 0 ==> r == Err::<Self, ConfigError>(ConfigError::ZeroThreshold),
            threshold > 0 && (poll_interval == 0 || poll_interval >= threshold) ==> r == Err::<
                Self,
                ConfigError,
            >(ConfigError::BadPollInterval),
            threshold > 0 && 0 < poll_interval < threshold ==> r is Ok,
            r matches Ok(m) ==> {
                &&& m.wf()
                &&& m.threshold() == threshold
                &&& m.poll_interval() == poll_interval
                &&& m.state() == MonitorState::Running
            },
    {
        if threshold == 0 {
            Err(ConfigError::ZeroThreshold)
        } else if poll_interval == 0 || poll_interval >= threshold {
            Err(ConfigError::BadPollInterval)
        } else {
            Ok(InactivityMonitor { threshold, poll_interval, state: MonitorState::Running })
        }
    }

    pub fn threshold_ticks(&self) -> (r: u64)
        ensures
            r == self.threshold(),
    {
        self.threshold
    }

    pub fn poll_interval_ticks(&self) -> (r: u64)
        ensures
            r == self.poll_interval(),
    {
        self.poll_interval
    }

    pub fn current_state(&self) -> (r: MonitorState)
        ensures
            r == self.state(),
    {
        self.state
    }

    /// One wake-up: compares `now` against the last activity `last` read at
    /// this poll. A running monitor that finds the service idle moves to
    /// `ShuttingDown` and asks for the shutdown; otherwise it asks to sleep
    /// one poll interval. `ShuttingDown` and `Stopped` are never left.
    pub fn poll(&mut self, now: u64, last: u64) -> (a: MonitorAction)
        ensures
            final(self).threshold() == old(self).threshold(),
            final(self).poll_interval() == old(self).poll_interval(),
            final(self).state() == step_state(old(self).state(), old(self).threshold(), now, last),
            a == step_action(
                old(self).state(),
                old(self).threshold(),
                old(self).poll_interval(),
                now,
                last,
            ),
    {
        match self.state {
            MonitorState::Running => {
                if should_shut_down(now, last, self.threshold) {
                    self.state = MonitorState::ShuttingDown;
                    MonitorAction::Shutdown
                } else {
                    MonitorAction::Sleep(self.poll_interval)
                }
            },
            MonitorState::ShuttingDown => MonitorAction::Shutdown,
            MonitorState::Stopped => MonitorAction::Halt,
        }
    }

    /// The stop signal: a running monitor halts; a monitor that has already
    /// decided to shut down keeps that decision.
    pub fn stop(&mut self)
        ensures
            final(self).threshold() == old(self).threshold(),
            final(self).poll_interval() == old(self).poll_interval(),
            old(self).state() == MonitorState::Running ==> final(self).state()
                == MonitorState::Stopped,
            old(self).state() != MonitorState::Running ==> final(self).state() == old(
                self,
            ).state(),
    {
        if self.state == MonitorState::Running {
            self.state = MonitorState::Stopped;
        }
    }
}

/// Once a poll of a running monitor finds the service idle, the monitor is
/// shutting down after every later poll, whatever those polls read.
pub proof fn lemma_idle_shutdown_fires(threshold: u64, polls: Seq<(u64, u64)>, i: int)
    requires
        0 <= i < polls.len(),
        idle(polls[i].0, polls[i].1, threshold),
    ensures
        run(MonitorState::Running, threshold, polls) == MonitorState::ShuttingDown,
    decreases polls.len(),
{
    if i < polls.len() - 1 {
        lemma_idle_shutdown_fires(threshold, polls.drop_last(), i);
    } else {
        lemma_running_or_done(threshold, polls.drop_last());
    }
}

/// A run from `Running` never reaches `Stopped`: only the stop signal does.
pub proof fn lemma_running_or_done(threshold: u64, polls: Seq<(u64, u64)>)
    ensures
        run(MonitorState::Running, threshold, polls) != MonitorState::Stopped,
    decreases polls.len(),
{
    if polls.len() > 0 {
        lemma_running_or_done(threshold, polls.drop_last());
    }
}

/// With polls every `poll_interval` ticks from `start` and no activity after
/// `last`, the monitor is shutting down by the first poll later than
/// `last + threshold`: at most one poll interval past the threshold.
pub proof fn lemma_shutdown_within_one_cycle(
    threshold: u64,
    poll_interval: u64,
    start: u64,
    last: u64,
    polls: Seq<(u64, u64)>,
)
    requires
        poll_interval > 0,
        last <= start,
        forall|k: int|
            0 <= k < polls.len() ==> polls[k] == (
                (start + k * poll_interval) as u64,
                last,
            ) && start + k * poll_interval <= u64::MAX,
        polls.len() > 0,
        start + (polls.len() - 1) * poll_interval > last + threshold,
    ensures
        run(MonitorState::Running, threshold, polls) == MonitorState::ShuttingDown,
{
    let i = polls.len() - 1;
    assert(idle(polls[i].0, polls[i].1, threshold));
    lemma_idle_shutdown_fires(threshold, polls, i);
}

/// A running monitor whose polls never find the service idle keeps running.
pub proof fn lemma_activity_keeps_running(threshold: u64, polls: Seq<(u64, u64)>)
    requires
        forall|k: int| 0 <= k < polls.len() ==> !idle(#[trigger] polls[k].0, polls[k].1, threshold),
    ensures
        run(MonitorState::Running, threshold, polls) == MonitorState::Running,
    decreases polls.len(),
{
    if polls.len() > 0 {
        let prefix = polls.drop_last();
        assert forall|k: int| 0 <= k < prefix.len() implies !idle(
            #[trigger] prefix[k].0,
            prefix[k].1,
            threshold,
        ) by {
            assert(prefix[k] == polls[k]);
        }
        lemma_activity_keeps_running(threshold, prefix);
    }
}

/// Activity recorded at every multiple of `gap` ticks, with `gap` no longer
/// than the threshold, leaves no poll idle: at instant `now` the last activity
/// is the latest multiple of `gap` not after it.
pub proof fn lemma_periodic_activity_not_idle(threshold: u64, gap: u64, now: u64)
    requires
        0 < gap <= threshold,
    ensures
        !idle(now, (now - now % gap) as u64, threshold),
{
    assert(now % gap < gap) by (nonlinear_arith)
        requires gap > 0;
}

/// A monitor polled at any instants, with activity recorded at every multiple
/// of `gap` ticks (`gap` no longer than the threshold), never shuts down.
pub proof fn lemma_periodic_activity_keeps_running(
    threshold: u64,
    gap: u64,
    polls: Seq<(u64, u64)>,
)
    requires
        0 < gap <= threshold,
        forall|k: int|
            0 <= k < polls.len() ==> (#[trigger] polls[k]).1 == (polls[k].0 - polls[k].0 % gap) as u64,
    ensures
        run(MonitorState::Running, threshold, polls) == MonitorState::Running,
{
    assert forall|k: int| 0 <= k < polls.len() implies !idle(
        #[trigger] polls[k].0,
        polls[k].1,
        threshold,
    ) by {
        lemma_periodic_activity_not_idle(threshold, gap, polls[k].0);
    }
    lemma_activity_keeps_running(threshold, polls);
}

} // verus!
