//! The lifecycle of the background refresh service.
//!
//! The service owns one background task that waits for either a timer tick
//! or a shutdown signal. Spawning, signalling and joining the task are the
//! caller's part; this module decides when each of them is due.

use crate::auth_management::TokenRefreshServiceConfig;
use vstd::prelude::*;

verus! {

/// What the owner of the service has to do after a call.
#[derive(Debug, Clone, Copy, PartialEq, Eq, Structural)]
pub enum ServiceAction {
    /// Nothing.
    Nothing,
    /// Spawn the background task.
    SpawnTask,
    /// Send the shutdown signal and wait for the task to finish.
    SignalAndJoin,
    /// Send the shutdown signal without waiting.
    SignalOnly,
}

/// What reaches the background task while it waits.
#[derive(Debug, Clone, Copy, PartialEq, Eq, Structural)]
pub enum LoopEvent {
    /// The timer fired.
    Tick,
    /// The shutdown signal arrived.
    Shutdown,
}

/// What the background task does about an event.
#[derive(Debug, Clone, Copy, PartialEq, Eq, Structural)]
pub enum LoopAction {
    /// Ask the token manager for credentials, report a failure, and go on
    /// waiting.
    Refresh,
    /// Leave the loop.
    Exit,
}

/// The background refresh service as its owner sees it.
#[derive(Debug, Clone, Copy, PartialEq, Eq, Structural)]
pub struct RefreshService {
    /// The configuration the service was made with.
    pub config: TokenRefreshServiceConfig,
    /// Whether a background task has been spawned and not yet stopped.
    pub running: bool,
}

impl RefreshService {
    /// The service after a call of `start`.
    pub open spec fn started(self) -> RefreshService {
        RefreshService { config: self.config, running: true }
    }

    /// What a call of `start` asks of the owner.
    pub open spec fn start_action(self) -> ServiceAction {
        if self.running {
            ServiceAction::Nothing
        } else {
            ServiceAction::SpawnTask
        }
    }

    /// The service after a call of `stop`.
    pub open spec fn stopped(self) -> RefreshService {
        RefreshService { config: self.config, running: false }
    }

    /// What a call of `stop` asks of the owner.
    pub open spec fn stop_action(self) -> ServiceAction {
        if self.running {
            ServiceAction::SignalAndJoin
        } else {
            ServiceAction::Nothing
        }
    }

    /// A service that has not been started.
    pub fn new(config: TokenRefreshServiceConfig) -> (service: Self)
        ensures
            service == (RefreshService { config, running: false }),
    {
        RefreshService { config, running: false }
    }

    /// The time between two ticks of the timer, in milliseconds.
    pub fn refresh_interval(&self) -> (interval: u64)
        ensures
            interval == self.config.refresh_interval,
    {
        self.config.refresh_interval
    }

    /// The period of the timer that drives the background task, in
    /// milliseconds: the refresh interval, but at least one millisecond, as
    /// a timer cannot fire without pause.
    pub open spec fn period(self) -> u64 {
        if self.config.refresh_interval == 0 {
            1
        } else {
            self.config.refresh_interval
        }
    }

    /// The period of the timer that drives the background task, in
    /// milliseconds.
    pub fn timer_period(&self) -> (period: u64)
        ensures
            period == self.period(),
            period >= 1,
            period >= self.config.refresh_interval,
            period == self.config.refresh_interval || (period == 1
                && self.config.refresh_interval == 0),
    {
        if self.config.refresh_interval == 0 {
            1
        } else {
            self.config.refresh_interval
        }
    }

    /// Whether the background task is running.
    pub fn is_running(&self) -> (running: bool)
        ensures
            running == self.running,
    {
        self.running
    }

    /// Starts the service: a task is to be spawned unless one is running.
    pub fn start(&mut self) -> (action: ServiceAction)
        ensures
            *final(self) == old(self).started(),
            action == old(self).start_action(),
    {
        if self.running {
            ServiceAction::Nothing
        } else {
            self.running = true;
            ServiceAction::SpawnTask
        }
    }

    /// Stops the service: the task is to be signalled and joined if one is
    /// running.
    pub fn stop(&mut self) -> (action: ServiceAction)
        ensures
            *final(self) == old(self).stopped(),
            action == old(self).stop_action(),
    {
        if self.running {
            self.running = false;
            ServiceAction::SignalAndJoin
        } else {
            ServiceAction::Nothing
        }
    }

    /// Tears the service down: the task is to be signalled, but not waited
    /// for, if one is running.
    pub fn teardown(self) -> (action: ServiceAction)
        ensures
            action == if self.running {
                ServiceAction::SignalOnly
            } else {
                ServiceAction::Nothing
            },
    {
        if self.running {
            ServiceAction::SignalOnly
        } else {
            ServiceAction::Nothing
        }
    }
}

/// What the background task does about `event`.
pub fn loop_action(event: LoopEvent) -> (action: LoopAction)
    ensures
        action == match event {
            LoopEvent::Tick => LoopAction::Refresh,
            LoopEvent::Shutdown => LoopAction::Exit,
        },
{
    match event {
        LoopEvent::Tick => LoopAction::Refresh,
        LoopEvent::Shutdown => LoopAction::Exit,
    }
}

/// The number of refreshes the background task performs when `events` reach
/// it in order: one for each tick before the first shutdown signal.
pub open spec fn refreshes_performed(events: Seq<LoopEvent>) -> nat
    decreases events.len(),
{
    if events.len() == 0 {
        0
    } else if events[0] == LoopEvent::Shutdown {
        0
    } else {
        1 + refreshes_performed(events.drop_first())
    }
}

/// Starting a started service changes nothing and asks for no second task;
/// stopping a stopped service changes nothing and asks for nothing.
pub proof fn lemma_start_and_stop_are_idempotent(service: RefreshService)
    ensures
        service.started().started() == service.started(),
        service.started().start_action() == ServiceAction::Nothing,
        service.stopped().stopped() == service.stopped(),
        service.stopped().stop_action() == ServiceAction::Nothing,
        service.started().stop_action() == ServiceAction::SignalAndJoin,
        service.stopped().start_action() == ServiceAction::SpawnTask,
{
}

/// Once the shutdown signal has arrived, no later event causes a refresh:
/// the refreshes performed are those of the events before the signal.
pub proof fn lemma_no_refresh_after_shutdown(before: Seq<LoopEvent>, after: Seq<LoopEvent>)
    ensures
        refreshes_performed(before + seq![LoopEvent::Shutdown] + after) == refreshes_performed(
            before + seq![LoopEvent::Shutdown],
        ),
        refreshes_performed(before + seq![LoopEvent::Shutdown]) <= before.len(),
    decreases before.len(),
{
    let cut = before + seq![LoopEvent::Shutdown];
    let all = cut + after;
    if before.len() > 0 {
        assert(cut.drop_first() =~= before.drop_first() + seq![LoopEvent::Shutdown]);
        assert(all.drop_first() =~= before.drop_first() + seq![LoopEvent::Shutdown] + after);
        lemma_no_refresh_after_shutdown(before.drop_first(), after);
    }
}

} // verus!
