//! The course of one upgrade run. The run is a state; each state has one
//! pending action, and the event that reports how the action went moves
//! the run to its next state.

use crate::command::{
    booted_image_query, build_booted_image_query, build_built_image_query, build_clock_query,
    build_reboot_command, build_rebuild_command, built_image_query, clock_query, reboot_command,
    rebuild_command,
};
use crate::config::{ConfigView, NixosUpgradeConfig};
use crate::error::{ErrorView, ExitReport, ExitReportView, NixosUpgradeError};
use crate::image::{has_image_changed, IdentityView, SystemImageIdentity};
use crate::network::verdict_view;
use crate::text::{trim_text, trimmed};
use crate::window::is_within_reboot_window;
use vstd::prelude::*;

verus! {

/// What a completed run did about rebooting.
#[derive(Debug, Clone, Copy, PartialEq, Eq)]
pub enum RebootOutcome {
    /// The run was not one after which a reboot is considered.
    NotConsidered,
    /// The machine already runs the images of the system profile.
    NotNeeded,
    /// The images differ and the time is outside the reboot window.
    Deferred,
    /// The reboot was scheduled.
    Requested,
}

/// Why a reboot may go ahead.
#[derive(Debug, Clone, Copy, PartialEq, Eq)]
pub enum Clearance {
    /// No window is configured.
    Unrestricted,
    /// The time is inside the window.
    WithinWindow,
    /// The time could not be had. A clock that fails does not hold back a
    /// reboot that is needed.
    ClockUnavailable,
}

/// How far a run has come.
#[derive(Debug, Clone, PartialEq, Eq)]
pub enum RunState {
    /// Nothing is known yet; the network is to be probed.
    Start,
    /// The network is available; the rebuild is to run.
    NetworkChecked,
    /// The rebuild succeeded; the images are to be compared.
    Upgraded,
    /// The images differ; the time is to be held against the window.
    ImageCompared,
    /// The reboot may go ahead and is to be scheduled.
    WindowChecked(Clearance),
    /// The run completed.
    Done(RebootOutcome),
    /// The run failed.
    Failed(NixosUpgradeError),
}

/// A `RunState` with its error by its view.
pub enum StateView {
    Start,
    NetworkChecked,
    Upgraded,
    ImageCompared,
    WindowChecked(Clearance),
    Done(RebootOutcome),
    Failed(ErrorView),
}

impl View for RunState {
    type V = StateView;

    open spec fn view(&self) -> StateView {
        match self {
            RunState::Start => StateView::Start,
            RunState::NetworkChecked => StateView::NetworkChecked,
            RunState::Upgraded => StateView::Upgraded,
            RunState::ImageCompared => StateView::ImageCompared,
            RunState::WindowChecked(clearance) => StateView::WindowChecked(*clearance),
            RunState::Done(outcome) => StateView::Done(*outcome),
            RunState::Failed(error) => StateView::Failed(error@),
        }
    }
}

/// How an action went.
#[derive(Debug, PartialEq, Eq)]
pub enum Event {
    /// The verdict of the connectivity probe.
    NetworkProbed(Result<bool, NixosUpgradeError>),
    /// How the rebuild tool ended, or why it could not be started.
    RebuildExited(Result<ExitReport, String>),
    /// What the images resolve to, or why they could not be resolved.
    ImagesResolved(Result<SystemImageIdentity, String>),
    /// What the clock printed, the time of day as "HH:MM", or why it
    /// could not be had.
    ClockRead(Result<String, String>),
    /// The reboot was scheduled, or why it could not be.
    RebootScheduled(Result<(), String>),
}

/// An `Event` with its texts as sequences of characters.
pub enum EventView {
    NetworkProbed(Result<bool, ErrorView>),
    RebuildExited(Result<ExitReportView, Seq<char>>),
    ImagesResolved(Result<IdentityView, Seq<char>>),
    ClockRead(Result<Seq<char>, Seq<char>>),
    RebootScheduled(Result<(), Seq<char>>),
}

impl View for Event {
    type V = EventView;

    open spec fn view(&self) -> EventView {
        match self {
            Event::NetworkProbed(verdict) => EventView::NetworkProbed(verdict_view(*verdict)),
            Event::RebuildExited(Ok(report)) => EventView::RebuildExited(Ok(report@)),
            Event::RebuildExited(Err(cause)) => EventView::RebuildExited(Err(cause@)),
            Event::ImagesResolved(Ok(identity)) => EventView::ImagesResolved(Ok(identity@)),
            Event::ImagesResolved(Err(cause)) => EventView::ImagesResolved(Err(cause@)),
            Event::ClockRead(Ok(now)) => EventView::ClockRead(Ok(now@)),
            Event::ClockRead(Err(cause)) => EventView::ClockRead(Err(cause@)),
            Event::RebootScheduled(Ok(())) => EventView::RebootScheduled(Ok(())),
            Event::RebootScheduled(Err(cause)) => EventView::RebootScheduled(Err(cause@)),
        }
    }
}

/// What is to be done next. Each command line has the program's name first.
#[derive(Debug, Clone, PartialEq, Eq)]
pub enum Action {
    /// Probe the network.
    ProbeNetwork,
    /// Run the rebuild and report how it ended.
    Rebuild(Vec<String>),
    /// Run both queries and report what each printed.
    ResolveImages { booted: Vec<String>, built: Vec<String> },
    /// Run the query and report the time it printed.
    ReadClock(Vec<String>),
    /// Run the command that schedules the reboot.
    Reboot(Vec<String>),
    /// Nothing: the run has ended.
    Stop,
}

/// An `Action` with its command lines as sequences of texts.
pub enum ActionView {
    ProbeNetwork,
    Rebuild(Seq<Seq<char>>),
    ResolveImages { booted: Seq<Seq<char>>, built: Seq<Seq<char>> },
    ReadClock(Seq<Seq<char>>),
    Reboot(Seq<Seq<char>>),
    Stop,
}

impl View for Action {
    type V = ActionView;

    open spec fn view(&self) -> ActionView {
        match self {
            Action::ProbeNetwork => ActionView::ProbeNetwork,
            Action::Rebuild(line) => ActionView::Rebuild(line.deep_view()),
            Action::ResolveImages { booted, built } => ActionView::ResolveImages {
                booted: booted.deep_view(),
                built: built.deep_view(),
            },
            Action::ReadClock(line) => ActionView::ReadClock(line.deep_view()),
            Action::Reboot(line) => ActionView::Reboot(line.deep_view()),
            Action::Stop => ActionView::Stop,
        }
    }
}

impl StateView {
    /// The run has ended.
    pub open spec fn terminal(self) -> bool {
        self is Done || self is Failed
    }

    /// The action that is pending in this state.
    pub open spec fn action(self, config: ConfigView) -> ActionView {
        match self {
            StateView::Start => ActionView::ProbeNetwork,
            StateView::NetworkChecked => ActionView::Rebuild(rebuild_command(config)),
            StateView::Upgraded => ActionView::ResolveImages {
                booted: booted_image_query(),
                built: built_image_query(),
            },
            StateView::ImageCompared => ActionView::ReadClock(clock_query()),
            StateView::WindowChecked(_) => ActionView::Reboot(reboot_command()),
            StateView::Done(_) => ActionView::Stop,
            StateView::Failed(_) => ActionView::Stop,
        }
    }

    /// How the run ended, if it has.
    pub open spec fn outcome(self) -> Option<Result<RebootOutcome, ErrorView>> {
        match self {
            StateView::Done(outcome) => Some(Ok(outcome)),
            StateView::Failed(error) => Some(Err(error)),
            _ => None,
        }
    }

    /// The state after the probe gave its verdict. No network ends the run
    /// with an error of its own; a probe that failed ends it with the
    /// probe's error.
    pub open spec fn after_probe(verdict: Result<bool, ErrorView>) -> StateView {
        match verdict {
            Ok(true) => StateView::NetworkChecked,
            Ok(false) => StateView::Failed(ErrorView::NetworkUnavailable),
            Err(error) => StateView::Failed(error),
        }
    }

    /// The state after the rebuild ended. A rebuild that did not start or
    /// did not succeed ends the run. After a successful one the images are
    /// compared only where the configuration has a reboot considered.
    pub open spec fn after_rebuild(
        config: ConfigView,
        exit: Result<ExitReportView, Seq<char>>,
    ) -> StateView {
        match exit {
            Err(cause) => StateView::Failed(ErrorView::NixosRebuild(cause)),
            Ok(report) => if !report.success() {
                StateView::Failed(ErrorView::NixosRebuildFailed(report))
            } else if config.considers_reboot() {
                StateView::Upgraded
            } else {
                StateView::Done(RebootOutcome::NotConsidered)
            },
        }
    }

    /// The state after the images were resolved. Unchanged images complete
    /// the run. Changed ones lead to the reboot, by way of the clock where
    /// a window is configured.
    pub open spec fn after_images(
        config: ConfigView,
        resolved: Result<IdentityView, Seq<char>>,
    ) -> StateView {
        match resolved {
            Err(cause) => StateView::Failed(ErrorView::NixosRebuild(cause)),
            Ok(identity) => if !identity.changed() {
                StateView::Done(RebootOutcome::NotNeeded)
            } else if config.reboot_window is Some {
                StateView::ImageCompared
            } else {
                StateView::WindowChecked(Clearance::Unrestricted)
            },
        }
    }

    /// The state after the clock was read. The time is what the clock
    /// printed, without the white space around it. A time outside the
    /// window completes the run without a reboot. A clock that failed lets
    /// the reboot go ahead.
    pub open spec fn after_clock(
        config: ConfigView,
        clock: Result<Seq<char>, Seq<char>>,
    ) -> StateView {
        match clock {
            Err(_) => StateView::WindowChecked(Clearance::ClockUnavailable),
            Ok(printed) => match config.reboot_window {
                None => StateView::WindowChecked(Clearance::Unrestricted),
                Some(window) => if window.admits(trimmed(printed)) {
                    StateView::WindowChecked(Clearance::WithinWindow)
                } else {
                    StateView::Done(RebootOutcome::Deferred)
                },
            },
        }
    }

    /// The state after the reboot was to be scheduled.
    pub open spec fn after_reboot(scheduled: Result<(), Seq<char>>) -> StateView {
        match scheduled {
            Ok(_) => StateView::Done(RebootOutcome::Requested),
            Err(cause) => StateView::Failed(ErrorView::NixosRebuild(cause)),
        }
    }

    /// How far the run has come: each state counts more than those a run
    /// passes before it.
    pub open spec fn progress(self) -> nat {
        match self {
            StateView::Start => 0,
            StateView::NetworkChecked => 1,
            StateView::Upgraded => 2,
            StateView::ImageCompared => 3,
            StateView::WindowChecked(_) => 4,
            StateView::Done(_) => 5,
            StateView::Failed(_) => 5,
        }
    }

    /// `event` reports on the action that is pending in this state.
    pub open spec fn awaits(self, event: EventView) -> bool {
        match (self, event) {
            (StateView::Start, EventView::NetworkProbed(_)) => true,
            (StateView::NetworkChecked, EventView::RebuildExited(_)) => true,
            (StateView::Upgraded, EventView::ImagesResolved(_)) => true,
            (StateView::ImageCompared, EventView::ClockRead(_)) => true,
            (StateView::WindowChecked(_), EventView::RebootScheduled(_)) => true,
            _ => false,
        }
    }

    /// The state after `event`. An event that does not report on the
    /// pending action changes nothing.
    pub open spec fn step(self, config: ConfigView, event: EventView) -> StateView {
        match (self, event) {
            (StateView::Start, EventView::NetworkProbed(verdict)) => StateView::after_probe(
                verdict,
            ),
            (StateView::NetworkChecked, EventView::RebuildExited(exit)) => StateView::after_rebuild(
                config,
                exit,
            ),
            (StateView::Upgraded, EventView::ImagesResolved(resolved)) => StateView::after_images(
                config,
                resolved,
            ),
            (StateView::ImageCompared, EventView::ClockRead(clock)) => StateView::after_clock(
                config,
                clock,
            ),
            (StateView::WindowChecked(_), EventView::RebootScheduled(scheduled)) =>
                StateView::after_reboot(scheduled),
            _ => self,
        }
    }
}

/// The state of a run of `config` after `events`, in order.
pub open spec fn run(config: ConfigView, events: Seq<EventView>) -> StateView
    decreases events.len(),
{
    if events.len() == 0 {
        StateView::Start
    } else {
        run(config, events.drop_last()).step(config, events.last())
    }
}

/// How a run ended, by its view.
pub open spec fn outcome_view(outcome: Option<Result<RebootOutcome, NixosUpgradeError>>) -> Option<
    Result<RebootOutcome, ErrorView>,
> {
    match outcome {
        Some(Ok(done)) => Some(Ok(done)),
        Some(Err(error)) => Some(Err(error@)),
        None => None,
    }
}

impl RunState {
    /// The state in which every run begins.
    pub fn new() -> (state: RunState)
        ensures
            state@ == StateView::Start,
    {
        RunState::Start
    }

    /// Whether the run has ended.
    pub fn is_terminal(&self) -> (ended: bool)
        ensures
            ended == self@.terminal(),
    {
        match self {
            RunState::Done(_) => true,
            RunState::Failed(_) => true,
            _ => false,
        }
    }

    /// How the run ended, or `None` while it has not.
    pub fn outcome(self) -> (outcome: Option<Result<RebootOutcome, NixosUpgradeError>>)
        ensures
            outcome_view(outcome) == self@.outcome(),
    {
        match self {
            RunState::Done(done) => Some(Ok(done)),
            RunState::Failed(error) => Some(Err(error)),
            _ => None,
        }
    }
}

/// The action that is pending in `state`.
pub fn next_action(config: &NixosUpgradeConfig, state: &RunState) -> (action: Action)
    ensures
        action@ == state@.action(config@),
{
    match state {
        RunState::Start => Action::ProbeNetwork,
        RunState::NetworkChecked => Action::Rebuild(build_rebuild_command(config)),
        RunState::Upgraded => Action::ResolveImages {
            booted: build_booted_image_query(),
            built: build_built_image_query(),
        },
        RunState::ImageCompared => Action::ReadClock(build_clock_query()),
        RunState::WindowChecked(_) => Action::Reboot(build_reboot_command()),
        RunState::Done(_) => Action::Stop,
        RunState::Failed(_) => Action::Stop,
    }
}

/// The state that follows `state` once `event` has reported how the
/// pending action went.
pub fn step(config: &NixosUpgradeConfig, state: RunState, event: Event) -> (next: RunState)
    ensures
        next@ == state@.step(config@, event@),
{
    match state {
        RunState::Start => match event {
            Event::NetworkProbed(Ok(available)) => if available {
                RunState::NetworkChecked
            } else {
                RunState::Failed(NixosUpgradeError::NetworkUnavailable)
            },
            Event::NetworkProbed(Err(error)) => RunState::Failed(error),
            _ => state,
        },
        RunState::NetworkChecked => match event {
            Event::RebuildExited(Err(cause)) => RunState::Failed(
                NixosUpgradeError::NixosRebuild(cause),
            ),
            Event::RebuildExited(Ok(report)) => if !report.success() {
                RunState::Failed(NixosUpgradeError::NixosRebuildFailed(report))
            } else if config.considers_reboot() {
                RunState::Upgraded
            } else {
                RunState::Done(RebootOutcome::NotConsidered)
            },
            _ => state,
        },
        RunState::Upgraded => match event {
            Event::ImagesResolved(Err(cause)) => RunState::Failed(
                NixosUpgradeError::NixosRebuild(cause),
            ),
            Event::ImagesResolved(Ok(identity)) => if !has_image_changed(&identity) {
                RunState::Done(RebootOutcome::NotNeeded)
            } else if config.reboot_window.is_some() {
                RunState::ImageCompared
            } else {
                RunState::WindowChecked(Clearance::Unrestricted)
            },
            _ => state,
        },
        RunState::ImageCompared => match event {
            Event::ClockRead(Err(_)) => RunState::WindowChecked(Clearance::ClockUnavailable),
            Event::ClockRead(Ok(printed)) => match &config.reboot_window {
                None => RunState::WindowChecked(Clearance::Unrestricted),
                Some(window) => if is_within_reboot_window(
                    window,
                    trim_text(printed.as_str()).as_str(),
                ) {
                    RunState::WindowChecked(Clearance::WithinWindow)
                } else {
                    RunState::Done(RebootOutcome::Deferred)
                },
            },
            _ => state,
        },
        RunState::WindowChecked(_) => match event {
            Event::RebootScheduled(Ok(_)) => RunState::Done(RebootOutcome::Requested),
            Event::RebootScheduled(Err(cause)) => RunState::Failed(
                NixosUpgradeError::NixosRebuild(cause),
            ),
            _ => state,
        },
        RunState::Done(_) => state,
        RunState::Failed(_) => state,
    }
}

/// No event of `events` reports images that differ.
pub open spec fn images_never_differ(events: Seq<EventView>) -> bool {
    forall|i: int|
        0 <= i < events.len() ==> match #[trigger] events[i] {
            EventView::ImagesResolved(Ok(identity)) => !identity.changed(),
            _ => true,
        }
}

/// No event of `events` reports that the network is available.
pub open spec fn network_never_available(events: Seq<EventView>) -> bool {
    forall|i: int|
        0 <= i < events.len() ==> #[trigger] events[i] != EventView::NetworkProbed(
            Ok::<bool, ErrorView>(true),
        )
}

/// A report on the pending action takes the run further, and any other
/// event leaves it where it is: no state is entered twice, so no action is
/// tried again.
pub proof fn lemma_step_advances(config: ConfigView, state: StateView, event: EventView)
    ensures
        state.awaits(event) ==> state.step(config, event).progress() > state.progress(),
        !state.awaits(event) ==> state.step(config, event) == state,
        state.terminal() ==> !state.awaits(event),
{
}

/// A run that has ended stays as it is, whatever is reported to it.
pub proof fn lemma_terminal_states_absorb(config: ConfigView, state: StateView, event: EventView)
    requires
        state.terminal(),
    ensures
        state.step(config, event) == state,
        state.action(config) is Stop,
{
}

/// A state with an action pending has not ended, and one that has ended
/// has an outcome.
pub proof fn lemma_stop_means_ended(config: ConfigView, state: StateView)
    ensures
        state.action(config) is Stop <==> state.terminal(),
        state.outcome() is Some <==> state.terminal(),
{
}

/// Where the images of the profile are those the machine was booted from,
/// whenever they are compared, no reboot is scheduled at any point of the
/// run, whatever the configuration allows.
pub proof fn lemma_unchanged_images_never_reboot(config: ConfigView, events: Seq<EventView>)
    requires
        images_never_differ(events),
    ensures
        forall|k: int|
            0 <= k <= events.len() ==> !(#[trigger] run(config, events.take(k)).action(
                config,
            ) is Reboot),
        run(config, events) != StateView::Done(RebootOutcome::Requested),
{
    assert forall|k: int| 0 <= k <= events.len() implies !(#[trigger] run(
        config,
        events.take(k),
    ).action(config) is Reboot) by {
        lemma_unchanged_images_states(config, events.take(k));
    }
    lemma_unchanged_images_states(config, events);
}

/// The states a run can be in while no event reports images that differ.
proof fn lemma_unchanged_images_states(config: ConfigView, events: Seq<EventView>)
    requires
        images_never_differ(events),
    ensures
        match run(config, events) {
            StateView::Start => true,
            StateView::NetworkChecked => true,
            StateView::Upgraded => true,
            StateView::Done(outcome) => outcome == RebootOutcome::NotConsidered || outcome
                == RebootOutcome::NotNeeded,
            StateView::Failed(_) => true,
            _ => false,
        },
    decreases events.len(),
{
    if events.len() > 0 {
        let front = events.drop_last();
        assert forall|i: int| 0 <= i < front.len() implies match #[trigger] front[i] {
            EventView::ImagesResolved(Ok(identity)) => !identity.changed(),
            _ => true,
        } by {
            assert(front[i] == events[i]);
        }
        lemma_unchanged_images_states(config, front);
        let last = events[events.len() - 1];
        assert(last == events.last());
    }
}

/// Where the configuration does not allow a reboot, the images are never
/// compared, the clock is never read and no reboot is scheduled at any
/// point of the run.
pub proof fn lemma_reboot_forbidden_never_compares(config: ConfigView, events: Seq<EventView>)
    requires
        !config.allow_reboot,
    ensures
        forall|k: int|
            0 <= k <= events.len() ==> {
                let action = #[trigger] run(config, events.take(k)).action(config);
                !(action is ResolveImages) && !(action is ReadClock) && !(action is Reboot)
            },
        run(config, events).outcome() is Some ==> run(config, events).outcome()
            != Some::<Result<RebootOutcome, ErrorView>>(Ok(RebootOutcome::Requested)),
{
    assert forall|k: int| 0 <= k <= events.len() implies {
        let action = #[trigger] run(config, events.take(k)).action(config);
        !(action is ResolveImages) && !(action is ReadClock) && !(action is Reboot)
    } by {
        lemma_reboot_forbidden_states(config, events.take(k));
    }
    lemma_reboot_forbidden_states(config, events);
}

/// The states a run can be in where the configuration allows no reboot.
proof fn lemma_reboot_forbidden_states(config: ConfigView, events: Seq<EventView>)
    requires
        !config.allow_reboot,
    ensures
        match run(config, events) {
            StateView::Start => true,
            StateView::NetworkChecked => true,
            StateView::Done(outcome) => outcome == RebootOutcome::NotConsidered,
            StateView::Failed(_) => true,
            _ => false,
        },
    decreases events.len(),
{
    if events.len() > 0 {
        lemma_reboot_forbidden_states(config, events.drop_last());
    }
}

/// Until the probe has reported the network available, the rebuild is not
/// run at any point of the run, and the run does not complete.
pub proof fn lemma_no_network_no_rebuild(config: ConfigView, events: Seq<EventView>)
    requires
        network_never_available(events),
    ensures
        forall|k: int|
            0 <= k <= events.len() ==> {
                let action = #[trigger] run(config, events.take(k)).action(config);
                action is ProbeNetwork || action is Stop
            },
        !(run(config, events) is Done),
{
    assert forall|k: int| 0 <= k <= events.len() implies {
        let action = #[trigger] run(config, events.take(k)).action(config);
        action is ProbeNetwork || action is Stop
    } by {
        lemma_no_network_states(config, events.take(k));
    }
    lemma_no_network_states(config, events);
}

/// The states a run can be in while the network was not reported available.
proof fn lemma_no_network_states(config: ConfigView, events: Seq<EventView>)
    requires
        network_never_available(events),
    ensures
        run(config, events) is Start || run(config, events) is Failed,
    decreases events.len(),
{
    if events.len() > 0 {
        let front = events.drop_last();
        assert forall|i: int| 0 <= i < front.len() implies #[trigger] front[i]
            != EventView::NetworkProbed(Ok::<bool, ErrorView>(true)) by {
            assert(front[i] == events[i]);
        }
        lemma_no_network_states(config, front);
        assert(events[events.len() - 1] == events.last());
    }
}

} // verus!
