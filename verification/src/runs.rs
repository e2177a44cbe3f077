//! The run of a simulation as a state machine.
//!
//! A run goes through four phases: it is initialised, it runs, it is drained and
//! it is terminated. The [`Driver`] decides what is done next; the caller does
//! it with the environment, the agent and the visualiser that it holds, and tells
//! the driver how it went. The driver never touches the three itself, so one
//! driver serves every combination of them.

use vstd::prelude::*;
use crate::availables::SelectedExitCondition;

verus! {

// Further structures

/// What a user asks of a run besides the selection.
#[derive(Debug, PartialEq, Eq)]
pub struct RunOptions {
    /// The text from which the random number generators are seeded; without
    /// one the seed is chosen at random.
    pub seed: Option<String>,
    pub reset_environment_on_done: bool,
    pub reset_agent_on_done: bool,
    pub environment_load_path: Option<String>,
    pub environment_store_path: Option<String>,
    pub agent_load_path: Option<String>,
    pub agent_store_path: Option<String>,
}

/// The number of rendered steps in a second where the environment suggests none.
pub const DEFAULT_STEPS_PER_SECOND: u64 = 30;

/// The pause after a rendered step, in milliseconds, where the environment
/// suggests no number of steps in a second.
pub fn default_pause_millis() -> (millis: u64)
    ensures
        millis == 1000int / (DEFAULT_STEPS_PER_SECOND as int),
        millis == 33,
{
    1000 / DEFAULT_STEPS_PER_SECOND
}

/// What decides the course of a run.
#[derive(Clone, Copy, Debug, PartialEq, Eq, Structural)]
pub struct Policy {
    /// Whether the environment is loaded from a file rather than seeded.
    pub load_environment: bool,
    /// Whether the agent is loaded from a file rather than seeded.
    pub load_agent: bool,
    /// Whether the environment is stored in a file at the end.
    pub store_environment: bool,
    /// Whether the agent is stored in a file at the end.
    pub store_agent: bool,
    /// Whether the environment is reset when it says that it is done.
    pub reset_environment_on_done: bool,
    /// Whether the agent is reset when the environment says that it is done.
    pub reset_agent_on_done: bool,
    /// Whether a visualiser shows the run.
    pub visualiser: bool,
}

impl RunOptions {
    /// The policy of a run with these options.
    pub open spec fn policy_of(&self, visualiser: bool) -> Policy {
        Policy {
            load_environment: self.environment_load_path is Some,
            load_agent: self.agent_load_path is Some,
            store_environment: self.environment_store_path is Some,
            store_agent: self.agent_store_path is Some,
            reset_environment_on_done: self.reset_environment_on_done,
            reset_agent_on_done: self.reset_agent_on_done,
            visualiser,
        }
    }

    /// The policy of a run with these options, with or without a visualiser.
    pub fn policy(&self, visualiser: bool) -> (policy: Policy)
        ensures
            policy == self.policy_of(visualiser),
    {
        Policy {
            load_environment: self.environment_load_path.is_some(),
            load_agent: self.agent_load_path.is_some(),
            store_environment: self.environment_store_path.is_some(),
            store_agent: self.agent_store_path.is_some(),
            reset_environment_on_done: self.reset_environment_on_done,
            reset_agent_on_done: self.reset_agent_on_done,
            visualiser,
        }
    }
}

// Exit conditions

impl SelectedExitCondition {
    /// Whether a run ends, given whether its visualiser is open, if it has
    /// one, and the numbers of the episode and of the step. A run ends once
    /// its visualiser is closed; a run for a number of episodes ends as well
    /// once the episode has that number.
    pub open spec fn exits(self, visualiser_open: Option<bool>, episode: u128, step: u128) -> bool {
        match self {
            SelectedExitCondition::EpisodesSimulated { count_of_episodes } => visualiser_open
                == Some(false) || episode >= count_of_episodes,
            SelectedExitCondition::VisualiserClosed => visualiser_open == Some(false),
        }
    }

    /// Decides whether a run ends. A run that ends when its visualiser is
    /// closed has a visualiser.
    pub fn should_exit(&self, visualiser_open: Option<bool>, episode: u128, step: u128) -> (exit:
        bool)
        requires
            self is VisualiserClosed ==> visualiser_open is Some,
        ensures
            exit == self.exits(visualiser_open, episode, step),
    {
        let closed = match visualiser_open {
            Some(open) => !open,
            None => false,
        };
        match *self {
            SelectedExitCondition::EpisodesSimulated { count_of_episodes } => closed || episode
                >= count_of_episodes,
            SelectedExitCondition::VisualiserClosed => closed,
        }
    }
}

// Driver

/// The four phases of a run, in their order.
#[derive(Clone, Copy, Debug, PartialEq, Eq, Structural)]
pub enum Phase {
    Initializing,
    Running,
    Draining,
    Terminated,
}

impl Phase {
    /// The place of the phase in the order of the phases.
    pub open spec fn rank(self) -> nat {
        match self {
            Phase::Initializing => 0,
            Phase::Running => 1,
            Phase::Draining => 2,
            Phase::Terminated => 3,
        }
    }
}

/// Where a run stands: what was asked of the caller and is not yet answered.
#[derive(Clone, Copy, Debug, PartialEq, Eq, Structural)]
pub enum Stage {
    /// The environment is being loaded or seeded.
    PreparingEnvironment,
    /// The environment is being shown for the first time.
    FirstRender,
    /// The agent is being loaded or seeded.
    PreparingAgent,
    /// The exit condition is being evaluated.
    CheckingExit,
    /// The agent and the environment are taking a step.
    Stepping,
    /// The environment is being reset at the end of an episode.
    ResettingEnvironment,
    /// The agent is being reset at the end of an episode.
    ResettingAgent,
    /// The environment is being shown after a step.
    Rendering,
    /// The run is pausing after a rendered step.
    Pacing,
    /// The agent is being stored.
    StoringAgent,
    /// The environment is being stored.
    StoringEnvironment,
    /// The agent is being closed.
    ClosingAgent,
    /// The environment is being closed.
    ClosingEnvironment,
    /// The visualiser is being closed.
    ClosingVisualiser,
    /// Nothing is left to do.
    Terminated,
}

impl Stage {
    /// The phase that the stage belongs to.
    pub open spec fn phase(self) -> Phase {
        match self {
            Stage::PreparingEnvironment | Stage::FirstRender | Stage::PreparingAgent =>
                Phase::Initializing,
            Stage::CheckingExit
            | Stage::Stepping
            | Stage::ResettingEnvironment
            | Stage::ResettingAgent
            | Stage::Rendering
            | Stage::Pacing => Phase::Running,
            Stage::StoringAgent
            | Stage::StoringEnvironment
            | Stage::ClosingAgent
            | Stage::ClosingEnvironment
            | Stage::ClosingVisualiser => Phase::Draining,
            Stage::Terminated => Phase::Terminated,
        }
    }
}

/// What the driver asks of the caller.
#[derive(Clone, Copy, Debug, PartialEq, Eq, Structural)]
pub enum Action {
    /// Load the environment from its file; its state is the first observation.
    LoadEnvironment,
    /// Seed the environment and reset it; what the reset gives is the first
    /// observation.
    SeedEnvironment,
    /// Show the environment in the visualiser.
    Render,
    /// Load the agent from its file.
    LoadAgent,
    /// Seed the agent and reset it.
    SeedAgent,
    /// Evaluate the exit condition with the numbers of the episode and of the
    /// step, and answer with [`Event::ExitEvaluated`].
    EvaluateExit,
    /// Let the agent choose an action for the current observation, let the
    /// environment take the step, let the agent process the reward, and answer
    /// with [`Event::Stepped`]. The new observation is the current one from
    /// now on.
    Step,
    /// Reset the environment; what the reset gives is the current observation
    /// from now on.
    ResetEnvironment,
    /// Reset the agent.
    ResetAgent,
    /// Pause for the time that one rendered step takes.
    Pace,
    /// Store the agent in its file.
    StoreAgent,
    /// Store the environment in its file.
    StoreEnvironment,
    /// Close the agent.
    CloseAgent,
    /// Close the environment.
    CloseEnvironment,
    /// Close the visualiser.
    CloseVisualiser,
    /// Stop: the run is over.
    Stop,
}

/// What the caller tells the driver of the action that was asked for.
#[derive(Clone, Copy, Debug, PartialEq, Eq, Structural)]
pub enum Event {
    /// The action was done.
    Completed,
    /// The exit condition was evaluated.
    ExitEvaluated { exit: bool },
    /// The step was taken; `done` is what the environment says of the episode.
    Stepped { done: bool },
    /// The action failed.
    Failed,
}

/// Why the driver does not go on.
#[derive(Clone, Copy, Debug, PartialEq, Eq, Structural)]
pub enum DriverError {
    /// The run is terminated: nothing more is permitted.
    Terminated,
    /// The event does not answer the action that was asked for.
    UnexpectedEvent,
    /// The number of the episode or of the step does not fit its type.
    CounterOverflow,
}

/// The state of a run.
#[derive(Clone, Copy, Debug, PartialEq, Eq, Structural)]
pub struct Driver {
    pub policy: Policy,
    pub stage: Stage,
    /// The number of episodes that have ended.
    pub episode: u128,
    /// The number of steps taken in the current episode.
    pub step: u128,
    /// What the environment said of the episode at the last step.
    pub done: bool,
    /// Whether an action has failed.
    pub failed: bool,
}

impl Policy {
    /// The first stage of draining: what is to be stored is stored before
    /// anything is closed, the agent first.
    pub open spec fn drain_start(self) -> Stage {
        if self.store_agent {
            Stage::StoringAgent
        } else if self.store_environment {
            Stage::StoringEnvironment
        } else {
            Stage::ClosingAgent
        }
    }

    /// The stage after the environment is dealt with at the end of a step.
    pub open spec fn after_environment(self, done: bool) -> Stage {
        if self.reset_agent_on_done && done {
            Stage::ResettingAgent
        } else {
            self.after_agent()
        }
    }

    /// The stage after the agent is dealt with at the end of a step.
    pub open spec fn after_agent(self) -> Stage {
        if self.visualiser {
            Stage::Rendering
        } else {
            Stage::CheckingExit
        }
    }

    /// Whether an episode ends after a step: it does if the environment says
    /// that it is done and is to be reset then, and only then.
    pub open spec fn ends_episode(self, done: bool) -> bool {
        self.reset_environment_on_done && done
    }
}

impl Driver {
    /// The state of a run of which nothing is done yet.
    pub open spec fn initial(policy: Policy) -> Driver {
        Driver {
            policy,
            stage: Stage::PreparingEnvironment,
            episode: 0,
            step: 0,
            done: false,
            failed: false,
        }
    }

    /// The phase of the run.
    pub open spec fn phase(self) -> Phase {
        self.stage.phase()
    }

    /// The action that is asked of the caller in this state.
    pub open spec fn pending(self) -> Action {
        match self.stage {
            Stage::PreparingEnvironment => if self.policy.load_environment {
                Action::LoadEnvironment
            } else {
                Action::SeedEnvironment
            },
            Stage::FirstRender => Action::Render,
            Stage::PreparingAgent => if self.policy.load_agent {
                Action::LoadAgent
            } else {
                Action::SeedAgent
            },
            Stage::CheckingExit => Action::EvaluateExit,
            Stage::Stepping => Action::Step,
            Stage::ResettingEnvironment => Action::ResetEnvironment,
            Stage::ResettingAgent => Action::ResetAgent,
            Stage::Rendering => Action::Render,
            Stage::Pacing => Action::Pace,
            Stage::StoringAgent => Action::StoreAgent,
            Stage::StoringEnvironment => Action::StoreEnvironment,
            Stage::ClosingAgent => Action::CloseAgent,
            Stage::ClosingEnvironment => Action::CloseEnvironment,
            Stage::ClosingVisualiser => Action::CloseVisualiser,
            Stage::Terminated => Action::Stop,
        }
    }

    /// Why the event cannot be taken in this state, if it cannot. The exit
    /// condition is answered by its value, a step by what the environment says
    /// of the episode, every other action by its completion; any action may
    /// fail.
    pub open spec fn refusal(self, event: Event) -> Option<DriverError> {
        if self.stage == Stage::Terminated {
            Some(DriverError::Terminated)
        } else if event == Event::Failed {
            None
        } else {
            match self.stage {
                Stage::CheckingExit => if event is ExitEvaluated {
                    None
                } else {
                    Some(DriverError::UnexpectedEvent)
                },
                Stage::Stepping => if event is Stepped {
                    if self.step == u128::MAX || (self.policy.ends_episode(event->done)
                        && self.episode == u128::MAX) {
                        Some(DriverError::CounterOverflow)
                    } else {
                        None
                    }
                } else {
                    Some(DriverError::UnexpectedEvent)
                },
                _ => if event == Event::Completed {
                    None
                } else {
                    Some(DriverError::UnexpectedEvent)
                },
            }
        }
    }

    /// The stage after this one where the action of this one has failed:
    /// nothing more is run or stored, and what is not yet closed is closed.
    pub open spec fn after_failure(self) -> Stage {
        match self.stage {
            Stage::ClosingAgent => Stage::ClosingEnvironment,
            Stage::ClosingEnvironment => if self.policy.visualiser {
                Stage::ClosingVisualiser
            } else {
                Stage::Terminated
            },
            Stage::ClosingVisualiser | Stage::Terminated => Stage::Terminated,
            _ => Stage::ClosingAgent,
        }
    }

    /// The state after an event that can be taken.
    pub open spec fn after(self, event: Event) -> Driver {
        match event {
            Event::Failed => Driver { stage: self.after_failure(), failed: true, ..self },
            Event::ExitEvaluated { exit } => Driver {
                stage: if exit {
                    self.policy.drain_start()
                } else {
                    Stage::Stepping
                },
                ..self
            },
            Event::Stepped { done } => {
                let step = (self.step + 1) as u128;
                if self.policy.ends_episode(done) {
                    Driver {
                        stage: Stage::ResettingEnvironment,
                        episode: (self.episode + 1) as u128,
                        step: 0,
                        done,
                        ..self
                    }
                } else {
                    Driver { stage: self.policy.after_environment(done), step, done, ..self }
                }
            },
            Event::Completed => Driver {
                stage: match self.stage {
                    Stage::PreparingEnvironment => if self.policy.visualiser {
                        Stage::FirstRender
                    } else {
                        Stage::PreparingAgent
                    },
                    Stage::FirstRender => Stage::PreparingAgent,
                    Stage::PreparingAgent => Stage::CheckingExit,
                    Stage::ResettingEnvironment => self.policy.after_environment(self.done),
                    Stage::ResettingAgent => self.policy.after_agent(),
                    Stage::Rendering => Stage::Pacing,
                    Stage::Pacing => Stage::CheckingExit,
                    Stage::StoringAgent => if self.policy.store_environment {
                        Stage::StoringEnvironment
                    } else {
                        Stage::ClosingAgent
                    },
                    Stage::StoringEnvironment => Stage::ClosingAgent,
                    Stage::ClosingAgent => Stage::ClosingEnvironment,
                    Stage::ClosingEnvironment => if self.policy.visualiser {
                        Stage::ClosingVisualiser
                    } else {
                        Stage::Terminated
                    },
                    Stage::ClosingVisualiser => Stage::Terminated,
                    _ => self.stage,
                },
                ..self
            },
        }
    }

    /// The state after an event: the state as it is where the event cannot be
    /// taken.
    pub open spec fn advanced(self, event: Event) -> Driver {
        if self.refusal(event) is Some {
            self
        } else {
            self.after(event)
        }
    }

    /// Starts a run. The first thing asked for is the environment: see
    /// [`Driver::next_action`].
    pub fn new(policy: Policy) -> (driver: Driver)
        ensures
            driver == Driver::initial(policy),
    {
        Driver {
            policy,
            stage: Stage::PreparingEnvironment,
            episode: 0,
            step: 0,
            done: false,
            failed: false,
        }
    }

    /// The action that is asked of the caller now.
    pub fn next_action(&self) -> (action: Action)
        ensures
            action == self.pending(),
    {
        match self.stage {
            Stage::PreparingEnvironment => if self.policy.load_environment {
                Action::LoadEnvironment
            } else {
                Action::SeedEnvironment
            },
            Stage::FirstRender => Action::Render,
            Stage::PreparingAgent => if self.policy.load_agent {
                Action::LoadAgent
            } else {
                Action::SeedAgent
            },
            Stage::CheckingExit => Action::EvaluateExit,
            Stage::Stepping => Action::Step,
            Stage::ResettingEnvironment => Action::ResetEnvironment,
            Stage::ResettingAgent => Action::ResetAgent,
            Stage::Rendering => Action::Render,
            Stage::Pacing => Action::Pace,
            Stage::StoringAgent => Action::StoreAgent,
            Stage::StoringEnvironment => Action::StoreEnvironment,
            Stage::ClosingAgent => Action::CloseAgent,
            Stage::ClosingEnvironment => Action::CloseEnvironment,
            Stage::ClosingVisualiser => Action::CloseVisualiser,
            Stage::Terminated => Action::Stop,
        }
    }

    /// The phase of the run.
    pub fn current_phase(&self) -> (phase: Phase)
        ensures
            phase == self.phase(),
    {
        match self.stage {
            Stage::PreparingEnvironment | Stage::FirstRender | Stage::PreparingAgent =>
                Phase::Initializing,
            Stage::CheckingExit
            | Stage::Stepping
            | Stage::ResettingEnvironment
            | Stage::ResettingAgent
            | Stage::Rendering
            | Stage::Pacing => Phase::Running,
            Stage::StoringAgent
            | Stage::StoringEnvironment
            | Stage::ClosingAgent
            | Stage::ClosingEnvironment
            | Stage::ClosingVisualiser => Phase::Draining,
            Stage::Terminated => Phase::Terminated,
        }
    }

    /// The stage at which draining begins.
    fn first_drain_stage(&self) -> (stage: Stage)
        ensures
            stage == self.policy.drain_start(),
    {
        if self.policy.store_agent {
            Stage::StoringAgent
        } else if self.policy.store_environment {
            Stage::StoringEnvironment
        } else {
            Stage::ClosingAgent
        }
    }

    /// The stage after the agent is dealt with at the end of a step.
    fn stage_after_agent(&self) -> (stage: Stage)
        ensures
            stage == self.policy.after_agent(),
    {
        if self.policy.visualiser {
            Stage::Rendering
        } else {
            Stage::CheckingExit
        }
    }

    /// The stage after the environment is dealt with at the end of a step.
    fn stage_after_environment(&self, done: bool) -> (stage: Stage)
        ensures
            stage == self.policy.after_environment(done),
    {
        if self.policy.reset_agent_on_done && done {
            Stage::ResettingAgent
        } else {
            self.stage_after_agent()
        }
    }

    /// The stage that follows the closing of the environment.
    fn stage_after_closing_environment(&self) -> (stage: Stage)
        ensures
            stage == if self.policy.visualiser {
                Stage::ClosingVisualiser
            } else {
                Stage::Terminated
            },
    {
        if self.policy.visualiser {
            Stage::ClosingVisualiser
        } else {
            Stage::Terminated
        }
    }

    /// Takes what the caller tells of the action that was asked for, and asks
    /// for the next. Where the event cannot be taken the state stays as it is.
    ///
    /// While the run is running the exit condition is evaluated before every
    /// step. After a step the episode ends if the environment is done and is to
    /// be reset then, and only then: the number of the episode goes up by one,
    /// the steps are counted from zero again and the environment is reset.
    /// Otherwise the observation of the step is the next one. The agent is
    /// reset if the environment is done and the agent is to be reset then. With
    /// a visualiser the environment is then shown and the run pauses. When the
    /// exit condition holds, the agent and the environment are stored, if they
    /// are to be, and agent, environment and visualiser are closed, in that
    /// order. Once an action has failed nothing more is run or stored, but
    /// whatever is not yet closed is still closed.
    pub fn advance(&mut self, event: Event) -> (next: Result<Action, DriverError>)
        ensures
            *final(self) == old(self).advanced(event),
            match next {
                Ok(action) => old(self).refusal(event) is None && action == final(self).pending(),
                Err(error) => old(self).refusal(event) == Some(error),
            },
            final(self).phase().rank() >= old(self).phase().rank(),
            final(self).policy == old(self).policy,
            final(self).failed == (old(self).failed || (event == Event::Failed && old(self).stage
                != Stage::Terminated)),
    {
        if self.stage == Stage::Terminated {
            return Err(DriverError::Terminated);
        }
        match event {
            Event::Failed => {
                self.failed = true;
                self.stage = match self.stage {
                    Stage::ClosingAgent => Stage::ClosingEnvironment,
                    Stage::ClosingEnvironment => self.stage_after_closing_environment(),
                    Stage::ClosingVisualiser => Stage::Terminated,
                    _ => Stage::ClosingAgent,
                };
            },
            Event::ExitEvaluated { exit } => {
                if self.stage != Stage::CheckingExit {
                    return Err(DriverError::UnexpectedEvent);
                }
                self.stage = if exit {
                    self.first_drain_stage()
                } else {
                    Stage::Stepping
                };
            },
            Event::Stepped { done } => {
                if self.stage != Stage::Stepping {
                    return Err(DriverError::UnexpectedEvent);
                }
                if self.step == u128::MAX {
                    return Err(DriverError::CounterOverflow);
                }
                let step: u128 = self.step + 1;
                if self.policy.reset_environment_on_done && done {
                    if self.episode == u128::MAX {
                        return Err(DriverError::CounterOverflow);
                    }
                    self.step = 0;
                    self.episode = self.episode + 1;
                    self.done = done;
                    self.stage = Stage::ResettingEnvironment;
                } else {
                    self.step = step;
                    self.done = done;
                    self.stage = self.stage_after_environment(done);
                }
            },
            Event::Completed => {
                self.stage = match self.stage {
                    Stage::PreparingEnvironment => if self.policy.visualiser {
                        Stage::FirstRender
                    } else {
                        Stage::PreparingAgent
                    },
                    Stage::FirstRender => Stage::PreparingAgent,
                    Stage::PreparingAgent => Stage::CheckingExit,
                    Stage::ResettingEnvironment => self.stage_after_environment(self.done),
                    Stage::ResettingAgent => self.stage_after_agent(),
                    Stage::Rendering => Stage::Pacing,
                    Stage::Pacing => Stage::CheckingExit,
                    Stage::StoringAgent => if self.policy.store_environment {
                        Stage::StoringEnvironment
                    } else {
                        Stage::ClosingAgent
                    },
                    Stage::StoringEnvironment => Stage::ClosingAgent,
                    Stage::ClosingAgent => Stage::ClosingEnvironment,
                    Stage::ClosingEnvironment => self.stage_after_closing_environment(),
                    Stage::ClosingVisualiser => Stage::Terminated,
                    _ => {
                        return Err(DriverError::UnexpectedEvent);
                    },
                };
            },
        }
        Ok(self.next_action())
    }
}

// Laws

/// What the driver is told in a run in which no action fails, the environment
/// is done after every step, and the exit condition holds from the episode
/// `budget` on.
pub open spec fn reply(driver: Driver, budget: u128) -> Event {
    match driver.pending() {
        Action::EvaluateExit => Event::ExitEvaluated { exit: driver.episode >= budget },
        Action::Step => Event::Stepped { done: true },
        _ => Event::Completed,
    }
}

/// The state of such a run after the given number of events.
pub open spec fn run(driver: Driver, budget: u128, events: nat) -> Driver
    decreases events,
{
    if events == 0 {
        driver
    } else {
        run(driver.advanced(reply(driver, budget)), budget, (events - 1) as nat)
    }
}

/// The number of times that the environment is reset at the end of an episode
/// in the given number of events of such a run.
pub open spec fn resets(driver: Driver, budget: u128, events: nat) -> nat
    decreases events,
{
    if events == 0 {
        0
    } else {
        let now: nat = if driver.pending() == Action::ResetEnvironment {
            1
        } else {
            0
        };
        now + resets(driver.advanced(reply(driver, budget)), budget, (events - 1) as nat)
    }
}

impl Policy {
    /// The number of events of the initialisation.
    pub open spec fn events_to_initialise(self) -> nat {
        if self.visualiser {
            3
        } else {
            2
        }
    }

    /// The number of events of one pass through the loop in which the episode
    /// ends.
    pub open spec fn events_of_episode(self) -> nat {
        (3 + if self.reset_agent_on_done {
            1nat
        } else {
            0nat
        } + if self.visualiser {
            2nat
        } else {
            0nat
        }) as nat
    }

    /// The number of events of the given number of such passes.
    pub open spec fn events_of_episodes(self, episodes: nat) -> nat
        decreases episodes,
    {
        if episodes == 0 {
            0
        } else {
            self.events_of_episode() + self.events_of_episodes((episodes - 1) as nat)
        }
    }

    /// The number of events from the evaluation of the exit condition that
    /// holds to the end.
    pub open spec fn events_to_drain(self) -> nat {
        (3 + if self.store_agent {
            1nat
        } else {
            0nat
        } + if self.store_environment {
            1nat
        } else {
            0nat
        } + if self.visualiser {
            1nat
        } else {
            0nat
        }) as nat
    }

    /// The number of events of a whole run of `budget` episodes.
    pub open spec fn events_of_run(self, budget: u128) -> nat {
        self.events_to_initialise() + self.events_of_episodes(budget as nat)
            + self.events_to_drain()
    }
}

/// A run of `m + n` events is a run of `m` events followed by one of `n`.
pub proof fn lemma_run_split(driver: Driver, budget: u128, m: nat, n: nat)
    ensures
        run(driver, budget, m + n) == run(run(driver, budget, m), budget, n),
        resets(driver, budget, m + n) == resets(driver, budget, m) + resets(
            run(driver, budget, m),
            budget,
            n,
        ),
    decreases m,
{
    if m > 0 {
        lemma_run_split(driver.advanced(reply(driver, budget)), budget, (m - 1) as nat, n);
    }
}

/// A terminated run stays as it is, and resets nothing.
pub proof fn lemma_terminated_stays(driver: Driver, budget: u128, events: nat)
    requires
        driver.stage == Stage::Terminated,
    ensures
        run(driver, budget, events) == driver,
        resets(driver, budget, events) == 0,
    decreases events,
{
    if events > 0 {
        lemma_terminated_stays(driver, budget, (events - 1) as nat);
    }
}

/// The initialisation leads to the first evaluation of the exit condition.
proof fn lemma_initialise(policy: Policy, budget: u128)
    ensures
        run(Driver::initial(policy), budget, policy.events_to_initialise()) == (Driver {
            stage: Stage::CheckingExit,
            ..Driver::initial(policy)
        }),
        resets(Driver::initial(policy), budget, policy.events_to_initialise()) == 0,
{
    reveal_with_fuel(run, 4);
    reveal_with_fuel(resets, 4);
}

/// One pass through the loop ends one episode with one reset.
proof fn lemma_episode(driver: Driver, budget: u128)
    requires
        driver.stage == Stage::CheckingExit,
        driver.policy.reset_environment_on_done,
        driver.step == 0,
        driver.episode < budget,
    ensures
        run(driver, budget, driver.policy.events_of_episode()) == (Driver {
            episode: (driver.episode + 1) as u128,
            done: true,
            ..driver
        }),
        resets(driver, budget, driver.policy.events_of_episode()) == 1,
{
    reveal_with_fuel(run, 7);
    reveal_with_fuel(resets, 7);
}

/// The passes through the loop up to the episode `budget` reset the
/// environment once for each episode that is left.
proof fn lemma_episodes(driver: Driver, budget: u128)
    requires
        driver.stage == Stage::CheckingExit,
        driver.policy.reset_environment_on_done,
        driver.step == 0,
        driver.episode <= budget,
    ensures
        ({
            let events = driver.policy.events_of_episodes((budget - driver.episode) as nat);
            let end = run(driver, budget, events);
            &&& end.stage == Stage::CheckingExit
            &&& end.episode == budget
            &&& end.policy == driver.policy
            &&& end.failed == driver.failed
            &&& resets(driver, budget, events) == budget - driver.episode
        }),
    decreases budget - driver.episode,
{
    if driver.episode < budget {
        let next = Driver { episode: (driver.episode + 1) as u128, done: true, ..driver };
        lemma_episode(driver, budget);
        lemma_episodes(next, budget);
        lemma_run_split(
            driver,
            budget,
            driver.policy.events_of_episode(),
            driver.policy.events_of_episodes((budget - next.episode) as nat),
        );
    }
}

/// Once the exit condition holds, the run is drained without a reset.
proof fn lemma_drain(driver: Driver, budget: u128)
    requires
        driver.stage == Stage::CheckingExit,
        driver.episode >= budget,
    ensures
        run(driver, budget, driver.policy.events_to_drain()) == (Driver {
            stage: Stage::Terminated,
            ..driver
        }),
        resets(driver, budget, driver.policy.events_to_drain()) == 0,
{
    let stored = Driver { stage: Stage::ClosingAgent, ..driver };
    let storing: nat = (1 + if driver.policy.store_agent {
        1nat
    } else {
        0nat
    } + if driver.policy.store_environment {
        1nat
    } else {
        0nat
    }) as nat;
    let closing: nat = if driver.policy.visualiser {
        3
    } else {
        2
    };
    assert(run(driver, budget, storing) == stored && resets(driver, budget, storing) == 0) by {
        reveal_with_fuel(run, 4);
        reveal_with_fuel(resets, 4);
    }
    assert(run(stored, budget, closing) == (Driver { stage: Stage::Terminated, ..driver })
        && resets(stored, budget, closing) == 0) by {
        reveal_with_fuel(run, 4);
        reveal_with_fuel(resets, 4);
    }
    lemma_run_split(driver, budget, storing, closing);
}

/// Termination: where the environment is reset when it is done, is done after
/// every step, and the exit condition holds from the episode `budget` on, a
/// run in which nothing fails ends after `budget` episodes. It is terminated
/// after [`Policy::events_of_run`] events, has reset the environment at the end
/// of an episode exactly `budget` times by then, and resets it no more.
pub proof fn law_run_ends_after_budget(policy: Policy, budget: u128, later: nat)
    requires
        policy.reset_environment_on_done,
    ensures
        ({
            let start = Driver::initial(policy);
            let events = policy.events_of_run(budget);
            &&& run(start, budget, events).stage == Stage::Terminated
            &&& run(start, budget, events).episode == budget
            &&& !run(start, budget, events).failed
            &&& resets(start, budget, events) == budget
            &&& resets(start, budget, events + later) == budget
        }),
{
    let start = Driver::initial(policy);
    let ready = Driver { stage: Stage::CheckingExit, ..start };
    let first = policy.events_to_initialise();
    let second = policy.events_of_episodes(budget as nat);
    let third = policy.events_to_drain();
    lemma_initialise(policy, budget);
    lemma_episodes(ready, budget);
    let looped = run(ready, budget, second);
    lemma_drain(looped, budget);
    lemma_run_split(start, budget, first, second);
    lemma_run_split(start, budget, first + second, third);
    let end = run(start, budget, first + second + third);
    lemma_terminated_stays(end, budget, later);
    lemma_run_split(start, budget, first + second + third, later);
}

/// A step ends the episode if and only if the environment is done and is to be
/// reset then. If it does, the environment is reset next, the number of the
/// episode goes up by one and the steps are counted from zero; if it does not,
/// the environment is not reset, the episode keeps its number and the step is
/// counted, however many steps the episode has.
pub proof fn law_step_counts(driver: Driver, done: bool)
    requires
        driver.stage == Stage::Stepping,
        driver.refusal(Event::Stepped { done }) is None,
    ensures
        ({
            let next = driver.advanced(Event::Stepped { done });
            if driver.policy.reset_environment_on_done && done {
                &&& next.pending() == Action::ResetEnvironment
                &&& next.episode == driver.episode + 1
                &&& next.step == 0
            } else {
                &&& next.pending() != Action::ResetEnvironment
                &&& next.episode == driver.episode
                &&& next.step == driver.step + 1
            }
        }),
{
}

/// Whatever the caller tells the driver, a run never goes back to an earlier
/// phase, and once an action has failed or the exit condition has held, nothing
/// more is run.
pub proof fn law_phases_in_order(driver: Driver, event: Event)
    ensures
        driver.advanced(event).phase().rank() >= driver.phase().rank(),
        driver.phase() == Phase::Draining ==> driver.advanced(event).phase() != Phase::Running,
        event == Event::Failed && driver.phase() != Phase::Terminated ==> driver.advanced(
            event,
        ).phase().rank() >= Phase::Draining.rank(),
{
}

/// Closing is not left out: from any state that is not terminated, a run in
/// which every action is answered at once, by completion or by failure, closes
/// the agent and the environment, and the visualiser if there is one, in that
/// order, before it is terminated. The law is stated for the stages of
/// draining, which every run reaches when its exit condition holds or an
/// action fails.
pub proof fn law_closing_in_order(driver: Driver, first: Event, second: Event, third: Event)
    requires
        driver.stage == Stage::ClosingAgent,
        first == Event::Completed || first == Event::Failed,
        second == Event::Completed || second == Event::Failed,
        third == Event::Completed || third == Event::Failed,
    ensures
        driver.pending() == Action::CloseAgent,
        driver.advanced(first).pending() == Action::CloseEnvironment,
        driver.policy.visualiser ==> driver.advanced(first).advanced(second).pending()
            == Action::CloseVisualiser && driver.advanced(first).advanced(second).advanced(
            third,
        ).stage == Stage::Terminated,
        !driver.policy.visualiser ==> driver.advanced(first).advanced(second).stage
            == Stage::Terminated,
{
}

} // verus!
