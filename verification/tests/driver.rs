use gymnarium_application::availables::SelectedExitCondition;
use gymnarium_application::runs::{
    default_pause_millis, Action, Driver, DriverError, Event, Phase, Policy, RunOptions, Stage,
    DEFAULT_STEPS_PER_SECOND,
};

fn options() -> RunOptions {
    RunOptions {
        seed: None,
        reset_environment_on_done: true,
        reset_agent_on_done: false,
        environment_load_path: None,
        environment_store_path: None,
        agent_load_path: None,
        agent_store_path: None,
    }
}

fn plain(visualiser: bool) -> Policy {
    Policy {
        load_environment: false,
        load_agent: false,
        store_environment: false,
        store_agent: false,
        reset_environment_on_done: true,
        reset_agent_on_done: false,
        visualiser,
    }
}

/// Runs the driver to its end and gives the actions it asked for. The
/// environment is done after every `episode_length` steps, and the run is to
/// end once `budget` episodes have ended.
fn run(policy: Policy, budget: u128, episode_length: u128) -> (Vec<Action>, Driver) {
    let mut driver = Driver::new(policy);
    let mut actions = Vec::new();
    let mut steps_in_episode = 0;
    let mut action = driver.next_action();
    while action != Action::Stop {
        actions.push(action);
        assert!(actions.len() < 100_000);
        let event = match action {
            Action::EvaluateExit => Event::ExitEvaluated {
                exit: driver.episode >= budget,
            },
            Action::Step => {
                steps_in_episode += 1;
                Event::Stepped {
                    done: steps_in_episode % episode_length == 0,
                }
            }
            _ => Event::Completed,
        };
        action = driver.advance(event).unwrap();
    }
    (actions, driver)
}

fn count(actions: &[Action], wanted: Action) -> usize {
    actions.iter().filter(|action| **action == wanted).count()
}

#[test]
fn options_make_the_policy_of_a_run() {
    let mut given = options();
    assert_eq!(given.policy(false), plain(false));
    assert_eq!(given.policy(true), plain(true));
    given.reset_environment_on_done = false;
    given.reset_agent_on_done = true;
    given.environment_load_path = Some("environment.json".to_string());
    given.agent_store_path = Some("agent.bin".to_string());
    assert_eq!(
        given.policy(true),
        Policy {
            load_environment: true,
            load_agent: false,
            store_environment: false,
            store_agent: true,
            reset_environment_on_done: false,
            reset_agent_on_done: true,
            visualiser: true,
        }
    );
}

#[test]
fn the_default_pause_is_a_thirtieth_of_a_second() {
    assert_eq!(DEFAULT_STEPS_PER_SECOND, 30);
    assert_eq!(default_pause_millis(), 33);
}

#[test]
fn a_new_driver_asks_for_the_environment() {
    let driver = Driver::new(plain(false));
    assert_eq!(driver.stage, Stage::PreparingEnvironment);
    assert_eq!(driver.current_phase(), Phase::Initializing);
    assert_eq!(driver.next_action(), Action::SeedEnvironment);
    assert_eq!(
        (driver.episode, driver.step, driver.done, driver.failed),
        (0, 0, false, false)
    );
    let driver = Driver::new(Policy {
        load_environment: true,
        ..plain(false)
    });
    assert_eq!(driver.next_action(), Action::LoadEnvironment);
}

#[test]
fn a_run_without_visualiser_asks_for_its_actions_in_order() {
    let (actions, driver) = run(plain(false), 2, 1);
    assert_eq!(
        actions,
        vec![
            Action::SeedEnvironment,
            Action::SeedAgent,
            Action::EvaluateExit,
            Action::Step,
            Action::ResetEnvironment,
            Action::EvaluateExit,
            Action::Step,
            Action::ResetEnvironment,
            Action::EvaluateExit,
            Action::CloseAgent,
            Action::CloseEnvironment,
        ]
    );
    assert_eq!(driver.stage, Stage::Terminated);
    assert_eq!(driver.current_phase(), Phase::Terminated);
    assert_eq!(driver.episode, 2);
    assert!(!driver.failed);
}

#[test]
fn a_run_with_everything_asks_for_its_actions_in_order() {
    let policy = Policy {
        load_environment: true,
        load_agent: true,
        store_environment: true,
        store_agent: true,
        reset_environment_on_done: true,
        reset_agent_on_done: true,
        visualiser: true,
    };
    let (actions, driver) = run(policy, 1, 2);
    assert_eq!(
        actions,
        vec![
            Action::LoadEnvironment,
            Action::Render,
            Action::LoadAgent,
            Action::EvaluateExit,
            Action::Step,
            Action::Render,
            Action::Pace,
            Action::EvaluateExit,
            Action::Step,
            Action::ResetEnvironment,
            Action::ResetAgent,
            Action::Render,
            Action::Pace,
            Action::EvaluateExit,
            Action::StoreAgent,
            Action::StoreEnvironment,
            Action::CloseAgent,
            Action::CloseEnvironment,
            Action::CloseVisualiser,
        ]
    );
    assert_eq!(driver.episode, 1);
    assert_eq!(driver.step, 0);
}

#[test]
fn a_run_resets_the_environment_once_for_each_episode() {
    for budget in [0u128, 1, 2, 5, 20] {
        for visualiser in [false, true] {
            for reset_agent_on_done in [false, true] {
                let policy = Policy {
                    reset_agent_on_done,
                    ..plain(visualiser)
                };
                let (actions, driver) = run(policy, budget, 1);
                assert_eq!(count(&actions, Action::ResetEnvironment) as u128, budget);
                assert_eq!(count(&actions, Action::Step) as u128, budget);
                assert_eq!(count(&actions, Action::EvaluateExit) as u128, budget + 1);
                assert_eq!(
                    count(&actions, Action::ResetAgent) as u128,
                    if reset_agent_on_done { budget } else { 0 }
                );
                assert_eq!(driver.episode, budget);
                assert_eq!(driver.stage, Stage::Terminated);
                let events = (if visualiser { 3 } else { 2 })
                    + budget as usize
                        * (3 + usize::from(reset_agent_on_done) + if visualiser { 2 } else { 0 })
                    + 3
                    + usize::from(visualiser);
                assert_eq!(actions.len(), events);
            }
        }
    }
}

#[test]
fn an_episode_has_as_many_steps_as_the_environment_takes() {
    let (actions, driver) = run(plain(false), 3, 4);
    assert_eq!(count(&actions, Action::Step), 12);
    assert_eq!(count(&actions, Action::ResetEnvironment), 3);
    assert_eq!(driver.episode, 3);
}

#[test]
fn an_environment_that_is_not_reset_when_done_goes_on() {
    let policy = Policy {
        reset_environment_on_done: false,
        reset_agent_on_done: true,
        ..plain(false)
    };
    let mut driver = Driver::new(policy);
    assert_eq!(driver.advance(Event::Completed), Ok(Action::SeedAgent));
    assert_eq!(driver.advance(Event::Completed), Ok(Action::EvaluateExit));
    assert_eq!(
        driver.advance(Event::ExitEvaluated { exit: false }),
        Ok(Action::Step)
    );
    assert_eq!(
        driver.advance(Event::Stepped { done: true }),
        Ok(Action::ResetAgent)
    );
    assert_eq!((driver.episode, driver.step, driver.done), (0, 1, true));
    assert_eq!(driver.advance(Event::Completed), Ok(Action::EvaluateExit));
    assert_eq!(
        driver.advance(Event::ExitEvaluated { exit: false }),
        Ok(Action::Step)
    );
    assert_eq!(
        driver.advance(Event::Stepped { done: false }),
        Ok(Action::EvaluateExit)
    );
    assert_eq!((driver.episode, driver.step, driver.done), (0, 2, false));
}

#[test]
fn an_episode_goes_on_for_as_many_steps_as_the_environment_is_not_done() {
    for visualiser in [false, true] {
        let policy = RunOptions {
            reset_environment_on_done: false,
            ..options()
        }
        .policy(visualiser);
        let mut driver = Driver::new(policy);
        let mut actions = Vec::new();
        let mut steps: u128 = 0;
        let mut action = driver.next_action();
        while action != Action::Stop {
            actions.push(action);
            let event = match action {
                Action::EvaluateExit => {
                    assert_eq!((driver.episode, driver.step), (0, steps));
                    Event::ExitEvaluated {
                        exit: driver.step >= 2500,
                    }
                }
                Action::Step => {
                    steps += 1;
                    Event::Stepped {
                        done: steps % 7 == 0,
                    }
                }
                _ => Event::Completed,
            };
            action = driver.advance(event).unwrap();
        }
        assert_eq!(steps, 2500);
        assert_eq!(count(&actions, Action::Step), 2500);
        assert_eq!(count(&actions, Action::ResetEnvironment), 0);
        assert_eq!(count(&actions, Action::SeedEnvironment), 1);
        assert_eq!((driver.episode, driver.step), (0, 2500));
    }
}

#[test]
fn the_environment_is_reset_only_when_it_is_done_and_to_be_reset_then() {
    for reset_environment_on_done in [false, true] {
        for done in [false, true] {
            for step in [0u128, 1, 1999, 2000, 2001, 1_000_000] {
                let policy = Policy {
                    reset_environment_on_done,
                    ..plain(false)
                };
                let mut driver = Driver {
                    stage: Stage::Stepping,
                    step,
                    episode: 3,
                    ..Driver::new(policy)
                };
                let next = driver.advance(Event::Stepped { done }).unwrap();
                if reset_environment_on_done && done {
                    assert_eq!(next, Action::ResetEnvironment);
                    assert_eq!((driver.episode, driver.step), (4, 0));
                } else {
                    assert_eq!(next, Action::EvaluateExit);
                    assert_eq!((driver.episode, driver.step), (3, step + 1));
                }
                assert_eq!(driver.done, done);
            }
        }
    }
}

#[test]
fn the_exit_condition_is_evaluated_before_the_first_step() {
    let (actions, driver) = run(plain(true), 0, 1);
    assert_eq!(
        actions,
        vec![
            Action::SeedEnvironment,
            Action::Render,
            Action::SeedAgent,
            Action::EvaluateExit,
            Action::CloseAgent,
            Action::CloseEnvironment,
            Action::CloseVisualiser,
        ]
    );
    assert_eq!(driver.episode, 0);
}

#[test]
fn what_is_to_be_stored_is_stored_before_anything_is_closed() {
    let policy = Policy {
        store_environment: true,
        ..plain(false)
    };
    let (actions, _) = run(policy, 0, 1);
    assert_eq!(
        actions[3..],
        [
            Action::StoreEnvironment,
            Action::CloseAgent,
            Action::CloseEnvironment
        ]
    );
    let policy = Policy {
        store_agent: true,
        ..plain(false)
    };
    let (actions, _) = run(policy, 0, 1);
    assert_eq!(
        actions[3..],
        [
            Action::StoreAgent,
            Action::CloseAgent,
            Action::CloseEnvironment
        ]
    );
}

#[test]
fn a_terminated_run_permits_nothing_more() {
    let (_, mut driver) = run(plain(false), 1, 1);
    let terminated = driver;
    for event in [
        Event::Completed,
        Event::Failed,
        Event::ExitEvaluated { exit: false },
        Event::Stepped { done: true },
    ] {
        assert_eq!(driver.advance(event), Err(DriverError::Terminated));
        assert_eq!(driver, terminated);
        assert_eq!(driver.next_action(), Action::Stop);
    }
}

#[test]
fn an_event_that_does_not_answer_the_action_is_refused() {
    let mut driver = Driver::new(plain(false));
    let before = driver;
    assert_eq!(
        driver.advance(Event::Stepped { done: true }),
        Err(DriverError::UnexpectedEvent)
    );
    assert_eq!(
        driver.advance(Event::ExitEvaluated { exit: true }),
        Err(DriverError::UnexpectedEvent)
    );
    assert_eq!(driver, before);
    driver.stage = Stage::CheckingExit;
    assert_eq!(
        driver.advance(Event::Completed),
        Err(DriverError::UnexpectedEvent)
    );
    assert_eq!(
        driver.advance(Event::Stepped { done: false }),
        Err(DriverError::UnexpectedEvent)
    );
    driver.stage = Stage::Stepping;
    assert_eq!(
        driver.advance(Event::Completed),
        Err(DriverError::UnexpectedEvent)
    );
    assert_eq!(
        driver.advance(Event::ExitEvaluated { exit: false }),
        Err(DriverError::UnexpectedEvent)
    );
    assert_eq!(driver.stage, Stage::Stepping);
}

#[test]
fn a_counter_that_would_overflow_is_refused() {
    let mut driver = Driver {
        stage: Stage::Stepping,
        step: u128::MAX,
        ..Driver::new(plain(false))
    };
    let before = driver;
    assert_eq!(
        driver.advance(Event::Stepped { done: false }),
        Err(DriverError::CounterOverflow)
    );
    assert_eq!(driver, before);
    let mut driver = Driver {
        stage: Stage::Stepping,
        episode: u128::MAX,
        ..Driver::new(plain(false))
    };
    assert_eq!(
        driver.advance(Event::Stepped { done: true }),
        Err(DriverError::CounterOverflow)
    );
    assert_eq!(
        driver.advance(Event::Stepped { done: false }),
        Ok(Action::EvaluateExit)
    );
    assert_eq!((driver.episode, driver.step), (u128::MAX, 1));
}

#[test]
fn after_a_failure_everything_is_still_closed() {
    for stage in [
        Stage::PreparingEnvironment,
        Stage::FirstRender,
        Stage::PreparingAgent,
        Stage::CheckingExit,
        Stage::Stepping,
        Stage::ResettingEnvironment,
        Stage::ResettingAgent,
        Stage::Rendering,
        Stage::Pacing,
        Stage::StoringAgent,
        Stage::StoringEnvironment,
    ] {
        let policy = Policy {
            store_agent: true,
            store_environment: true,
            ..plain(true)
        };
        let mut driver = Driver {
            stage,
            ..Driver::new(policy)
        };
        assert_eq!(driver.advance(Event::Failed), Ok(Action::CloseAgent));
        assert!(driver.failed);
        assert_eq!(driver.current_phase(), Phase::Draining);
        assert_eq!(
            driver.advance(Event::Completed),
            Ok(Action::CloseEnvironment)
        );
        assert_eq!(
            driver.advance(Event::Completed),
            Ok(Action::CloseVisualiser)
        );
        assert_eq!(driver.advance(Event::Completed), Ok(Action::Stop));
        assert!(driver.failed);
    }
}

#[test]
fn a_failure_to_close_does_not_keep_the_rest_from_being_closed() {
    let mut driver = Driver {
        stage: Stage::ClosingAgent,
        ..Driver::new(plain(true))
    };
    assert_eq!(driver.advance(Event::Failed), Ok(Action::CloseEnvironment));
    assert_eq!(driver.advance(Event::Failed), Ok(Action::CloseVisualiser));
    assert_eq!(driver.advance(Event::Failed), Ok(Action::Stop));
    assert!(driver.failed);
    assert_eq!(driver.stage, Stage::Terminated);
    let mut driver = Driver {
        stage: Stage::ClosingAgent,
        ..Driver::new(plain(false))
    };
    assert_eq!(
        driver.advance(Event::Completed),
        Ok(Action::CloseEnvironment)
    );
    assert_eq!(driver.advance(Event::Failed), Ok(Action::Stop));
    assert!(driver.failed);
}

#[test]
fn a_run_never_goes_back_to_an_earlier_phase() {
    fn rank(phase: Phase) -> u8 {
        match phase {
            Phase::Initializing => 0,
            Phase::Running => 1,
            Phase::Draining => 2,
            Phase::Terminated => 3,
        }
    }
    let stages = [
        Stage::PreparingEnvironment,
        Stage::FirstRender,
        Stage::PreparingAgent,
        Stage::CheckingExit,
        Stage::Stepping,
        Stage::ResettingEnvironment,
        Stage::ResettingAgent,
        Stage::Rendering,
        Stage::Pacing,
        Stage::StoringAgent,
        Stage::StoringEnvironment,
        Stage::ClosingAgent,
        Stage::ClosingEnvironment,
        Stage::ClosingVisualiser,
        Stage::Terminated,
    ];
    let events = [
        Event::Completed,
        Event::Failed,
        Event::ExitEvaluated { exit: false },
        Event::ExitEvaluated { exit: true },
        Event::Stepped { done: false },
        Event::Stepped { done: true },
    ];
    for stage in stages {
        for event in events {
            for visualiser in [false, true] {
                let mut driver = Driver {
                    stage,
                    ..Driver::new(plain(visualiser))
                };
                let before = driver.current_phase();
                let _ = driver.advance(event);
                assert!(rank(driver.current_phase()) >= rank(before));
            }
        }
    }
}

#[test]
fn a_number_of_episodes_ends_a_run() {
    let condition = SelectedExitCondition::EpisodesSimulated {
        count_of_episodes: 3,
    };
    assert!(!condition.should_exit(None, 0, 0));
    assert!(!condition.should_exit(None, 2, 1_000_000));
    assert!(condition.should_exit(None, 3, 0));
    assert!(condition.should_exit(None, 4, 0));
    assert!(!condition.should_exit(Some(true), 2, 0));
    assert!(condition.should_exit(Some(true), 3, 0));
    assert!(condition.should_exit(Some(false), 0, 0));
    let condition = SelectedExitCondition::EpisodesSimulated {
        count_of_episodes: 0,
    };
    assert!(condition.should_exit(None, 0, 0));
}

#[test]
fn a_closed_visualiser_ends_a_run() {
    let condition = SelectedExitCondition::VisualiserClosed;
    assert!(!condition.should_exit(Some(true), 0, 0));
    assert!(!condition.should_exit(Some(true), u128::MAX, u128::MAX));
    assert!(condition.should_exit(Some(false), 0, 0));
}
