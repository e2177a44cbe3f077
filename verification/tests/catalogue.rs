use std::str::FromStr;

use gymnarium_application::availables::{
    Available, AvailableAgent, AvailableConfiguration, AvailableEnvironment,
    AvailableExitCondition, AvailableSupportsAvailable, AvailableVisualiser, SelectError, Selected,
    SelectedAgent, SelectedEnvironment, SelectedExitCondition, SelectedVisualiser,
};
use gymnarium_application::configuration::{split_config, Configuration};

fn cases(name: &str) -> Vec<String> {
    let mut mixed = String::new();
    for (index, character) in name.chars().enumerate() {
        if index % 2 == 0 {
            mixed.extend(character.to_uppercase());
        } else {
            mixed.extend(character.to_lowercase());
        }
    }
    vec![
        name.to_string(),
        name.to_uppercase(),
        name.to_lowercase(),
        mixed,
    ]
}

#[test]
fn every_category_lists_its_variants_in_order() {
    assert_eq!(
        AvailableEnvironment::values(),
        vec![
            AvailableEnvironment::GymMountainCar,
            AvailableEnvironment::CodeBulletAiLearnsToDrive
        ]
    );
    assert_eq!(
        AvailableAgent::values(),
        vec![AvailableAgent::Random, AvailableAgent::Input]
    );
    assert_eq!(
        AvailableVisualiser::values(),
        vec![
            AvailableVisualiser::NoVisualiser,
            AvailableVisualiser::PistonIn2d
        ]
    );
    assert_eq!(
        AvailableExitCondition::values(),
        vec![
            AvailableExitCondition::EpisodesSimulated,
            AvailableExitCondition::VisualiserClosed
        ]
    );
}

#[test]
fn every_category_has_its_headline() {
    assert_eq!(
        AvailableEnvironment::category_headline(),
        "Available Environments"
    );
    assert_eq!(AvailableAgent::category_headline(), "Available Agents");
    assert_eq!(
        AvailableVisualiser::category_headline(),
        "Available Visualisers"
    );
    assert_eq!(
        AvailableExitCondition::category_headline(),
        "Available Exit Conditions"
    );
}

#[test]
fn every_variant_has_its_three_names() {
    let environment = AvailableEnvironment::GymMountainCar;
    assert_eq!(environment.nice_name(), "Gym MountainCar");
    assert_eq!(environment.long_name(), "gym_mountaincar");
    assert_eq!(environment.short_name(), "g_mc");
    let environment = AvailableEnvironment::CodeBulletAiLearnsToDrive;
    assert_eq!(environment.nice_name(), "Code Bullet AI Learns to DRIVE");
    assert_eq!(environment.long_name(), "code_bullet_ai_learns_to_drive");
    assert_eq!(environment.short_name(), "cb_drive");
    assert_eq!(AvailableAgent::Random.nice_name(), "Random");
    assert_eq!(AvailableAgent::Random.long_name(), "random");
    assert_eq!(AvailableAgent::Random.short_name(), "rand");
    assert_eq!(AvailableAgent::Input.nice_name(), "Input");
    assert_eq!(AvailableAgent::Input.long_name(), "input");
    assert_eq!(AvailableAgent::Input.short_name(), "inp");
    assert_eq!(AvailableVisualiser::NoVisualiser.nice_name(), "None");
    assert_eq!(AvailableVisualiser::NoVisualiser.long_name(), "none");
    assert_eq!(AvailableVisualiser::NoVisualiser.short_name(), "none");
    assert_eq!(AvailableVisualiser::PistonIn2d.nice_name(), "Piston in 2D");
    assert_eq!(AvailableVisualiser::PistonIn2d.long_name(), "piston2d");
    assert_eq!(AvailableVisualiser::PistonIn2d.short_name(), "pi2d");
    assert_eq!(
        AvailableExitCondition::EpisodesSimulated.nice_name(),
        "episodes done simulating"
    );
    assert_eq!(
        AvailableExitCondition::EpisodesSimulated.long_name(),
        "episodes_done_simulating"
    );
    assert_eq!(
        AvailableExitCondition::EpisodesSimulated.short_name(),
        "epsdone"
    );
    assert_eq!(
        AvailableExitCondition::VisualiserClosed.nice_name(),
        "visualiser is closed"
    );
    assert_eq!(
        AvailableExitCondition::VisualiserClosed.long_name(),
        "visualiser_is_closed"
    );
    assert_eq!(
        AvailableExitCondition::VisualiserClosed.short_name(),
        "visclosed"
    );
}

#[test]
fn every_name_of_an_environment_resolves_in_any_case() {
    for variant in AvailableEnvironment::values() {
        for name in [
            variant.nice_name(),
            variant.long_name(),
            variant.short_name(),
        ] {
            for text in cases(name) {
                assert_eq!(
                    AvailableEnvironment::from_str(&text),
                    Ok(variant),
                    "{:?}",
                    text
                );
                assert_eq!(
                    text.parse::<AvailableEnvironment>(),
                    Ok(variant),
                    "{:?}",
                    text
                );
            }
        }
    }
}

#[test]
fn every_name_of_an_agent_resolves_in_any_case() {
    for variant in AvailableAgent::values() {
        for name in [
            variant.nice_name(),
            variant.long_name(),
            variant.short_name(),
        ] {
            for text in cases(name) {
                assert_eq!(AvailableAgent::from_str(&text), Ok(variant), "{:?}", text);
            }
        }
    }
}

#[test]
fn every_name_of_a_visualiser_resolves_in_any_case() {
    for variant in AvailableVisualiser::values() {
        for name in [
            variant.nice_name(),
            variant.long_name(),
            variant.short_name(),
        ] {
            for text in cases(name) {
                assert_eq!(
                    AvailableVisualiser::from_str(&text),
                    Ok(variant),
                    "{:?}",
                    text
                );
            }
        }
    }
}

#[test]
fn every_name_of_an_exit_condition_resolves_in_any_case() {
    for variant in AvailableExitCondition::values() {
        for name in [
            variant.nice_name(),
            variant.long_name(),
            variant.short_name(),
        ] {
            for text in cases(name) {
                assert_eq!(
                    AvailableExitCondition::from_str(&text),
                    Ok(variant),
                    "{:?}",
                    text
                );
            }
        }
    }
}

#[test]
fn a_text_that_is_no_name_is_not_found() {
    assert_eq!(
        AvailableEnvironment::from_str("Chess"),
        Err("Did not find \"chess\" in available environments.".to_string())
    );
    assert_eq!(
        AvailableAgent::from_str("RANDOM "),
        Err("Did not find \"random \" in available agents.".to_string())
    );
    assert_eq!(
        AvailableVisualiser::from_str(""),
        Err("Did not find \"\" in available visualisers.".to_string())
    );
    assert_eq!(
        AvailableExitCondition::from_str("Never"),
        Err("Did not find \"never\" in available exit conditions.".to_string())
    );
    assert_eq!(
        AvailableAgent::from_str("g_mc"),
        Err("Did not find \"g_mc\" in available agents.".to_string())
    );
}

#[test]
fn lookup_lowers_letters_beyond_ascii_as_the_standard_library_does() {
    assert_eq!(
        AvailableAgent::from_str("\u{c9}COLE"),
        Err("Did not find \"\u{e9}cole\" in available agents.".to_string())
    );
    assert_eq!(
        AvailableAgent::from_str("\u{130}NPUT"),
        Err("Did not find \"i\u{307}nput\" in available agents.".to_string())
    );
}

#[test]
fn environments_describe_their_options() {
    assert_eq!(
        AvailableEnvironment::GymMountainCar.available_configurations(),
        vec![AvailableConfiguration {
            name: "goal_velocity".to_string(),
            description: "The velocity which the agent has to have at least when he reaches \
                the flag. Because the velocity never is negative a value of 0.0 is the off-switch \
                for this."
                .to_string(),
            default: "0.0".to_string(),
            data_type: "f64".to_string(),
        }]
    );
    assert_eq!(
        AvailableEnvironment::CodeBulletAiLearnsToDrive.available_configurations(),
        vec![
            AvailableConfiguration {
                name: "sensor_lines_visible".to_string(),
                description: "Whether the given sensor lines should be drawn in the \
                    visualiser. Sometimes it's nice to see what an agent sees."
                    .to_string(),
                default: "false".to_string(),
                data_type: "bool".to_string(),
            },
            AvailableConfiguration {
                name: "track_visible".to_string(),
                description: "Whether the track should be drawn in the visualiser. This set \
                    to false in addition to \"sensor_lines_visible\" to true simulates the view \
                    the agent has."
                    .to_string(),
                default: "true".to_string(),
                data_type: "bool".to_string(),
            },
        ]
    );
}

#[test]
fn agents_have_no_options() {
    assert_eq!(
        AvailableAgent::Random.available_configurations(),
        Vec::new()
    );
    assert_eq!(AvailableAgent::Input.available_configurations(), Vec::new());
}

#[test]
fn visualisers_describe_their_options() {
    assert_eq!(
        AvailableVisualiser::NoVisualiser.available_configurations(),
        Vec::new()
    );
    assert_eq!(
        AvailableVisualiser::PistonIn2d.available_configurations(),
        vec![
            AvailableConfiguration {
                name: "window_title".to_string(),
                description: "Sets the window title.".to_string(),
                default: "Gymnarium Application".to_string(),
                data_type: "String".to_string(),
            },
            AvailableConfiguration {
                name: "window_dimension".to_string(),
                description: "Sets the window dimensions with which it should start. It's \
                    important to specify them with the parentheses and the comma."
                    .to_string(),
                default: "(640, 480)".to_string(),
                data_type: "(u32, u32)".to_string(),
            },
        ]
    );
}

#[test]
fn exit_conditions_describe_their_options() {
    assert_eq!(
        AvailableExitCondition::EpisodesSimulated.available_configurations(),
        vec![AvailableConfiguration {
            name: "count_of_episodes".to_string(),
            description: "The number of episodes to run through before exiting.".to_string(),
            default: "20".to_string(),
            data_type: "u128".to_string(),
        }]
    );
    assert_eq!(
        AvailableExitCondition::VisualiserClosed.available_configurations(),
        Vec::new()
    );
}

#[test]
fn an_empty_configuration_selects_the_defaults() {
    assert_eq!(
        AvailableEnvironment::GymMountainCar.select(Configuration::new()),
        Ok(SelectedEnvironment::GymMountainCar {
            goal_velocity: "0.0".to_string()
        })
    );
    assert_eq!(
        AvailableEnvironment::CodeBulletAiLearnsToDrive.select(Configuration::new()),
        Ok(SelectedEnvironment::CodeBulletAiLearnsToDrive {
            sensor_lines_visible: false,
            track_visible: true
        })
    );
    assert_eq!(
        AvailableAgent::Random.select(Configuration::new()),
        Ok(SelectedAgent::Random)
    );
    assert_eq!(
        AvailableAgent::Input.select(Configuration::new()),
        Ok(SelectedAgent::Input)
    );
    assert_eq!(
        AvailableVisualiser::NoVisualiser.select(Configuration::new()),
        Ok(SelectedVisualiser::NoVisualiser)
    );
    assert_eq!(
        AvailableVisualiser::PistonIn2d.select(Configuration::new()),
        Ok(SelectedVisualiser::PistonIn2d {
            window_title: "Gymnarium Application".to_string(),
            window_dimension: (640, 480)
        })
    );
    assert_eq!(
        AvailableExitCondition::EpisodesSimulated.select(Configuration::new()),
        Ok(SelectedExitCondition::EpisodesSimulated {
            count_of_episodes: 20
        })
    );
    assert_eq!(
        AvailableExitCondition::VisualiserClosed.select(Configuration::new()),
        Ok(SelectedExitCondition::VisualiserClosed)
    );
}

#[test]
fn the_defaults_are_what_the_descriptions_declare() {
    for variant in AvailableEnvironment::values() {
        let mut declared = Configuration::new();
        for option in variant.available_configurations() {
            declared.insert(option.name, option.default);
        }
        assert_eq!(
            variant.select(declared),
            variant.select(Configuration::new())
        );
    }
    for variant in AvailableVisualiser::values() {
        let mut declared = Configuration::new();
        for option in variant.available_configurations() {
            declared.insert(option.name, option.default);
        }
        assert_eq!(
            variant.select(declared),
            variant.select(Configuration::new())
        );
    }
    for variant in AvailableExitCondition::values() {
        let mut declared = Configuration::new();
        for option in variant.available_configurations() {
            declared.insert(option.name, option.default);
        }
        assert_eq!(
            variant.select(declared),
            variant.select(Configuration::new())
        );
    }
}

#[test]
fn a_configuration_sets_the_options_it_names() {
    assert_eq!(
        AvailableEnvironment::GymMountainCar.select(split_config("goal_velocity=-1.5e-3")),
        Ok(SelectedEnvironment::GymMountainCar {
            goal_velocity: "-1.5e-3".to_string()
        })
    );
    assert_eq!(
        AvailableEnvironment::CodeBulletAiLearnsToDrive.select(split_config(
            "track_visible=false;sensor_lines_visible=true"
        )),
        Ok(SelectedEnvironment::CodeBulletAiLearnsToDrive {
            sensor_lines_visible: true,
            track_visible: false
        })
    );
    assert_eq!(
        AvailableEnvironment::CodeBulletAiLearnsToDrive.select(split_config("track_visible=false")),
        Ok(SelectedEnvironment::CodeBulletAiLearnsToDrive {
            sensor_lines_visible: false,
            track_visible: false
        })
    );
    assert_eq!(
        AvailableVisualiser::PistonIn2d.select(split_config(
            "window_title=a\\;b;window_dimension=( 800 ,600)"
        )),
        Ok(SelectedVisualiser::PistonIn2d {
            window_title: "a;b".to_string(),
            window_dimension: (800, 600)
        })
    );
    assert_eq!(
        AvailableVisualiser::PistonIn2d.select(split_config("window_dimension=1,2")),
        Ok(SelectedVisualiser::PistonIn2d {
            window_title: "Gymnarium Application".to_string(),
            window_dimension: (1, 2)
        })
    );
    assert_eq!(
        AvailableExitCondition::EpisodesSimulated.select(split_config("count_of_episodes=+7")),
        Ok(SelectedExitCondition::EpisodesSimulated {
            count_of_episodes: 7
        })
    );
    assert_eq!(
        AvailableExitCondition::EpisodesSimulated.select(split_config(
            "count_of_episodes=340282366920938463463374607431768211455"
        )),
        Ok(SelectedExitCondition::EpisodesSimulated {
            count_of_episodes: u128::MAX
        })
    );
}

#[test]
fn names_that_belong_to_no_option_are_passed_over() {
    assert_eq!(
        AvailableEnvironment::GymMountainCar.select(split_config("goal_speed=fast;x=y")),
        Ok(SelectedEnvironment::GymMountainCar {
            goal_velocity: "0.0".to_string()
        })
    );
    assert_eq!(
        AvailableAgent::Random.select(split_config("anything=goes")),
        Ok(SelectedAgent::Random)
    );
    assert_eq!(
        AvailableExitCondition::VisualiserClosed.select(split_config("count_of_episodes=none")),
        Ok(SelectedExitCondition::VisualiserClosed)
    );
    assert_eq!(
        AvailableVisualiser::NoVisualiser.select(split_config("window_dimension=wide")),
        Ok(SelectedVisualiser::NoVisualiser)
    );
}

#[test]
fn an_option_that_cannot_be_read_is_a_parse_error() {
    assert_eq!(
        AvailableEnvironment::GymMountainCar.select(split_config("goal_velocity=fast")),
        Err(SelectError::ParseError("invalid float literal".to_string()))
    );
    assert_eq!(
        AvailableEnvironment::GymMountainCar.select(split_config("goal_velocity=")),
        Err(SelectError::ParseError(
            "cannot parse float from empty string".to_string()
        ))
    );
    assert_eq!(
        AvailableEnvironment::CodeBulletAiLearnsToDrive.select(split_config("track_visible=yes")),
        Err(SelectError::ParseError(
            "provided string was not `true` or `false`".to_string()
        ))
    );
    assert_eq!(
        AvailableVisualiser::PistonIn2d.select(split_config("window_dimension=wide")),
        Err(SelectError::ParseError(
            "invalid digit found in string".to_string()
        ))
    );
    assert_eq!(
        AvailableVisualiser::PistonIn2d.select(split_config("window_dimension=(640)")),
        Err(SelectError::ParseError(
            "expected exactly two numbers".to_string()
        ))
    );
    assert_eq!(
        AvailableVisualiser::PistonIn2d.select(split_config("window_dimension=(1, 2, 3)")),
        Err(SelectError::ParseError(
            "expected exactly two numbers".to_string()
        ))
    );
    assert_eq!(
        AvailableExitCondition::EpisodesSimulated.select(split_config("count_of_episodes=-1")),
        Err(SelectError::ParseError(
            "invalid digit found in string".to_string()
        ))
    );
    assert_eq!(
        AvailableExitCondition::EpisodesSimulated.select(split_config("count_of_episodes=")),
        Err(SelectError::ParseError(
            "cannot parse integer from empty string".to_string()
        ))
    );
    assert_eq!(
        AvailableExitCondition::EpisodesSimulated.select(split_config(
            "count_of_episodes=340282366920938463463374607431768211456"
        )),
        Err(SelectError::ParseError(
            "number too large to fit in target type".to_string()
        ))
    );
}

#[test]
fn the_first_option_that_cannot_be_read_decides_the_error() {
    assert_eq!(
        AvailableEnvironment::CodeBulletAiLearnsToDrive
            .select(split_config("track_visible=;sensor_lines_visible=2")),
        Err(SelectError::ParseError(
            "provided string was not `true` or `false`".to_string()
        ))
    );
    assert_eq!(
        AvailableVisualiser::PistonIn2d.select(split_config("window_dimension=x,99999999999")),
        Err(SelectError::ParseError(
            "invalid digit found in string".to_string()
        ))
    );
}

#[test]
fn the_goal_velocity_of_a_selection_is_a_float() {
    for text in [
        "0.0",
        "1",
        "-2.5",
        ".5",
        "5.",
        "1e3",
        "inf",
        "-Infinity",
        "NaN",
    ] {
        let configuration = split_config(&format!("goal_velocity={}", text));
        match AvailableEnvironment::GymMountainCar.select(configuration) {
            Ok(SelectedEnvironment::GymMountainCar { goal_velocity }) => {
                assert_eq!(goal_velocity, text);
                assert!(goal_velocity.parse::<f64>().is_ok());
            }
            other => panic!("{:?}", other),
        }
    }
}

#[test]
fn a_select_error_has_its_message() {
    let error = SelectError::ParseError("invalid digit found in string".to_string());
    assert_eq!(
        error.to_string(),
        "ParseError occurred while selecting (\"invalid digit found in string\")"
    );
    assert_eq!(
        SelectError::ParseError(String::new()).to_string(),
        "ParseError occurred while selecting (\"\")"
    );
}

#[test]
fn a_selection_knows_the_variant_it_was_made_from() {
    for variant in AvailableEnvironment::values() {
        let selected = variant.select(Configuration::new()).unwrap();
        assert_eq!(selected.corresponding_available(), variant);
    }
    for variant in AvailableAgent::values() {
        let selected = variant.select(Configuration::new()).unwrap();
        assert_eq!(selected.corresponding_available(), variant);
    }
    for variant in AvailableVisualiser::values() {
        let selected = variant.select(Configuration::new()).unwrap();
        assert_eq!(selected.corresponding_available(), variant);
    }
    for variant in AvailableExitCondition::values() {
        let selected = variant.select(Configuration::new()).unwrap();
        assert_eq!(selected.corresponding_available(), variant);
    }
    assert_eq!(
        SelectedVisualiser::PistonIn2d {
            window_title: String::new(),
            window_dimension: (0, 0)
        }
        .corresponding_available(),
        AvailableVisualiser::PistonIn2d
    );
    assert_eq!(
        SelectedExitCondition::EpisodesSimulated {
            count_of_episodes: 0
        }
        .corresponding_available(),
        AvailableExitCondition::EpisodesSimulated
    );
}

#[test]
fn environments_list_what_they_support() {
    for environment in AvailableEnvironment::values() {
        let agents: Vec<AvailableAgent> = environment.supports_available();
        assert_eq!(agents, vec![AvailableAgent::Input, AvailableAgent::Random]);
        let visualisers: Vec<AvailableVisualiser> = environment.supports_available();
        assert_eq!(
            visualisers,
            vec![
                AvailableVisualiser::NoVisualiser,
                AvailableVisualiser::PistonIn2d
            ]
        );
        let conditions: Vec<AvailableExitCondition> = environment.supports_available();
        assert_eq!(
            conditions,
            vec![
                AvailableExitCondition::EpisodesSimulated,
                AvailableExitCondition::VisualiserClosed
            ]
        );
    }
}

#[test]
fn agents_list_what_they_support() {
    for agent in AvailableAgent::values() {
        let environments: Vec<AvailableEnvironment> = agent.supports_available();
        assert_eq!(environments, AvailableEnvironment::values());
        let conditions: Vec<AvailableExitCondition> = agent.supports_available();
        assert_eq!(conditions, AvailableExitCondition::values());
    }
    let visualisers: Vec<AvailableVisualiser> = AvailableAgent::Random.supports_available();
    assert_eq!(visualisers, AvailableVisualiser::values());
    let visualisers: Vec<AvailableVisualiser> = AvailableAgent::Input.supports_available();
    assert_eq!(visualisers, vec![AvailableVisualiser::PistonIn2d]);
}

#[test]
fn visualisers_list_what_they_support() {
    for visualiser in AvailableVisualiser::values() {
        let environments: Vec<AvailableEnvironment> = visualiser.supports_available();
        assert_eq!(environments, AvailableEnvironment::values());
    }
    let agents: Vec<AvailableAgent> = AvailableVisualiser::PistonIn2d.supports_available();
    assert_eq!(agents, AvailableAgent::values());
    let conditions: Vec<AvailableExitCondition> =
        AvailableVisualiser::PistonIn2d.supports_available();
    assert_eq!(conditions, AvailableExitCondition::values());
}

#[test]
fn no_visualiser_supports_neither_input_nor_waiting_for_its_closing() {
    let agents: Vec<AvailableAgent> = AvailableVisualiser::NoVisualiser.supports_available();
    assert_eq!(agents, vec![AvailableAgent::Random]);
    assert!(!agents.contains(&AvailableAgent::Input));
    let conditions: Vec<AvailableExitCondition> =
        AvailableVisualiser::NoVisualiser.supports_available();
    assert_eq!(conditions, vec![AvailableExitCondition::EpisodesSimulated]);
    assert!(!conditions.contains(&AvailableExitCondition::VisualiserClosed));
}

#[test]
fn exit_conditions_list_what_they_support() {
    for condition in AvailableExitCondition::values() {
        let environments: Vec<AvailableEnvironment> = condition.supports_available();
        assert_eq!(environments, AvailableEnvironment::values());
        let agents: Vec<AvailableAgent> = condition.supports_available();
        assert_eq!(agents, AvailableAgent::values());
    }
    let visualisers: Vec<AvailableVisualiser> =
        AvailableExitCondition::EpisodesSimulated.supports_available();
    assert_eq!(visualisers, AvailableVisualiser::values());
    let visualisers: Vec<AvailableVisualiser> =
        AvailableExitCondition::VisualiserClosed.supports_available();
    assert_eq!(visualisers, vec![AvailableVisualiser::PistonIn2d]);
    assert!(!visualisers.contains(&AvailableVisualiser::NoVisualiser));
}

#[test]
fn support_is_mutual() {
    for environment in AvailableEnvironment::values() {
        for agent in AvailableAgent::values() {
            let agents: Vec<AvailableAgent> = environment.supports_available();
            let environments: Vec<AvailableEnvironment> = agent.supports_available();
            assert_eq!(agents.contains(&agent), environments.contains(&environment));
        }
        for visualiser in AvailableVisualiser::values() {
            let visualisers: Vec<AvailableVisualiser> = environment.supports_available();
            let environments: Vec<AvailableEnvironment> = visualiser.supports_available();
            assert_eq!(
                visualisers.contains(&visualiser),
                environments.contains(&environment)
            );
        }
        for condition in AvailableExitCondition::values() {
            let conditions: Vec<AvailableExitCondition> = environment.supports_available();
            let environments: Vec<AvailableEnvironment> = condition.supports_available();
            assert_eq!(
                conditions.contains(&condition),
                environments.contains(&environment)
            );
        }
    }
    for agent in AvailableAgent::values() {
        for visualiser in AvailableVisualiser::values() {
            let visualisers: Vec<AvailableVisualiser> = agent.supports_available();
            let agents: Vec<AvailableAgent> = visualiser.supports_available();
            assert_eq!(visualisers.contains(&visualiser), agents.contains(&agent));
        }
        for condition in AvailableExitCondition::values() {
            let conditions: Vec<AvailableExitCondition> = agent.supports_available();
            let agents: Vec<AvailableAgent> = condition.supports_available();
            assert_eq!(conditions.contains(&condition), agents.contains(&agent));
        }
    }
    for visualiser in AvailableVisualiser::values() {
        for condition in AvailableExitCondition::values() {
            let conditions: Vec<AvailableExitCondition> = visualiser.supports_available();
            let visualisers: Vec<AvailableVisualiser> = condition.supports_available();
            assert_eq!(
                conditions.contains(&condition),
                visualisers.contains(&visualiser)
            );
        }
    }
}
