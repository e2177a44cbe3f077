//! From a user's texts to a selection of environment, agent, visualiser and exit
//! condition.
//!
//! There are two ways to a selection. Given all at once, each category is named
//! and configured by a text of its own. Asked one after the other, the categories
//! are taken in the order environment, visualiser, agent, exit condition, and for
//! each only those variants are offered that every earlier choice supports. The
//! functions here decide; asking and printing is left to the caller.

use std::str::FromStr;
use vstd::prelude::*;
use crate::availables::{
    answers_to, find_among, first_answering, lemma_first_answering_answers, lemma_list_of_one,
    lemma_list_of_two, looked_up,
    option_texts, supports, Available, AvailableAgent, AvailableConfiguration,
    AvailableEnvironment, AvailableExitCondition, AvailableSupportsAvailable, AvailableVisualiser,
    OptionDescriptor, SelectError, Selected, SelectedAgent, SelectedEnvironment,
    SelectedEnvironmentView, SelectedExitCondition, SelectedVisualiser, SelectedVisualiserView,
};
use crate::configuration::{parsed_configuration, split_config, Configuration};
use crate::parsing::{parse_position, parsed_unsigned};
use crate::text::{
    append_str, ascii_lowercase, chars_of, is_ascii_text, lowercase, lowercase_of, string_of, trim,
    trimmed,
};

verus! {

/// The four categories of which a selection holds one variant each.
#[derive(Clone, Copy, Debug, PartialEq, Eq, Structural)]
pub enum Category {
    Environment,
    Agent,
    Visualiser,
    ExitCondition,
}

impl Category {
    /// The word for a variant of the category.
    pub open spec fn word(self) -> Seq<char> {
        match self {
            Category::Environment => "environment"@,
            Category::Agent => "agent"@,
            Category::Visualiser => "visualiser"@,
            Category::ExitCondition => "exit condition"@,
        }
    }

    /// The word for a variant of the category.
    pub fn name(self) -> (name: &'static str)
        ensures
            name@ == self.word(),
    {
        match self {
            Category::Environment => "environment",
            Category::Agent => "agent",
            Category::Visualiser => "visualiser",
            Category::ExitCondition => "exit condition",
        }
    }
}

/// Why four variants cannot be run together.
#[derive(Clone, Copy, Debug, PartialEq, Eq, Structural)]
pub enum CompatibilityError {
    /// The variant chosen in the first category does not support the one chosen
    /// in the second.
    Unsupported { first: Category, second: Category },
    /// The agent takes its input from a visualiser, and none was chosen.
    AgentNeedsVisualiser,
    /// The exit condition watches a visualiser, and none was chosen.
    ExitConditionNeedsVisualiser,
}

impl CompatibilityError {
    /// The text of the error's message.
    pub open spec fn text(self) -> Seq<char> {
        match self {
            CompatibilityError::Unsupported { first, second } => "The chosen "@ + first.word()
                + " does not support the chosen "@ + second.word() + "."@,
            CompatibilityError::AgentNeedsVisualiser =>
                "The chosen agent needs a visualiser, and none was chosen."@,
            CompatibilityError::ExitConditionNeedsVisualiser =>
                "The chosen exit condition needs a visualiser, and none was chosen."@,
        }
    }

    /// The error's message.
    pub fn to_string(&self) -> (message: String)
        ensures
            message@ == self.text(),
    {
        match *self {
            CompatibilityError::Unsupported { first, second } => {
                let mut message: Vec<char> = Vec::new();
                append_str(&mut message, "The chosen ");
                append_str(&mut message, first.name());
                append_str(&mut message, " does not support the chosen ");
                append_str(&mut message, second.name());
                append_str(&mut message, ".");
                string_of(&message)
            },
            CompatibilityError::AgentNeedsVisualiser => {
                "The chosen agent needs a visualiser, and none was chosen.".to_owned()
            },
            CompatibilityError::ExitConditionNeedsVisualiser => {
                "The chosen exit condition needs a visualiser, and none was chosen.".to_owned()
            },
        }
    }
}

/// Why no selection was made.
#[derive(Debug, PartialEq, Eq)]
pub enum SelectionError {
    /// No variant of the category goes by the given name. Holds the message,
    /// which names the text that was looked up and the category.
    NotFound(String),
    /// An option of a variant could not be read.
    Parse(SelectError),
    /// An answer is neither the position nor the name of a variant. Holds the
    /// message, which names the answer as it was given.
    Unparsed(String),
    /// The variants cannot be run together.
    Incompatible(CompatibilityError),
    /// The earlier choices leave no variant of a category to choose. Holds
    /// the message, which names the category.
    NothingOffered(String),
}

/// A selection error as a mathematical value.
pub enum SelectionErrorView {
    NotFound(Seq<char>),
    Parse(Seq<char>),
    Unparsed(Seq<char>),
    Incompatible(CompatibilityError),
    NothingOffered(Seq<char>),
}

impl View for SelectionError {
    type V = SelectionErrorView;

    open spec fn view(&self) -> SelectionErrorView {
        match self {
            SelectionError::NotFound(message) => SelectionErrorView::NotFound(message@),
            SelectionError::Parse(error) => SelectionErrorView::Parse(error.description()),
            SelectionError::Unparsed(message) => SelectionErrorView::Unparsed(message@),
            SelectionError::Incompatible(error) => SelectionErrorView::Incompatible(*error),
            SelectionError::NothingOffered(message) => SelectionErrorView::NothingOffered(
                message@,
            ),
        }
    }
}

impl SelectionError {
    /// The text of the error's message.
    pub open spec fn text(&self) -> Seq<char> {
        match self {
            SelectionError::NotFound(message) => message@,
            SelectionError::Parse(error) => error.text(),
            SelectionError::Unparsed(message) => message@,
            SelectionError::Incompatible(error) => error.text(),
            SelectionError::NothingOffered(message) => message@,
        }
    }

    /// The error's message.
    pub fn to_string(&self) -> (message: String)
        ensures
            message@ == self.text(),
    {
        match self {
            SelectionError::NotFound(message) => message.clone(),
            SelectionError::Parse(error) => error.to_string(),
            SelectionError::Unparsed(message) => message.clone(),
            SelectionError::Incompatible(error) => error.to_string(),
            SelectionError::NothingOffered(message) => message.clone(),
        }
    }
}

// Given at once

/// The selection that a lowercase name and a configuration text make in the
/// category `A`: the variant that goes by the name, resolved under the
/// configuration that the text stands for.
pub open spec fn selected_by_name<S: Selected<A>, A: Available<S>>(
    lowered: Seq<char>,
    category: Seq<char>,
    configuration_string: Seq<char>,
) -> Result<S::V, SelectionErrorView> {
    match looked_up::<S, A>(lowered, category) {
        Err(message) => Err(SelectionErrorView::NotFound(message)),
        Ok(variant) => match variant.built(
            option_texts(variant.schema(), parsed_configuration(configuration_string)),
        ) {
            Err(description) => Err(SelectionErrorView::Parse(description)),
            Ok(selected) => Ok(selected),
        },
    }
}

/// The result of a selection as a mathematical value.
pub open spec fn selected_view<S: View>(selected: Result<S, SelectionError>) -> Result<
    S::V,
    SelectionErrorView,
> {
    match selected {
        Ok(selected) => Ok(selected@),
        Err(error) => Err(error@),
    }
}

/// Selects an environment by name, in any letter case, under the configuration that
/// the text stands for.
pub fn select_environment(name: &str, configuration_string: &str) -> (selected: Result<
    SelectedEnvironment,
    SelectionError,
>)
    ensures
        selected_view(selected) == selected_by_name::<SelectedEnvironment, AvailableEnvironment>(
            lowercase_of(name@),
            "environments"@,
            configuration_string@,
        ),
        is_ascii_text(name@) ==> selected_view(selected) == selected_by_name::<
            SelectedEnvironment,
            AvailableEnvironment,
        >(
            ascii_lowercase(name@),
            "environments"@,
            configuration_string@,
        ),
        selected matches Ok(selection) ==> answers_to::<SelectedEnvironment, AvailableEnvironment>(
            selection.origin(),
            lowercase_of(name@),
        ),
{
    match AvailableEnvironment::from_str(name) {
        Err(message) => Err(SelectionError::NotFound(message)),
        Ok(variant) => match variant.select(split_config(configuration_string)) {
            Err(error) => Err(SelectionError::Parse(error)),
            Ok(selection) => Ok(selection),
        },
    }
}

/// Selects an agent by name, in any letter case, under the configuration that
/// the text stands for.
pub fn select_agent(name: &str, configuration_string: &str) -> (selected: Result<
    SelectedAgent,
    SelectionError,
>)
    ensures
        selected_view(selected) == selected_by_name::<SelectedAgent, AvailableAgent>(
            lowercase_of(name@),
            "agents"@,
            configuration_string@,
        ),
        is_ascii_text(name@) ==> selected_view(selected) == selected_by_name::<
            SelectedAgent,
            AvailableAgent,
        >(
            ascii_lowercase(name@),
            "agents"@,
            configuration_string@,
        ),
        selected matches Ok(selection) ==> answers_to::<SelectedAgent, AvailableAgent>(
            selection.origin(),
            lowercase_of(name@),
        ),
{
    match AvailableAgent::from_str(name) {
        Err(message) => Err(SelectionError::NotFound(message)),
        Ok(variant) => match variant.select(split_config(configuration_string)) {
            Err(error) => Err(SelectionError::Parse(error)),
            Ok(selection) => Ok(selection),
        },
    }
}

/// Selects a visualiser by name, in any letter case, under the configuration that
/// the text stands for.
pub fn select_visualiser(name: &str, configuration_string: &str) -> (selected: Result<
    SelectedVisualiser,
    SelectionError,
>)
    ensures
        selected_view(selected) == selected_by_name::<SelectedVisualiser, AvailableVisualiser>(
            lowercase_of(name@),
            "visualisers"@,
            configuration_string@,
        ),
        is_ascii_text(name@) ==> selected_view(selected) == selected_by_name::<
            SelectedVisualiser,
            AvailableVisualiser,
        >(
            ascii_lowercase(name@),
            "visualisers"@,
            configuration_string@,
        ),
        selected matches Ok(selection) ==> answers_to::<SelectedVisualiser, AvailableVisualiser>(
            selection.origin(),
            lowercase_of(name@),
        ),
{
    match AvailableVisualiser::from_str(name) {
        Err(message) => Err(SelectionError::NotFound(message)),
        Ok(variant) => match variant.select(split_config(configuration_string)) {
            Err(error) => Err(SelectionError::Parse(error)),
            Ok(selection) => Ok(selection),
        },
    }
}

/// Selects an exit condition by name, in any letter case, under the configuration that
/// the text stands for.
pub fn select_exit_condition(name: &str, configuration_string: &str) -> (selected: Result<
    SelectedExitCondition,
    SelectionError,
>)
    ensures
        selected_view(selected) == selected_by_name::<
            SelectedExitCondition,
            AvailableExitCondition,
        >(
            lowercase_of(name@),
            "exit conditions"@,
            configuration_string@,
        ),
        is_ascii_text(name@) ==> selected_view(selected) == selected_by_name::<
            SelectedExitCondition,
            AvailableExitCondition,
        >(
            ascii_lowercase(name@),
            "exit conditions"@,
            configuration_string@,
        ),
        selected matches Ok(selection) ==> answers_to::<
            SelectedExitCondition,
            AvailableExitCondition,
        >(
            selection.origin(),
            lowercase_of(name@),
        ),
{
    match AvailableExitCondition::from_str(name) {
        Err(message) => Err(SelectionError::NotFound(message)),
        Ok(variant) => match variant.select(split_config(configuration_string)) {
            Err(error) => Err(SelectionError::Parse(error)),
            Ok(selection) => Ok(selection),
        },
    }
}

/// One variant of each category, each with the values of its options.
#[derive(Debug, PartialEq, Eq)]
pub struct Selection {
    pub environment: SelectedEnvironment,
    pub agent: SelectedAgent,
    pub visualiser: SelectedVisualiser,
    pub exit_condition: SelectedExitCondition,
}

/// Whether each of the four variants supports each of those chosen after it,
/// the categories taken in the order environment, visualiser, agent, exit
/// condition. The second part names the first pair that fails.
pub open spec fn compatibility(
    environment: AvailableEnvironment,
    agent: AvailableAgent,
    visualiser: AvailableVisualiser,
    exit_condition: AvailableExitCondition,
) -> Result<(), CompatibilityError> {
    if !supports::<
        SelectedEnvironment,
        AvailableEnvironment,
        SelectedVisualiser,
        AvailableVisualiser,
    >(
        environment,
        visualiser,
    ) {
        Err(
            CompatibilityError::Unsupported {
                first: Category::Environment,
                second: Category::Visualiser,
            },
        )
    } else if !supports::<SelectedEnvironment, AvailableEnvironment, SelectedAgent, AvailableAgent>(
        environment,
        agent,
    ) {
        Err(
            CompatibilityError::Unsupported {
                first: Category::Environment,
                second: Category::Agent,
            },
        )
    } else if !supports::<SelectedVisualiser, AvailableVisualiser, SelectedAgent, AvailableAgent>(
        visualiser,
        agent,
    ) {
        Err(
            CompatibilityError::Unsupported {
                first: Category::Visualiser,
                second: Category::Agent,
            },
        )
    } else if !supports::<
        SelectedEnvironment,
        AvailableEnvironment,
        SelectedExitCondition,
        AvailableExitCondition,
    >(environment, exit_condition) {
        Err(
            CompatibilityError::Unsupported {
                first: Category::Environment,
                second: Category::ExitCondition,
            },
        )
    } else if !supports::<
        SelectedVisualiser,
        AvailableVisualiser,
        SelectedExitCondition,
        AvailableExitCondition,
    >(visualiser, exit_condition) {
        Err(
            CompatibilityError::Unsupported {
                first: Category::Visualiser,
                second: Category::ExitCondition,
            },
        )
    } else if !supports::<
        SelectedAgent,
        AvailableAgent,
        SelectedExitCondition,
        AvailableExitCondition,
    >(
        agent,
        exit_condition,
    ) {
        Err(
            CompatibilityError::Unsupported {
                first: Category::Agent,
                second: Category::ExitCondition,
            },
        )
    } else {
        Ok(())
    }
}

/// Whether the list holds the agent.
pub fn holds_agent(list: &Vec<AvailableAgent>, item: AvailableAgent) -> (holds: bool)
    ensures
        holds == list@.contains(item),
{
    let mut i: usize = 0;
    while i < list.len()
        invariant
            i <= list.len(),
            forall|k: int| 0 <= k < i ==> list@[k] != item,
        decreases list.len() - i,
    {
        if list[i] == item {
            return true;
        }
        i = i + 1;
    }
    false
}

/// Whether the list holds the visualiser.
pub fn holds_visualiser(list: &Vec<AvailableVisualiser>, item: AvailableVisualiser) -> (holds: bool)
    ensures
        holds == list@.contains(item),
{
    let mut i: usize = 0;
    while i < list.len()
        invariant
            i <= list.len(),
            forall|k: int| 0 <= k < i ==> list@[k] != item,
        decreases list.len() - i,
    {
        if list[i] == item {
            return true;
        }
        i = i + 1;
    }
    false
}

/// Whether the list holds the exit condition.
pub fn holds_exit_condition(
    list: &Vec<AvailableExitCondition>,
    item: AvailableExitCondition,
) -> (holds: bool)
    ensures
        holds == list@.contains(item),
{
    let mut i: usize = 0;
    while i < list.len()
        invariant
            i <= list.len(),
            forall|k: int| 0 <= k < i ==> list@[k] != item,
        decreases list.len() - i,
    {
        if list[i] == item {
            return true;
        }
        i = i + 1;
    }
    false
}

/// Checks that four variants support one another. Each pair is asked of the
/// variant whose category is chosen first.
pub fn check_compatibility(
    environment: AvailableEnvironment,
    agent: AvailableAgent,
    visualiser: AvailableVisualiser,
    exit_condition: AvailableExitCondition,
) -> (checked: Result<(), CompatibilityError>)
    ensures
        checked == compatibility(environment, agent, visualiser, exit_condition),
{
    let environment_visualisers: Vec<AvailableVisualiser> = environment.supports_available();
    if !holds_visualiser(&environment_visualisers, visualiser) {
        return Err(
            CompatibilityError::Unsupported {
                first: Category::Environment,
                second: Category::Visualiser,
            },
        );
    }
    let environment_agents: Vec<AvailableAgent> = environment.supports_available();
    if !holds_agent(&environment_agents, agent) {
        return Err(
            CompatibilityError::Unsupported {
                first: Category::Environment,
                second: Category::Agent,
            },
        );
    }
    let visualiser_agents: Vec<AvailableAgent> = visualiser.supports_available();
    if !holds_agent(&visualiser_agents, agent) {
        return Err(
            CompatibilityError::Unsupported {
                first: Category::Visualiser,
                second: Category::Agent,
            },
        );
    }
    let environment_conditions: Vec<AvailableExitCondition> = environment.supports_available();
    if !holds_exit_condition(&environment_conditions, exit_condition) {
        return Err(
            CompatibilityError::Unsupported {
                first: Category::Environment,
                second: Category::ExitCondition,
            },
        );
    }
    let visualiser_conditions: Vec<AvailableExitCondition> = visualiser.supports_available();
    if !holds_exit_condition(&visualiser_conditions, exit_condition) {
        return Err(
            CompatibilityError::Unsupported {
                first: Category::Visualiser,
                second: Category::ExitCondition,
            },
        );
    }
    let agent_conditions: Vec<AvailableExitCondition> = agent.supports_available();
    if !holds_exit_condition(&agent_conditions, exit_condition) {
        return Err(
            CompatibilityError::Unsupported {
                first: Category::Agent,
                second: Category::ExitCondition,
            },
        );
    }
    Ok(())
}

/// One variant of each category with the values of its options, as a
/// mathematical value.
pub struct SelectionView {
    pub environment: SelectedEnvironmentView,
    pub agent: SelectedAgent,
    pub visualiser: SelectedVisualiserView,
    pub exit_condition: SelectedExitCondition,
}

impl View for Selection {
    type V = SelectionView;

    open spec fn view(&self) -> SelectionView {
        SelectionView {
            environment: self.environment@,
            agent: self.agent@,
            visualiser: self.visualiser@,
            exit_condition: self.exit_condition@,
        }
    }
}

/// The texts that name and configure the variant of each category.
pub struct SelectionTexts {
    pub environment: String,
    pub environment_configuration: String,
    pub agent: String,
    pub agent_configuration: String,
    pub visualiser: String,
    pub visualiser_configuration: String,
    pub exit_condition: String,
    pub exit_condition_configuration: String,
}

/// The selection that the texts make. The categories are taken in the order
/// environment, agent, visualiser, exit condition, and the first that fails
/// decides the error. With `strict`, four variants that do not support one
/// another are an error as well.
pub open spec fn selected_with_config(texts: SelectionTexts, strict: bool) -> Result<
    SelectionView,
    SelectionErrorView,
> {
    match selected_by_name::<SelectedEnvironment, AvailableEnvironment>(
        lowercase_of(texts.environment@),
        "environments"@,
        texts.environment_configuration@,
    ) {
        Err(error) => Err(error),
        Ok(environment) => match selected_by_name::<SelectedAgent, AvailableAgent>(
            lowercase_of(texts.agent@),
            "agents"@,
            texts.agent_configuration@,
        ) {
            Err(error) => Err(error),
            Ok(agent) => match selected_by_name::<SelectedVisualiser, AvailableVisualiser>(
                lowercase_of(texts.visualiser@),
                "visualisers"@,
                texts.visualiser_configuration@,
            ) {
                Err(error) => Err(error),
                Ok(visualiser) => match selected_by_name::<
                    SelectedExitCondition,
                    AvailableExitCondition,
                >(
                    lowercase_of(texts.exit_condition@),
                    "exit conditions"@,
                    texts.exit_condition_configuration@,
                ) {
                    Err(error) => Err(error),
                    Ok(exit_condition) => {
                        let selection = SelectionView {
                            environment,
                            agent,
                            visualiser,
                            exit_condition,
                        };
                        match compatibility(
                            environment_of(environment),
                            agent.origin(),
                            visualiser_of(visualiser),
                            exit_condition.origin(),
                        ) {
                            Err(error) if strict => Err(SelectionErrorView::Incompatible(error)),
                            _ => Ok(selection),
                        }
                    },
                },
            },
        },
    }
}

/// The environment that a selection was made from.
pub open spec fn environment_of(selected: SelectedEnvironmentView) -> AvailableEnvironment {
    match selected {
        SelectedEnvironmentView::GymMountainCar { .. } => AvailableEnvironment::GymMountainCar,
        SelectedEnvironmentView::CodeBulletAiLearnsToDrive { .. } =>
            AvailableEnvironment::CodeBulletAiLearnsToDrive,
    }
}

/// The visualiser that a selection was made from.
pub open spec fn visualiser_of(selected: SelectedVisualiserView) -> AvailableVisualiser {
    match selected {
        SelectedVisualiserView::NoVisualiser => AvailableVisualiser::NoVisualiser,
        SelectedVisualiserView::PistonIn2d { .. } => AvailableVisualiser::PistonIn2d,
    }
}

/// Makes a selection from texts given all at once. The categories are taken in
/// the order environment, agent, visualiser, exit condition, and the first that
/// fails decides the error. With `strict`, four variants that do not support one
/// another are an error; without it they are selected as they are.
pub fn select_with_config(texts: &SelectionTexts, strict: bool) -> (selected: Result<
    Selection,
    SelectionError,
>)
    ensures
        selected_view(selected) == selected_with_config(*texts, strict),
{
    let environment = match select_environment(
        texts.environment.as_str(),
        texts.environment_configuration.as_str(),
    ) {
        Ok(selected) => selected,
        Err(error) => {
            return Err(error);
        },
    };
    let agent = match select_agent(texts.agent.as_str(), texts.agent_configuration.as_str()) {
        Ok(selected) => selected,
        Err(error) => {
            return Err(error);
        },
    };
    let visualiser = match select_visualiser(
        texts.visualiser.as_str(),
        texts.visualiser_configuration.as_str(),
    ) {
        Ok(selected) => selected,
        Err(error) => {
            return Err(error);
        },
    };
    let exit_condition = match select_exit_condition(
        texts.exit_condition.as_str(),
        texts.exit_condition_configuration.as_str(),
    ) {
        Ok(selected) => selected,
        Err(error) => {
            return Err(error);
        },
    };
    if strict {
        match check_compatibility(
            environment.corresponding_available(),
            agent.corresponding_available(),
            visualiser.corresponding_available(),
            exit_condition.corresponding_available(),
        ) {
            Err(error) => {
                return Err(SelectionError::Incompatible(error));
            },
            Ok(()) => {},
        }
    }
    Ok(Selection { environment, agent, visualiser, exit_condition })
}

/// The two ways in which a selection is run.
#[derive(Clone, Copy, Debug, PartialEq, Eq, Structural)]
pub enum RunKind {
    /// Without a visualiser, at full speed.
    NoVisualiser,
    /// With a visualiser that draws in two dimensions, paced by it.
    TwoDimensionalVisualiser,
}

/// The way in which three variants are run, whatever the environment. An agent
/// that takes its input from a visualiser cannot be run without one, nor can an
/// exit condition that watches one; the agent is looked at first.
pub open spec fn planned(
    agent: AvailableAgent,
    visualiser: AvailableVisualiser,
    exit_condition: AvailableExitCondition,
) -> Result<RunKind, CompatibilityError> {
    match visualiser {
        AvailableVisualiser::PistonIn2d => Ok(RunKind::TwoDimensionalVisualiser),
        AvailableVisualiser::NoVisualiser => if agent == AvailableAgent::Input {
            Err(CompatibilityError::AgentNeedsVisualiser)
        } else if exit_condition == AvailableExitCondition::VisualiserClosed {
            Err(CompatibilityError::ExitConditionNeedsVisualiser)
        } else {
            Ok(RunKind::NoVisualiser)
        },
    }
}

/// Decides in which way three variants are run.
pub fn plan_run(
    agent: AvailableAgent,
    visualiser: AvailableVisualiser,
    exit_condition: AvailableExitCondition,
) -> (plan: Result<RunKind, CompatibilityError>)
    ensures
        plan == planned(agent, visualiser, exit_condition),
{
    match visualiser {
        AvailableVisualiser::PistonIn2d => Ok(RunKind::TwoDimensionalVisualiser),
        AvailableVisualiser::NoVisualiser => match agent {
            AvailableAgent::Input => Err(CompatibilityError::AgentNeedsVisualiser),
            AvailableAgent::Random => match exit_condition {
                AvailableExitCondition::VisualiserClosed => Err(
                    CompatibilityError::ExitConditionNeedsVisualiser,
                ),
                AvailableExitCondition::EpisodesSimulated => Ok(RunKind::NoVisualiser),
            },
        },
    }
}

/// What the matrix accepts runs: four variants support one another if and only
/// if there is a way to run them. An agent that takes its input from a
/// visualiser and an exit condition that watches one are supported by no
/// variant that stands for the absence of a visualiser, and those are the only
/// pairs that do not support each other.
pub proof fn law_compatible_runs(
    environment: AvailableEnvironment,
    agent: AvailableAgent,
    visualiser: AvailableVisualiser,
    exit_condition: AvailableExitCondition,
)
    ensures
        compatibility(environment, agent, visualiser, exit_condition) is Ok <==> planned(
            agent,
            visualiser,
            exit_condition,
        ) is Ok,
{
    lemma_list_of_one(AvailableAgent::Random, agent);
    lemma_list_of_one(AvailableExitCondition::EpisodesSimulated, exit_condition);
    lemma_list_of_two(AvailableAgent::Input, AvailableAgent::Random, agent);
    lemma_list_of_two(AvailableAgent::Random, AvailableAgent::Input, agent);
    lemma_list_of_two(
        AvailableVisualiser::NoVisualiser,
        AvailableVisualiser::PistonIn2d,
        visualiser,
    );
    lemma_list_of_two(
        AvailableExitCondition::EpisodesSimulated,
        AvailableExitCondition::VisualiserClosed,
        exit_condition,
    );
}

// One after the other

/// The variants of the category `B` that a variant of another category lists as
/// those it can be combined with.
pub open spec fn supported_by<SA, A, SB, B>(first: A) -> Seq<B> where
    SA: Selected<A>,
    A: Available<SA> + AvailableSupportsAvailable<SB, B>,
    SB: Selected<B>,
    B: Available<SB>,
 {
    first.supported()
}

/// Whether an item is in every one of the lists.
pub open spec fn allowed<A>(lists: Seq<Seq<A>>, item: A) -> bool {
    forall|k: int| 0 <= k < lists.len() ==> (#[trigger] lists[k]).contains(item)
}

/// The candidates that are in every one of the lists, in their order.
pub open spec fn offered<A>(candidates: Seq<A>, lists: Seq<Seq<A>>) -> Seq<A>
    decreases candidates.len(),
{
    if candidates.len() == 0 {
        Seq::empty()
    } else if allowed(lists, candidates.last()) {
        offered(candidates.drop_last(), lists).push(candidates.last())
    } else {
        offered(candidates.drop_last(), lists)
    }
}

/// The candidates that at least one of the lists lacks, in their order.
pub open spec fn withheld<A>(candidates: Seq<A>, lists: Seq<Seq<A>>) -> Seq<A>
    decreases candidates.len(),
{
    if candidates.len() == 0 {
        Seq::empty()
    } else if allowed(lists, candidates.last()) {
        withheld(candidates.drop_last(), lists)
    } else {
        withheld(candidates.drop_last(), lists).push(candidates.last())
    }
}

/// The lists of an executable list of lists.
pub open spec fn lists_view<A>(lists: Seq<Vec<A>>) -> Seq<Seq<A>> {
    Seq::new(lists.len(), |k: int| lists[k]@)
}

/// The variants of a category, parted into those that can still be chosen and
/// those that an earlier choice rules out.
#[derive(Debug, PartialEq, Eq)]
pub struct Offer<A> {
    pub available: Vec<A>,
    pub unavailable: Vec<A>,
}

/// Every environment is offered: nothing is chosen before it.
pub fn offer_environments() -> (offer: Offer<AvailableEnvironment>)
    ensures
        offer.available@ == AvailableEnvironment::variants(),
        offer.unavailable@ == Seq::<AvailableEnvironment>::empty(),
{
    Offer { available: AvailableEnvironment::values(), unavailable: Vec::new() }
}

/// Parts the visualisers into those that every list holds and the others.
pub fn part_visualisers(
    candidates: Vec<AvailableVisualiser>,
    lists: &Vec<Vec<AvailableVisualiser>>,
) -> (offer: Offer<AvailableVisualiser>)
    ensures
        offer.available@ == offered(candidates@, lists_view(lists@)),
        offer.unavailable@ == withheld(candidates@, lists_view(lists@)),
{
    let mut available: Vec<AvailableVisualiser> = Vec::new();
    let mut unavailable: Vec<AvailableVisualiser> = Vec::new();
    let ghost all = lists_view(lists@);
    let mut i: usize = 0;
    while i < candidates.len()
        invariant
            i <= candidates.len(),
            all == lists_view(lists@),
            available@ == offered(candidates@.take(i as int), all),
            unavailable@ == withheld(candidates@.take(i as int), all),
        decreases candidates.len() - i,
    {
        let candidate = candidates[i];
        assert(candidates@.take(i + 1).drop_last() == candidates@.take(i as int));
        let mut everywhere = true;
        let mut k: usize = 0;
        while k < lists.len() && everywhere
            invariant
                k <= lists.len(),
                all == lists_view(lists@),
                everywhere == (
                    forall|j: int| 0 <= j < k ==> (#[trigger] all[j]).contains(candidate)
                ),
            decreases lists.len() - k,
        {
            assert(all[k as int] == lists@[k as int]@);
            everywhere = holds_visualiser(&lists[k], candidate);
            k = k + 1;
        }
        if everywhere {
            available.push(candidate);
        } else {
            unavailable.push(candidate);
        }
        i = i + 1;
    }
    assert(candidates@.take(candidates.len() as int) == candidates@);
    Offer { available, unavailable }
}

/// Parts the agents into those that every list holds and the others.
pub fn part_agents(
    candidates: Vec<AvailableAgent>,
    lists: &Vec<Vec<AvailableAgent>>,
) -> (offer: Offer<AvailableAgent>)
    ensures
        offer.available@ == offered(candidates@, lists_view(lists@)),
        offer.unavailable@ == withheld(candidates@, lists_view(lists@)),
{
    let mut available: Vec<AvailableAgent> = Vec::new();
    let mut unavailable: Vec<AvailableAgent> = Vec::new();
    let ghost all = lists_view(lists@);
    let mut i: usize = 0;
    while i < candidates.len()
        invariant
            i <= candidates.len(),
            all == lists_view(lists@),
            available@ == offered(candidates@.take(i as int), all),
            unavailable@ == withheld(candidates@.take(i as int), all),
        decreases candidates.len() - i,
    {
        let candidate = candidates[i];
        assert(candidates@.take(i + 1).drop_last() == candidates@.take(i as int));
        let mut everywhere = true;
        let mut k: usize = 0;
        while k < lists.len() && everywhere
            invariant
                k <= lists.len(),
                all == lists_view(lists@),
                everywhere == (
                    forall|j: int| 0 <= j < k ==> (#[trigger] all[j]).contains(candidate)
                ),
            decreases lists.len() - k,
        {
            assert(all[k as int] == lists@[k as int]@);
            everywhere = holds_agent(&lists[k], candidate);
            k = k + 1;
        }
        if everywhere {
            available.push(candidate);
        } else {
            unavailable.push(candidate);
        }
        i = i + 1;
    }
    assert(candidates@.take(candidates.len() as int) == candidates@);
    Offer { available, unavailable }
}

/// Parts the exit conditions into those that every list holds and the others.
pub fn part_exit_conditions(
    candidates: Vec<AvailableExitCondition>,
    lists: &Vec<Vec<AvailableExitCondition>>,
) -> (offer: Offer<AvailableExitCondition>)
    ensures
        offer.available@ == offered(candidates@, lists_view(lists@)),
        offer.unavailable@ == withheld(candidates@, lists_view(lists@)),
{
    let mut available: Vec<AvailableExitCondition> = Vec::new();
    let mut unavailable: Vec<AvailableExitCondition> = Vec::new();
    let ghost all = lists_view(lists@);
    let mut i: usize = 0;
    while i < candidates.len()
        invariant
            i <= candidates.len(),
            all == lists_view(lists@),
            available@ == offered(candidates@.take(i as int), all),
            unavailable@ == withheld(candidates@.take(i as int), all),
        decreases candidates.len() - i,
    {
        let candidate = candidates[i];
        assert(candidates@.take(i + 1).drop_last() == candidates@.take(i as int));
        let mut everywhere = true;
        let mut k: usize = 0;
        while k < lists.len() && everywhere
            invariant
                k <= lists.len(),
                all == lists_view(lists@),
                everywhere == (
                    forall|j: int| 0 <= j < k ==> (#[trigger] all[j]).contains(candidate)
                ),
            decreases lists.len() - k,
        {
            assert(all[k as int] == lists@[k as int]@);
            everywhere = holds_exit_condition(&lists[k], candidate);
            k = k + 1;
        }
        if everywhere {
            available.push(candidate);
        } else {
            unavailable.push(candidate);
        }
        i = i + 1;
    }
    assert(candidates@.take(candidates.len() as int) == candidates@);
    Offer { available, unavailable }
}

/// The lists that decide which visualisers are offered once the environment
/// is chosen: what the environment supports.
pub open spec fn lists_for_visualisers(environment: AvailableEnvironment) -> Seq<
    Seq<AvailableVisualiser>,
> {
    seq![
        supported_by::<
            SelectedEnvironment,
            AvailableEnvironment,
            SelectedVisualiser,
            AvailableVisualiser,
        >(environment),
    ]
}

/// The lists that decide which agents are offered once environment and
/// visualiser are chosen: what each of the two supports.
pub open spec fn lists_for_agents(
    environment: AvailableEnvironment,
    visualiser: AvailableVisualiser,
) -> Seq<Seq<AvailableAgent>> {
    seq![
        supported_by::<SelectedEnvironment, AvailableEnvironment, SelectedAgent, AvailableAgent>(
            environment,
        ),
        supported_by::<SelectedVisualiser, AvailableVisualiser, SelectedAgent, AvailableAgent>(
            visualiser,
        ),
    ]
}

/// The lists that decide which exit conditions are offered once environment,
/// visualiser and agent are chosen: what each of the three supports.
pub open spec fn lists_for_exit_conditions(
    environment: AvailableEnvironment,
    visualiser: AvailableVisualiser,
    agent: AvailableAgent,
) -> Seq<Seq<AvailableExitCondition>> {
    seq![
        supported_by::<
            SelectedEnvironment,
            AvailableEnvironment,
            SelectedExitCondition,
            AvailableExitCondition,
        >(environment),
        supported_by::<
            SelectedVisualiser,
            AvailableVisualiser,
            SelectedExitCondition,
            AvailableExitCondition,
        >(visualiser),
        supported_by::<
            SelectedAgent,
            AvailableAgent,
            SelectedExitCondition,
            AvailableExitCondition,
        >(agent),
    ]
}

/// The visualisers that are offered once the environment is chosen: those that
/// the environment supports.
pub fn offer_visualisers(environment: AvailableEnvironment) -> (offer: Offer<AvailableVisualiser>)
    ensures
        offer.available@ == offered(
            AvailableVisualiser::variants(),
            lists_for_visualisers(environment),
        ),
        offer.unavailable@ == withheld(
            AvailableVisualiser::variants(),
            lists_for_visualisers(environment),
        ),
{
    let mut lists: Vec<Vec<AvailableVisualiser>> = Vec::new();
    lists.push(environment.supports_available());
    assert(lists_view(lists@) =~= lists_for_visualisers(environment));
    part_visualisers(AvailableVisualiser::values(), &lists)
}

/// The agents that are offered once environment and visualiser are chosen:
/// those that both support.
pub fn offer_agents(environment: AvailableEnvironment, visualiser: AvailableVisualiser) -> (offer:
    Offer<AvailableAgent>)
    ensures
        offer.available@ == offered(
            AvailableAgent::variants(),
            lists_for_agents(environment, visualiser),
        ),
        offer.unavailable@ == withheld(
            AvailableAgent::variants(),
            lists_for_agents(environment, visualiser),
        ),
{
    let mut lists: Vec<Vec<AvailableAgent>> = Vec::new();
    lists.push(environment.supports_available());
    lists.push(visualiser.supports_available());
    assert(lists_view(lists@) =~= lists_for_agents(environment, visualiser));
    part_agents(AvailableAgent::values(), &lists)
}

/// The exit conditions that are offered once environment, visualiser and agent
/// are chosen: those that all three support.
pub fn offer_exit_conditions(
    environment: AvailableEnvironment,
    visualiser: AvailableVisualiser,
    agent: AvailableAgent,
) -> (offer: Offer<AvailableExitCondition>)
    ensures
        offer.available@ == offered(
            AvailableExitCondition::variants(),
            lists_for_exit_conditions(environment, visualiser, agent),
        ),
        offer.unavailable@ == withheld(
            AvailableExitCondition::variants(),
            lists_for_exit_conditions(environment, visualiser, agent),
        ),
{
    let mut lists: Vec<Vec<AvailableExitCondition>> = Vec::new();
    lists.push(environment.supports_available());
    lists.push(visualiser.supports_available());
    lists.push(agent.supports_available());
    assert(lists_view(lists@) =~= lists_for_exit_conditions(environment, visualiser, agent));
    part_exit_conditions(AvailableExitCondition::values(), &lists)
}

/// What is offered is what every list holds, and what is withheld is what some
/// list lacks: each candidate is in exactly one of the two parts.
pub proof fn law_offer_parts<A>(candidates: Seq<A>, lists: Seq<Seq<A>>, item: A)
    ensures
        offered(candidates, lists).contains(item) <==> candidates.contains(item) && allowed(
            lists,
            item,
        ),
        withheld(candidates, lists).contains(item) <==> candidates.contains(item) && !allowed(
            lists,
            item,
        ),
    decreases candidates.len(),
{
    if candidates.len() > 0 {
        let head = candidates.drop_last();
        let last = candidates.last();
        law_offer_parts(head, lists, item);
        if candidates.contains(item) {
            let k = choose|k: int| 0 <= k < candidates.len() && candidates[k] == item;
            if k < head.len() {
                assert(head[k] == item);
            }
        }
        let kept = offered(head, lists);
        let dropped = withheld(head, lists);
        if allowed(lists, last) {
            assert(kept.push(last)[kept.len() as int] == last);
            if kept.contains(item) {
                let k = choose|k: int| 0 <= k < kept.len() && kept[k] == item;
                assert(kept.push(last)[k] == item);
            }
        } else {
            assert(dropped.push(last)[dropped.len() as int] == last);
            if dropped.contains(item) {
                let k = choose|k: int| 0 <= k < dropped.len() && dropped[k] == item;
                assert(dropped.push(last)[k] == item);
            }
        }
    }
}

/// Four variants of which each was on offer when it was chosen support one
/// another.
pub proof fn law_offers_are_compatible(
    environment: AvailableEnvironment,
    visualiser: AvailableVisualiser,
    agent: AvailableAgent,
    exit_condition: AvailableExitCondition,
)
    requires
        offered(AvailableVisualiser::variants(), lists_for_visualisers(environment)).contains(
            visualiser,
        ),
        offered(AvailableAgent::variants(), lists_for_agents(environment, visualiser)).contains(
            agent,
        ),
        offered(
            AvailableExitCondition::variants(),
            lists_for_exit_conditions(environment, visualiser, agent),
        ).contains(exit_condition),
    ensures
        compatibility(environment, agent, visualiser, exit_condition) == Ok::<
            (),
            CompatibilityError,
        >(()),
{
    let for_visualiser = lists_for_visualisers(environment);
    let for_agent = lists_for_agents(environment, visualiser);
    let for_exit_condition = lists_for_exit_conditions(environment, visualiser, agent);
    law_offer_parts(AvailableVisualiser::variants(), for_visualiser, visualiser);
    law_offer_parts(AvailableAgent::variants(), for_agent, agent);
    law_offer_parts(AvailableExitCondition::variants(), for_exit_condition, exit_condition);
    assert(for_visualiser[0].contains(visualiser));
    assert(for_agent[0].contains(agent));
    assert(for_agent[1].contains(agent));
    assert(for_exit_condition[0].contains(exit_condition));
    assert(for_exit_condition[1].contains(exit_condition));
    assert(for_exit_condition[2].contains(exit_condition));
}

/// The message that the earlier choices leave nothing of a category to choose,
/// the category named by its headline in lowercase.
pub open spec fn nothing_offered_text(lowered_headline: Seq<char>) -> Seq<char> {
    "There are no "@ + lowered_headline + " with the previous selections!"@
}

/// The error that the earlier choices leave nothing of a category to choose.
pub fn nothing_offered(lowered_headline: &str) -> (error: SelectionError)
    ensures
        error@ == SelectionErrorView::NothingOffered(nothing_offered_text(lowered_headline@)),
{
    let mut message: Vec<char> = Vec::new();
    append_str(&mut message, "There are no ");
    append_str(&mut message, lowered_headline);
    append_str(&mut message, " with the previous selections!");
    SelectionError::NothingOffered(string_of(&message))
}

/// Checks that an offer leaves something to choose. An offer that leaves
/// nothing cannot be mended: the choices made so far exclude one another.
pub fn check_offer<A>(offer: &Offer<A>, headline: &str) -> (checked: Result<(), SelectionError>)
    ensures
        match checked {
            Ok(()) => offer.available@.len() > 0,
            Err(error) => offer.available@.len() == 0 && error@
                == SelectionErrorView::NothingOffered(
                nothing_offered_text(lowercase_of(headline@)),
            ) && (is_ascii_text(headline@) ==> error@ == SelectionErrorView::NothingOffered(
                nothing_offered_text(ascii_lowercase(headline@)),
            )),
        },
{
    if offer.available.len() > 0 {
        Ok(())
    } else {
        let lowered = lowercase(headline);
        Err(nothing_offered(lowered.as_str()))
    }
}

/// The message for an answer that chooses nothing.
pub open spec fn unparsed_text(answer: Seq<char>) -> Seq<char> {
    "Couldn't parse "@ + answer
}

/// What an answer chooses among the variants on offer. An answer that,
/// trimmed, is an unsigned integer chooses by position, counted from 0; any
/// other answer chooses by name, in any letter case: the first of the variants
/// on offer that goes by it. An answer that chooses nothing gives a message that
/// holds the answer as it was given.
pub open spec fn chosen_by<S: Selected<A>, A: Available<S>>(
    available: Seq<A>,
    answer: Seq<char>,
) -> Result<A, Seq<char>> {
    let text = trimmed(answer);
    match parsed_unsigned(text, usize::MAX as nat) {
        Ok(position) => if position < available.len() {
            Ok(available[position as int])
        } else {
            Err(unparsed_text(answer))
        },
        Err(_) => match first_answering::<S, A>(available, lowercase_of(text)) {
            Some(variant) => Ok(variant),
            None => Err(unparsed_text(answer)),
        },
    }
}

/// What is chosen was offered: an answer chooses no variant but one of those on
/// offer, whether it names a position or a name.
pub proof fn law_chosen_was_offered<S: Selected<A>, A: Available<S>>(
    available: Seq<A>,
    answer: Seq<char>,
)
    ensures
        chosen_by::<S, A>(available, answer) matches Ok(variant) ==> available.contains(variant),
        available.len() == 0 ==> chosen_by::<S, A>(available, answer) is Err,
{
    lemma_first_answering_answers::<S, A>(available, lowercase_of(trimmed(answer)));
}

/// What a text that is no position chooses among the variants on offer, the
/// text given in lowercase: the first of them that goes by it. The message for
/// a text that is the name of none of them holds the answer as it was given.
pub fn choose_by_name<S: Selected<A>, A: Available<S> + Copy>(
    available: &Vec<A>,
    lowered: &str,
    answer: &str,
) -> (chosen: Result<A, SelectionError>)
    ensures
        match chosen {
            Ok(variant) => first_answering::<S, A>(available@, lowered@) == Some(variant)
                && available@.contains(variant),
            Err(error) => first_answering::<S, A>(available@, lowered@) is None && error@
                == SelectionErrorView::Unparsed(unparsed_text(answer@)),
        },
{
    match find_among::<S, A>(available, lowered) {
        Some(variant) => Ok(variant),
        None => Err(unparsed(answer)),
    }
}

/// The error for an answer that chooses nothing.
fn unparsed(answer: &str) -> (error: SelectionError)
    ensures
        error@ == SelectionErrorView::Unparsed(unparsed_text(answer@)),
{
    let mut message: Vec<char> = Vec::new();
    append_str(&mut message, "Couldn't parse ");
    append_str(&mut message, answer);
    SelectionError::Unparsed(string_of(&message))
}

/// Reads an answer as the choice of one of the variants on offer, by position
/// or by name.
pub fn choose_variant<S: Selected<A>, A: Available<S> + Copy>(
    available: &Vec<A>,
    answer: &str,
) -> (chosen: Result<A, SelectionError>)
    ensures
        match chosen {
            Ok(variant) => chosen_by::<S, A>(available@, answer@) == Ok::<A, Seq<char>>(variant)
                && available@.contains(variant),
            Err(error) => chosen_by::<S, A>(available@, answer@) is Err && error@
                == SelectionErrorView::Unparsed(unparsed_text(answer@)),
        },
{
    let text = trim(&chars_of(answer));
    match parse_position(&text) {
        Ok(position) => {
            if position < available.len() {
                Ok(available[position])
            } else {
                Err(unparsed(answer))
            }
        },
        Err(_) => {
            let lowered = lowercase(string_of(&text).as_str());
            choose_by_name::<S, A>(available, lowered.as_str(), answer)
        },
    }
}

/// The text that an answer gives an option: the answer without the whitespace
/// around it, or the default of the option where that is empty.
pub open spec fn answered_text(option: OptionDescriptor, answer: Seq<char>) -> Seq<char> {
    if trimmed(answer).len() == 0 {
        option.default
    } else {
        trimmed(answer)
    }
}

/// Records the answer to the question for an option in the configuration.
pub fn record_answer(
    configuration: &mut Configuration,
    option: &AvailableConfiguration,
    answer: &str,
)
    ensures
        final(configuration)@ == old(configuration)@.insert(
            option@.name,
            answered_text(option@, answer@),
        ),
{
    let text = trim(&chars_of(answer));
    if text.len() == 0 {
        configuration.insert(option.name.clone(), option.default.clone());
    } else {
        configuration.insert(option.name.clone(), string_of(&text));
    }
}

/// An optional text as a mathematical value.
pub open spec fn optional_text(text: Option<String>) -> Option<Seq<char>> {
    match text {
        Some(text) => Some(text@),
        None => None,
    }
}

/// Reads the answer to a question for a text: the answer without the
/// whitespace around it, or the default where that is empty.
pub fn interpret_string(answer: &str, default: Option<String>) -> (text: Option<String>)
    ensures
        optional_text(text) == if trimmed(answer@).len() == 0 {
            optional_text(default)
        } else {
            Some(trimmed(answer@))
        },
{
    let trimmed_answer = trim(&chars_of(answer));
    if trimmed_answer.len() == 0 {
        default
    } else {
        Some(string_of(&trimmed_answer))
    }
}

/// Whether a lowercase text says yes: it begins with `y`.
pub open spec fn says_yes(lowered: Seq<char>) -> bool {
    lowered.len() > 0 && lowered[0] == 'y'
}

/// Whether a lowercase text says yes.
pub fn affirms(lowered: &str) -> (yes: bool)
    ensures
        yes == says_yes(lowered@),
{
    let chars = chars_of(lowered);
    chars.len() > 0 && chars[0] == 'y'
}

/// Reads the answer to a question for yes or no: the default where the answer
/// is empty but for whitespace, else whether the answer begins with `y` in
/// either letter case.
pub fn interpret_yes_no(answer: &str, default: bool) -> (yes: bool)
    ensures
        yes == if trimmed(answer@).len() == 0 {
            default
        } else {
            says_yes(lowercase_of(trimmed(answer@)))
        },
        is_ascii_text(trimmed(answer@)) && trimmed(answer@).len() > 0 ==> yes == (trimmed(
            answer@,
        )[0] == 'y' || trimmed(answer@)[0] == 'Y'),
{
    let text = trim(&chars_of(answer));
    if text.len() == 0 {
        default
    } else {
        let lowered = lowercase(string_of(&text).as_str());
        let first = text[0];
        proof {
            if is_ascii_text(text@) {
                vstd::utf8::char_u32_cast(first, first as u32);
            }
        }
        affirms(lowered.as_str())
    }
}

/// The human names of the variants, in order.
pub open spec fn nice_names<S: Selected<A>, A: Available<S>>(variants: Seq<A>) -> Seq<Seq<char>> {
    Seq::new(variants.len(), |i: int| variants[i].nice())
}

/// The texts in order, with `, ` between them.
pub open spec fn listed(texts: Seq<Seq<char>>) -> Seq<char>
    decreases texts.len(),
{
    if texts.len() == 0 {
        Seq::empty()
    } else if texts.len() == 1 {
        texts[0]
    } else {
        listed(texts.drop_last()) + ", "@ + texts.last()
    }
}

/// Lists the human names of the variants, with `, ` between them.
pub fn list_names<S: Selected<A>, A: Available<S>>(variants: &Vec<A>) -> (list: String)
    ensures
        list@ == listed(nice_names::<S, A>(variants@)),
{
    let mut list: Vec<char> = Vec::new();
    let ghost names = nice_names::<S, A>(variants@);
    let mut i: usize = 0;
    while i < variants.len()
        invariant
            i <= variants.len(),
            names == nice_names::<S, A>(variants@),
            list@ == listed(names.take(i as int)),
        decreases variants.len() - i,
    {
        assert(names.take(i + 1).drop_last() == names.take(i as int));
        if i > 0 {
            append_str(&mut list, ", ");
        }
        append_str(&mut list, variants[i].nice_name());
        i = i + 1;
    }
    assert(names.take(variants.len() as int) == names);
    string_of(&list)
}

} // verus!
