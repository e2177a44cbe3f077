//! The catalogue: every environment, agent, visualiser and exit condition that can
//! be chosen, the names each goes by, the options each takes, and which of them
//! can be combined.
//!
//! Each category is a pair of enums. The `Available` enum of a category lists its
//! variants; the `Selected` enum holds a variant together with the values of its
//! options.
//! [`Available::select`] leads from the first to the second,
//! [`Selected::corresponding_available`] back.

use std::fmt::Debug;
use std::str::FromStr;
use vstd::prelude::*;
use crate::configuration::{option_text, Configuration};
use crate::parsing::{
    accumulated, check_float, digit_of, digits_end, float_fault, is_float_literal,
    lemma_split_at_last_separator, lemma_split_without_separator, pair_body, parse_boolean,
    parse_pair, parse_u128, parsed_boolean, parsed_numbers, parsed_pair, parsed_unsigned,
    NumberFault,
};
use crate::text::{
    append_str, ascii_lowercase, ascii_lowercase_from, chars_of, is_ascii_text,
    lowercase, lowercase_of, same_text, string_of, trimmed, trimmed_start,
};

verus! {

// Further structures

/// The description of one option of a variant: its name, what it is for, the text
/// it has where the configuration gives none, and the type its text is read as.
/// The type is told for the reader's sake; nothing is decided by it.
#[derive(Debug, PartialEq, Eq)]
pub struct AvailableConfiguration {
    pub name: String,
    pub description: String,
    pub default: String,
    pub data_type: String,
}

/// An option description as texts.
pub struct OptionDescriptor {
    pub name: Seq<char>,
    pub description: Seq<char>,
    pub default: Seq<char>,
    pub data_type: Seq<char>,
}

impl View for AvailableConfiguration {
    type V = OptionDescriptor;

    open spec fn view(&self) -> OptionDescriptor {
        OptionDescriptor {
            name: self.name@,
            description: self.description@,
            default: self.default@,
            data_type: self.data_type@,
        }
    }
}

/// The option descriptions of an executable list as texts.
pub open spec fn descriptors(configurations: Seq<AvailableConfiguration>) -> Seq<OptionDescriptor> {
    Seq::new(configurations.len(), |i: int| configurations[i]@)
}

/// The texts of the options of a schema under a configuration: for each option, in
/// order, what the configuration holds for its name, else its default.
pub open spec fn option_texts(
    schema: Seq<OptionDescriptor>,
    configuration: Map<Seq<char>, Seq<char>>,
) -> Seq<Seq<char>> {
    Seq::new(schema.len(), |i: int| option_text(configuration, schema[i].name, schema[i].default))
}

/// The default texts of the options of a schema, in order.
pub open spec fn default_texts(schema: Seq<OptionDescriptor>) -> Seq<Seq<char>> {
    Seq::new(schema.len(), |i: int| schema[i].default)
}

/// Why a selection could not be made.
#[derive(Debug, PartialEq, Eq)]
pub enum SelectError {
    /// The text of an option could not be read as a value of the option's type.
    /// Holds the description of the fault.
    ParseError(String),
}

impl SelectError {
    /// The description of the fault that the error holds.
    pub open spec fn description(&self) -> Seq<char> {
        match self {
            SelectError::ParseError(description) => description@,
        }
    }

    /// The text of the error's message.
    pub open spec fn text(&self) -> Seq<char> {
        "ParseError occurred while selecting (\""@ + self.description() + "\")"@
    }

    /// The error's message.
    pub fn to_string(&self) -> (message: String)
        ensures
            message@ == self.text(),
    {
        let mut message: Vec<char> = Vec::new();
        append_str(&mut message, "ParseError occurred while selecting (\"");
        match self {
            SelectError::ParseError(description) => {
                append_str(&mut message, description.as_str());
            },
        }
        append_str(&mut message, "\")");
        string_of(&message)
    }
}

/// The result of a selection as a mathematical value: the selection's view, or
/// the description of the fault.
pub open spec fn selection_view<S: View>(selection: Result<S, SelectError>) -> Result<
    S::V,
    Seq<char>,
> {
    match selection {
        Ok(selected) => Ok(selected@),
        Err(error) => Err(error.description()),
    }
}

/// A float option: the text itself where it is a float literal, else the
/// description of its fault.
pub open spec fn resolved_float(text: Seq<char>) -> Result<Seq<char>, Seq<char>> {
    match float_fault(text) {
        Some(fault) => Err(fault.text()),
        None => Ok(text),
    }
}

/// A boolean option: the boolean that the text names, else the description of the
/// fault.
pub open spec fn resolved_boolean(text: Seq<char>) -> Result<bool, Seq<char>> {
    match parsed_boolean(text) {
        Some(value) => Ok(value),
        None => Err("provided string was not `true` or `false`"@),
    }
}

/// An unsigned integer option: the number that the text names, else the
/// description of its fault.
pub open spec fn resolved_unsigned(text: Seq<char>) -> Result<u128, Seq<char>> {
    match parsed_unsigned(text, u128::MAX as nat) {
        Ok(value) => Ok(value as u128),
        Err(fault) => Err(fault.text()),
    }
}

/// A pair option: the pair of numbers that the text names, else the description
/// of its fault.
pub open spec fn resolved_pair(text: Seq<char>) -> Result<(u32, u32), Seq<char>> {
    match parsed_pair(text) {
        Ok(pair) => Ok(pair),
        Err(fault) => Err(fault.text()),
    }
}

/// Reads the text of a float option. The text is kept as it stands once it is
/// known to be a float literal.
pub fn resolve_float(text: String) -> (resolved: Result<String, SelectError>)
    ensures
        match resolved {
            Ok(kept) => resolved_float(text@) == Ok::<Seq<char>, Seq<char>>(kept@),
            Err(error) => resolved_float(text@) == Err::<Seq<char>, Seq<char>>(error.description()),
        },
{
    let chars = chars_of(text.as_str());
    match check_float(&chars) {
        Some(fault) => Err(SelectError::ParseError(fault.message())),
        None => Ok(text),
    }
}

/// Reads the text of a boolean option.
pub fn resolve_boolean(text: &str) -> (resolved: Result<bool, SelectError>)
    ensures
        match resolved {
            Ok(value) => resolved_boolean(text@) == Ok::<bool, Seq<char>>(value),
            Err(error) => resolved_boolean(text@) == Err::<bool, Seq<char>>(error.description()),
        },
{
    let chars = chars_of(text);
    match parse_boolean(&chars) {
        Some(value) => Ok(value),
        None => Err(
            SelectError::ParseError("provided string was not `true` or `false`".to_owned()),
        ),
    }
}

/// Reads the text of an unsigned integer option.
pub fn resolve_unsigned(text: &str) -> (resolved: Result<u128, SelectError>)
    ensures
        match resolved {
            Ok(value) => resolved_unsigned(text@) == Ok::<u128, Seq<char>>(value),
            Err(error) => resolved_unsigned(text@) == Err::<u128, Seq<char>>(error.description()),
        },
{
    let chars = chars_of(text);
    match parse_u128(&chars) {
        Ok(value) => Ok(value),
        Err(fault) => Err(SelectError::ParseError(fault.message())),
    }
}

/// Reads the text of a pair option.
pub fn resolve_pair(text: &str) -> (resolved: Result<(u32, u32), SelectError>)
    ensures
        match resolved {
            Ok(pair) => resolved_pair(text@) == Ok::<(u32, u32), Seq<char>>(pair),
            Err(error) => resolved_pair(text@) == Err::<(u32, u32), Seq<char>>(
                error.description(),
            ),
        },
{
    let chars = chars_of(text);
    match parse_pair(&chars) {
        Ok(pair) => Ok(pair),
        Err(fault) => Err(SelectError::ParseError(fault.message())),
    }
}

// Traits

/// A category of variants that can be chosen, with `S` as the type of its
/// selections.
pub trait Available<S: Selected<Self>>: Sized {
    /// Every variant of the category, in the order in which they are offered.
    spec fn variants() -> Seq<Self>;

    /// The headline under which the category is offered.
    spec fn headline() -> Seq<char>;

    /// The name of the variant for a reader.
    spec fn nice(&self) -> Seq<char>;

    /// The long machine name of the variant.
    spec fn long(&self) -> Seq<char>;

    /// The short machine name of the variant.
    spec fn short(&self) -> Seq<char>;

    /// The options of the variant, in the order in which they are read.
    spec fn schema(&self) -> Seq<OptionDescriptor>;

    /// The selection that the texts of the variant's options make, one text for
    /// each option of the schema: each text is read as a value of its option's
    /// type, and the first that cannot be read decides the fault.
    spec fn built(&self, texts: Seq<Seq<char>>) -> Result<S::V, Seq<char>>;

    fn values() -> (values: Vec<Self>)
        ensures
            values@ == Self::variants(),
    ;

    fn category_headline() -> (headline: &'static str)
        ensures
            headline@ == Self::headline(),
    ;

    fn nice_name(&self) -> (name: &'static str)
        ensures
            name@ == self.nice(),
    ;

    fn long_name(&self) -> (name: &'static str)
        ensures
            name@ == self.long(),
    ;

    fn short_name(&self) -> (name: &'static str)
        ensures
            name@ == self.short(),
    ;

    fn available_configurations(&self) -> (configurations: Vec<AvailableConfiguration>)
        ensures
            descriptors(configurations@) == self.schema(),
    ;

    /// Resolves the variant under a configuration. Each option of the schema
    /// takes the text that the configuration holds for its name, else its
    /// default; names that belong to no option are passed over.
    fn select(self, configuration: Configuration) -> (selection: Result<S, SelectError>)
        ensures
            selection_view(selection) == self.built(option_texts(self.schema(), configuration@)),
            selection matches Ok(selected) ==> selected.origin() == self,
    ;
}

/// What a variant of one category can be combined with in the category `A`.
pub trait AvailableSupportsAvailable<S: Selected<A>, A: Available<S>> {
    /// The variants of `A` that this variant can be combined with.
    spec fn supported(&self) -> Seq<A>;

    fn supports_available(&self) -> (supported: Vec<A>)
        ensures
            supported@ == self.supported(),
    ;
}

/// A variant of the category `A` together with the values of its options.
pub trait Selected<A>: Sized + Debug + View {
    /// The variant that the selection was made from.
    spec fn origin(&self) -> A;

    fn corresponding_available(&self) -> (available: A)
        ensures
            available == self.origin(),
    ;
}

/// The selection that a variant makes under a configuration.
pub open spec fn resolved<S: Selected<A>, A: Available<S>>(
    variant: A,
    configuration: Map<Seq<char>, Seq<char>>,
) -> Result<S::V, Seq<char>> {
    variant.built(option_texts(variant.schema(), configuration))
}

/// Whether the first variant says of the second that the two can be combined.
pub open spec fn supports<SA, A, SB, B>(first: A, second: B) -> bool where
    SA: Selected<A>,
    A: Available<SA> + AvailableSupportsAvailable<SB, B>,
    SB: Selected<B>,
    B: Available<SB>,
 {
    first.supported().contains(second)
}

/// Under the empty configuration every option has its default text: the
/// selection is the one that the default texts of the schema make.
pub proof fn law_defaults_apply<S: Selected<A>, A: Available<S>>(variant: A)
    ensures
        resolved::<S, A>(variant, Map::empty()) == variant.built(default_texts(variant.schema())),
{
    assert(option_texts(variant.schema(), Map::empty()) =~= default_texts(variant.schema()));
}

/// Names that belong to no option are passed over: two configurations that
/// hold the same texts under the names of the schema make the same selection,
/// whatever else they hold.
pub proof fn law_foreign_names_ignored<S: Selected<A>, A: Available<S>>(
    variant: A,
    first: Map<Seq<char>, Seq<char>>,
    second: Map<Seq<char>, Seq<char>>,
)
    requires
        forall|i: int|
            #![trigger variant.schema()[i]]
            0 <= i < variant.schema().len() ==> {
                let name = variant.schema()[i].name;
                first.contains_key(name) == second.contains_key(name) && (first.contains_key(name)
                    ==> first[name] == second[name])
            },
    ensures
        resolved::<S, A>(variant, first) == resolved::<S, A>(variant, second),
{
    let schema = variant.schema();
    assert(option_texts(schema, first) =~= option_texts(schema, second));
}

// Lookup

/// Whether a lowercase text is one of the three names of the variant in lowercase.
pub open spec fn answers_to<S: Selected<A>, A: Available<S>>(
    variant: A,
    lowered: Seq<char>,
) -> bool {
    ||| ascii_lowercase(variant.nice()) == lowered
    ||| ascii_lowercase(variant.long()) == lowered
    ||| ascii_lowercase(variant.short()) == lowered
}

/// The first of the variants that answers to the lowercase text.
pub open spec fn first_answering<S: Selected<A>, A: Available<S>>(
    variants: Seq<A>,
    lowered: Seq<char>,
) -> Option<A>
    decreases variants.len(),
{
    if variants.len() == 0 {
        None
    } else if answers_to::<S, A>(variants[0], lowered) {
        Some(variants[0])
    } else {
        first_answering::<S, A>(variants.drop_first(), lowered)
    }
}

/// The variant that a lookup finds answers to the text that was looked up, and
/// where it finds none, none answers.
pub proof fn lemma_first_answering_answers<S: Selected<A>, A: Available<S>>(
    variants: Seq<A>,
    lowered: Seq<char>,
)
    ensures
        first_answering::<S, A>(variants, lowered) matches Some(variant) ==> answers_to::<S, A>(
            variant,
            lowered,
        ) && variants.contains(variant),
        first_answering::<S, A>(variants, lowered) is None ==> forall|i: int|
            0 <= i < variants.len() ==> !answers_to::<S, A>(#[trigger] variants[i], lowered),
    decreases variants.len(),
{
    if variants.len() > 0 && !answers_to::<S, A>(variants[0], lowered) {
        let rest = variants.drop_first();
        lemma_first_answering_answers::<S, A>(rest, lowered);
        if first_answering::<S, A>(rest, lowered) is None {
            assert forall|i: int| 0 <= i < variants.len() implies !answers_to::<S, A>(
                #[trigger] variants[i],
                lowered,
            ) by {
                if i > 0 {
                    assert(rest[i - 1] == variants[i]);
                }
            }
        }
    }
}

/// The message that tells that no variant of a category answers to a text.
pub open spec fn not_found_text(lowered: Seq<char>, category: Seq<char>) -> Seq<char> {
    "Did not find \""@ + lowered + "\" in available "@ + category + "."@
}

/// The variant of the category `A` that answers to a lowercase text, or the
/// message that there is none.
pub open spec fn looked_up<S: Selected<A>, A: Available<S>>(
    lowered: Seq<char>,
    category: Seq<char>,
) -> Result<A, Seq<char>> {
    match first_answering::<S, A>(A::variants(), lowered) {
        Some(variant) => Ok(variant),
        None => Err(not_found_text(lowered, category)),
    }
}

/// The result of a lookup as a mathematical value.
pub open spec fn lookup_view<A>(found: Result<A, String>) -> Result<A, Seq<char>> {
    match found {
        Ok(variant) => Ok(variant),
        Err(message) => Err(message@),
    }
}

/// Whether the variant answers to the lowercase text.
pub fn answers<S: Selected<A>, A: Available<S>>(variant: &A, lowered: &Vec<char>) -> (answers: bool)
    ensures
        answers == answers_to::<S, A>(*variant, lowered@),
{
    let nice = ascii_lowercase_from(&chars_of(variant.nice_name()), 0);
    let long = ascii_lowercase_from(&chars_of(variant.long_name()), 0);
    let short = ascii_lowercase_from(&chars_of(variant.short_name()), 0);
    assert(variant.nice().skip(0) == variant.nice());
    assert(variant.long().skip(0) == variant.long());
    assert(variant.short().skip(0) == variant.short());
    same_text(&nice, lowered) || same_text(&long, lowered) || same_text(&short, lowered)
}

/// Looks a lowercase text up among the names of the given variants: the first
/// of them, in their order, of which the text is the human, the long or the
/// short name in lowercase.
pub fn find_among<S: Selected<A>, A: Available<S> + Copy>(
    variants: &Vec<A>,
    lowered: &str,
) -> (found: Option<A>)
    ensures
        found == first_answering::<S, A>(variants@, lowered@),
        found matches Some(variant) ==> answers_to::<S, A>(variant, lowered@) && variants@.contains(
            variant,
        ),
        found is None ==> forall|i: int|
            0 <= i < variants@.len() ==> !answers_to::<S, A>(#[trigger] variants@[i], lowered@),
{
    proof {
        lemma_first_answering_answers::<S, A>(variants@, lowered@);
    }
    let lowered_chars = chars_of(lowered);
    let mut i: usize = 0;
    assert(variants@.skip(0) == variants@);
    while i < variants.len()
        invariant
            i <= variants.len(),
            lowered_chars@ == lowered@,
            first_answering::<S, A>(variants@, lowered@) == first_answering::<S, A>(
                variants@.skip(i as int),
                lowered@,
            ),
        decreases variants.len() - i,
    {
        if answers::<S, A>(&variants[i], &lowered_chars) {
            return Some(variants[i]);
        }
        assert(variants@.skip(i as int).drop_first() == variants@.skip(i + 1));
        i = i + 1;
    }
    None
}

/// Looks a lowercase text up among the names of the variants of a category. The
/// first variant, in the order of the category, of which the text is the human,
/// the long or the short name in lowercase is found; where there is none, the
/// message names the text and the category.
pub fn find_available<S: Selected<A>, A: Available<S> + Copy>(
    lowered: &str,
    category: &str,
) -> (found:
    Result<A, String>)
    ensures
        lookup_view(found) == looked_up::<S, A>(lowered@, category@),
        found matches Ok(variant) ==> answers_to::<S, A>(variant, lowered@),
        found is Err ==> forall|i: int|
            0 <= i < A::variants().len() ==> !answers_to::<S, A>(
                #[trigger] A::variants()[i],
                lowered@,
            ),
{
    match find_among::<S, A>(&A::values(), lowered) {
        Some(variant) => Ok(variant),
        None => {
            let mut message: Vec<char> = Vec::new();
            append_str(&mut message, "Did not find \"");
            append_str(&mut message, lowered);
            append_str(&mut message, "\" in available ");
            append_str(&mut message, category);
            append_str(&mut message, ".");
            Err(string_of(&message))
        },
    }
}


// Available environment

/// The environments that can be simulated.
#[derive(Clone, Copy, Debug, PartialEq, Eq, Structural)]
pub enum AvailableEnvironment {
    GymMountainCar,
    CodeBulletAiLearnsToDrive,
}

impl Available<SelectedEnvironment> for AvailableEnvironment {
    open spec fn variants() -> Seq<Self> {
        seq![Self::GymMountainCar, Self::CodeBulletAiLearnsToDrive]
    }

    open spec fn headline() -> Seq<char> {
        "Available Environments"@
    }

    open spec fn nice(&self) -> Seq<char> {
        match *self {
            Self::GymMountainCar => "Gym MountainCar"@,
            Self::CodeBulletAiLearnsToDrive => "Code Bullet AI Learns to DRIVE"@,
        }
    }

    open spec fn long(&self) -> Seq<char> {
        match *self {
            Self::GymMountainCar => "gym_mountaincar"@,
            Self::CodeBulletAiLearnsToDrive => "code_bullet_ai_learns_to_drive"@,
        }
    }

    open spec fn short(&self) -> Seq<char> {
        match *self {
            Self::GymMountainCar => "g_mc"@,
            Self::CodeBulletAiLearnsToDrive => "cb_drive"@,
        }
    }

    open spec fn schema(&self) -> Seq<OptionDescriptor> {
        match *self {
            Self::GymMountainCar => seq![
                OptionDescriptor {
                    name: "goal_velocity"@,
                    description: "The velocity which the agent has to have at least when he \
                        reaches the flag. Because the velocity never is negative a value of 0.0 \
                        is the off-switch for this."@,
                    default: "0.0"@,
                    data_type: "f64"@,
                },
            ],
            Self::CodeBulletAiLearnsToDrive => seq![
                OptionDescriptor {
                    name: "sensor_lines_visible"@,
                    description: "Whether the given sensor lines should be drawn in the \
                        visualiser. Sometimes it's nice to see what an agent sees."@,
                    default: "false"@,
                    data_type: "bool"@,
                },
                OptionDescriptor {
                    name: "track_visible"@,
                    description: "Whether the track should be drawn in the visualiser. This set \
                        to false in addition to \"sensor_lines_visible\" to true simulates the \
                        view the agent has."@,
                    default: "true"@,
                    data_type: "bool"@,
                },
            ],
        }
    }

    open spec fn built(&self, texts: Seq<Seq<char>>) -> Result<SelectedEnvironmentView, Seq<char>> {
        match *self {
            Self::GymMountainCar => {
                match resolved_float(texts[0]) {
                    Err(description) => Err(description),
                    Ok(goal_velocity) => {
                        Ok(SelectedEnvironmentView::GymMountainCar { goal_velocity })
                    },
                }
            },
            Self::CodeBulletAiLearnsToDrive => {
                match resolved_boolean(texts[0]) {
                    Err(description) => Err(description),
                    Ok(sensor_lines_visible) => {
                        match resolved_boolean(texts[1]) {
                            Err(description) => Err(description),
                            Ok(track_visible) => {
                                Ok(
                                    SelectedEnvironmentView::CodeBulletAiLearnsToDrive {
                                        sensor_lines_visible,
                                        track_visible,
                                    },
                                )
                            },
                        }
                    },
                }
            },
        }
    }

    fn values() -> (values: Vec<Self>) {
        vec![Self::GymMountainCar, Self::CodeBulletAiLearnsToDrive]
    }

    fn category_headline() -> (headline: &'static str) {
        "Available Environments"
    }

    fn nice_name(&self) -> (name: &'static str) {
        match *self {
            Self::GymMountainCar => "Gym MountainCar",
            Self::CodeBulletAiLearnsToDrive => "Code Bullet AI Learns to DRIVE",
        }
    }

    fn long_name(&self) -> (name: &'static str) {
        match *self {
            Self::GymMountainCar => "gym_mountaincar",
            Self::CodeBulletAiLearnsToDrive => "code_bullet_ai_learns_to_drive",
        }
    }

    fn short_name(&self) -> (name: &'static str) {
        match *self {
            Self::GymMountainCar => "g_mc",
            Self::CodeBulletAiLearnsToDrive => "cb_drive",
        }
    }

    fn available_configurations(&self) -> (configurations: Vec<AvailableConfiguration>) {
        let configurations = match *self {
            Self::GymMountainCar => vec![
                AvailableConfiguration {
                    name: "goal_velocity".to_owned(),
                    description: "The velocity which the agent has to have at least when he \
                        reaches the flag. Because the velocity never is negative a value of 0.0 \
                        is the off-switch for this.".to_owned(),
                    default: "0.0".to_owned(),
                    data_type: "f64".to_owned(),
                },
            ],
            Self::CodeBulletAiLearnsToDrive => vec![
                AvailableConfiguration {
                    name: "sensor_lines_visible".to_owned(),
                    description: "Whether the given sensor lines should be drawn in the \
                        visualiser. Sometimes it's nice to see what an agent sees.".to_owned(),
                    default: "false".to_owned(),
                    data_type: "bool".to_owned(),
                },
                AvailableConfiguration {
                    name: "track_visible".to_owned(),
                    description: "Whether the track should be drawn in the visualiser. This set \
                        to false in addition to \"sensor_lines_visible\" to true simulates the \
                        view the agent has.".to_owned(),
                    default: "true".to_owned(),
                    data_type: "bool".to_owned(),
                },
            ],
        };
        configurations
    }

    fn select(
        self,
        configuration: Configuration,
    ) -> (selection: Result<SelectedEnvironment, SelectError>)
        ensures
            selection matches Ok(selected) ==> selected.well_formed(),
    {
        match self {
            Self::GymMountainCar => {
                let goal_velocity_text = configuration.text_or("goal_velocity", "0.0");
                let goal_velocity = match resolve_float(goal_velocity_text) {
                    Ok(value) => value,
                    Err(error) => {
                        return Err(error);
                    },
                };
                Ok(SelectedEnvironment::GymMountainCar { goal_velocity })
            },
            Self::CodeBulletAiLearnsToDrive => {
                let sensor_lines_visible_text = configuration.text_or(
                    "sensor_lines_visible",
                    "false",
                );
                let sensor_lines_visible = match resolve_boolean(
                    sensor_lines_visible_text.as_str(),
                ) {
                    Ok(value) => value,
                    Err(error) => {
                        return Err(error);
                    },
                };
                let track_visible_text = configuration.text_or("track_visible", "true");
                let track_visible = match resolve_boolean(track_visible_text.as_str()) {
                    Ok(value) => value,
                    Err(error) => {
                        return Err(error);
                    },
                };
                Ok(
                    SelectedEnvironment::CodeBulletAiLearnsToDrive {
                        sensor_lines_visible,
                        track_visible,
                    },
                )
            },
        }
    }
}

impl FromStr for AvailableEnvironment {
    type Err = String;

    /// Finds the variant that goes by the given name, in any letter case. The
    /// text is compared in lowercase with the lowercase forms of the human, the
    /// long and the short name of each variant; the message for a text that is
    /// no name holds the text in lowercase.
    fn from_str(s: &str) -> (found: Result<Self, String>)
        ensures
            lookup_view(found) == looked_up::<SelectedEnvironment, AvailableEnvironment>(
                lowercase_of(s@),
                "environments"@,
            ),
            is_ascii_text(s@) ==> lookup_view(found) == looked_up::<
                SelectedEnvironment,
                AvailableEnvironment,
            >(
                ascii_lowercase(s@),
                "environments"@,
            ),
            found matches Ok(variant) ==> answers_to::<SelectedEnvironment, AvailableEnvironment>(
                variant,
                lowercase_of(s@),
            ),
    {
        let lower_s = lowercase(s);
        find_available::<SelectedEnvironment, AvailableEnvironment>(
            lower_s.as_str(),
            "environments",
        )
    }
}

impl AvailableSupportsAvailable<SelectedAgent, AvailableAgent> for AvailableEnvironment {
    open spec fn supported(&self) -> Seq<AvailableAgent> {
        match *self {
            Self::GymMountainCar => seq![AvailableAgent::Input, AvailableAgent::Random],
            Self::CodeBulletAiLearnsToDrive => seq![AvailableAgent::Input, AvailableAgent::Random],
        }
    }

    fn supports_available(&self) -> (supported: Vec<AvailableAgent>) {
        match *self {
            Self::GymMountainCar => vec![AvailableAgent::Input, AvailableAgent::Random],
            Self::CodeBulletAiLearnsToDrive => vec![AvailableAgent::Input, AvailableAgent::Random],
        }
    }
}

impl AvailableSupportsAvailable<SelectedVisualiser, AvailableVisualiser> for AvailableEnvironment {
    open spec fn supported(&self) -> Seq<AvailableVisualiser> {
        match *self {
            Self::GymMountainCar =>
                seq![AvailableVisualiser::NoVisualiser, AvailableVisualiser::PistonIn2d],
            Self::CodeBulletAiLearnsToDrive =>
                seq![AvailableVisualiser::NoVisualiser, AvailableVisualiser::PistonIn2d],
        }
    }

    fn supports_available(&self) -> (supported: Vec<AvailableVisualiser>) {
        match *self {
            Self::GymMountainCar =>
                vec![AvailableVisualiser::NoVisualiser, AvailableVisualiser::PistonIn2d],
            Self::CodeBulletAiLearnsToDrive =>
                vec![AvailableVisualiser::NoVisualiser, AvailableVisualiser::PistonIn2d],
        }
    }
}

impl AvailableSupportsAvailable<SelectedExitCondition, AvailableExitCondition>
    for AvailableEnvironment
{
    open spec fn supported(&self) -> Seq<AvailableExitCondition> {
        match *self {
            Self::GymMountainCar =>
                seq![
                    AvailableExitCondition::EpisodesSimulated,
                    AvailableExitCondition::VisualiserClosed,
                ],
            Self::CodeBulletAiLearnsToDrive =>
                seq![
                    AvailableExitCondition::EpisodesSimulated,
                    AvailableExitCondition::VisualiserClosed,
                ],
        }
    }

    fn supports_available(&self) -> (supported: Vec<AvailableExitCondition>) {
        match *self {
            Self::GymMountainCar =>
                vec![
                    AvailableExitCondition::EpisodesSimulated,
                    AvailableExitCondition::VisualiserClosed,
                ],
            Self::CodeBulletAiLearnsToDrive =>
                vec![
                    AvailableExitCondition::EpisodesSimulated,
                    AvailableExitCondition::VisualiserClosed,
                ],
        }
    }
}

// Selected environment

/// An environment with the values of its options.
#[derive(Debug, PartialEq, Eq)]
pub enum SelectedEnvironment {
    GymMountainCar {
        /// The goal velocity as a float literal: the text is kept, since the library holds
        /// no floating-point value.
        goal_velocity: String,
    },
    CodeBulletAiLearnsToDrive {
        sensor_lines_visible: bool,
        track_visible: bool,
    },
}

/// An environment with the values of its options, as a mathematical value.
pub enum SelectedEnvironmentView {
    GymMountainCar {
        goal_velocity: Seq<char>,
    },
    CodeBulletAiLearnsToDrive {
        sensor_lines_visible: bool,
        track_visible: bool,
    },
}

impl View for SelectedEnvironment {
    type V = SelectedEnvironmentView;

    open spec fn view(&self) -> SelectedEnvironmentView {
        match *self {
            SelectedEnvironment::GymMountainCar { goal_velocity } =>
                SelectedEnvironmentView::GymMountainCar {
                goal_velocity: goal_velocity@,
            },
            SelectedEnvironment::CodeBulletAiLearnsToDrive {
                sensor_lines_visible,
                track_visible,
            } => SelectedEnvironmentView::CodeBulletAiLearnsToDrive {
                sensor_lines_visible,
                track_visible,
            },
        }
    }
}

impl SelectedEnvironment {
    /// Whether the goal velocity, where there is one, is a float literal.
    /// Selections that [`Available::select`] makes are well-formed.
    pub open spec fn well_formed(&self) -> bool {
        match self {
            SelectedEnvironment::GymMountainCar { goal_velocity } => is_float_literal(
                goal_velocity@,
            ),
            SelectedEnvironment::CodeBulletAiLearnsToDrive { .. } => true,
        }
    }
}

impl Selected<AvailableEnvironment> for SelectedEnvironment {
    open spec fn origin(&self) -> AvailableEnvironment {
        match *self {
            SelectedEnvironment::GymMountainCar { .. } => AvailableEnvironment::GymMountainCar,
            SelectedEnvironment::CodeBulletAiLearnsToDrive { .. } =>
                AvailableEnvironment::CodeBulletAiLearnsToDrive,
        }
    }

    fn corresponding_available(&self) -> (available: AvailableEnvironment) {
        match *self {
            Self::GymMountainCar { .. } => AvailableEnvironment::GymMountainCar,
            Self::CodeBulletAiLearnsToDrive { .. } =>
                AvailableEnvironment::CodeBulletAiLearnsToDrive,
        }
    }
}


// Available agent

/// The agents that can act in an environment.
#[derive(Clone, Copy, Debug, PartialEq, Eq, Structural)]
pub enum AvailableAgent {
    Random,
    Input,
}

impl Available<SelectedAgent> for AvailableAgent {
    open spec fn variants() -> Seq<Self> {
        seq![Self::Random, Self::Input]
    }

    open spec fn headline() -> Seq<char> {
        "Available Agents"@
    }

    open spec fn nice(&self) -> Seq<char> {
        match *self {
            Self::Random => "Random"@,
            Self::Input => "Input"@,
        }
    }

    open spec fn long(&self) -> Seq<char> {
        match *self {
            Self::Random => "random"@,
            Self::Input => "input"@,
        }
    }

    open spec fn short(&self) -> Seq<char> {
        match *self {
            Self::Random => "rand"@,
            Self::Input => "inp"@,
        }
    }

    open spec fn schema(&self) -> Seq<OptionDescriptor> {
        match *self {
            Self::Random => Seq::empty(),
            Self::Input => Seq::empty(),
        }
    }

    open spec fn built(&self, texts: Seq<Seq<char>>) -> Result<SelectedAgent, Seq<char>> {
        match *self {
            Self::Random => Ok(SelectedAgent::Random),
            Self::Input => Ok(SelectedAgent::Input),
        }
    }

    fn values() -> (values: Vec<Self>) {
        vec![Self::Random, Self::Input]
    }

    fn category_headline() -> (headline: &'static str) {
        "Available Agents"
    }

    fn nice_name(&self) -> (name: &'static str) {
        match *self {
            Self::Random => "Random",
            Self::Input => "Input",
        }
    }

    fn long_name(&self) -> (name: &'static str) {
        match *self {
            Self::Random => "random",
            Self::Input => "input",
        }
    }

    fn short_name(&self) -> (name: &'static str) {
        match *self {
            Self::Random => "rand",
            Self::Input => "inp",
        }
    }

    fn available_configurations(&self) -> (configurations: Vec<AvailableConfiguration>) {
        let configurations = match *self {
            Self::Random => Vec::new(),
            Self::Input => Vec::new(),
        };
        configurations
    }

    fn select(
        self,
        configuration: Configuration,
    ) -> (selection: Result<SelectedAgent, SelectError>) {
        match self {
            Self::Random => Ok(SelectedAgent::Random),
            Self::Input => Ok(SelectedAgent::Input),
        }
    }
}

impl FromStr for AvailableAgent {
    type Err = String;

    /// Finds the variant that goes by the given name, in any letter case. The
    /// text is compared in lowercase with the lowercase forms of the human, the
    /// long and the short name of each variant; the message for a text that is
    /// no name holds the text in lowercase.
    fn from_str(s: &str) -> (found: Result<Self, String>)
        ensures
            lookup_view(found) == looked_up::<SelectedAgent, AvailableAgent>(
                lowercase_of(s@),
                "agents"@,
            ),
            is_ascii_text(s@) ==> lookup_view(found) == looked_up::<SelectedAgent, AvailableAgent>(
                ascii_lowercase(s@),
                "agents"@,
            ),
            found matches Ok(variant) ==> answers_to::<SelectedAgent, AvailableAgent>(
                variant,
                lowercase_of(s@),
            ),
    {
        let lower_s = lowercase(s);
        find_available::<SelectedAgent, AvailableAgent>(lower_s.as_str(), "agents")
    }
}

impl AvailableSupportsAvailable<SelectedEnvironment, AvailableEnvironment> for AvailableAgent {
    open spec fn supported(&self) -> Seq<AvailableEnvironment> {
        match *self {
            Self::Random =>
                seq![
                    AvailableEnvironment::GymMountainCar,
                    AvailableEnvironment::CodeBulletAiLearnsToDrive,
                ],
            Self::Input =>
                seq![
                    AvailableEnvironment::GymMountainCar,
                    AvailableEnvironment::CodeBulletAiLearnsToDrive,
                ],
        }
    }

    fn supports_available(&self) -> (supported: Vec<AvailableEnvironment>) {
        match *self {
            Self::Random =>
                vec![
                    AvailableEnvironment::GymMountainCar,
                    AvailableEnvironment::CodeBulletAiLearnsToDrive,
                ],
            Self::Input =>
                vec![
                    AvailableEnvironment::GymMountainCar,
                    AvailableEnvironment::CodeBulletAiLearnsToDrive,
                ],
        }
    }
}

impl AvailableSupportsAvailable<SelectedVisualiser, AvailableVisualiser> for AvailableAgent {
    open spec fn supported(&self) -> Seq<AvailableVisualiser> {
        match *self {
            Self::Random =>
                seq![AvailableVisualiser::NoVisualiser, AvailableVisualiser::PistonIn2d],
            Self::Input => seq![AvailableVisualiser::PistonIn2d],
        }
    }

    fn supports_available(&self) -> (supported: Vec<AvailableVisualiser>) {
        match *self {
            Self::Random =>
                vec![AvailableVisualiser::NoVisualiser, AvailableVisualiser::PistonIn2d],
            Self::Input => vec![AvailableVisualiser::PistonIn2d],
        }
    }
}

impl AvailableSupportsAvailable<SelectedExitCondition, AvailableExitCondition> for AvailableAgent {
    open spec fn supported(&self) -> Seq<AvailableExitCondition> {
        match *self {
            Self::Random =>
                seq![
                    AvailableExitCondition::EpisodesSimulated,
                    AvailableExitCondition::VisualiserClosed,
                ],
            Self::Input =>
                seq![
                    AvailableExitCondition::EpisodesSimulated,
                    AvailableExitCondition::VisualiserClosed,
                ],
        }
    }

    fn supports_available(&self) -> (supported: Vec<AvailableExitCondition>) {
        match *self {
            Self::Random =>
                vec![
                    AvailableExitCondition::EpisodesSimulated,
                    AvailableExitCondition::VisualiserClosed,
                ],
            Self::Input =>
                vec![
                    AvailableExitCondition::EpisodesSimulated,
                    AvailableExitCondition::VisualiserClosed,
                ],
        }
    }
}

// Selected agent

/// An agent with the values of its options.
#[derive(Clone, Copy, Debug, PartialEq, Eq, Structural)]
pub enum SelectedAgent {
    Random,
    Input,
}

impl View for SelectedAgent {
    type V = SelectedAgent;

    open spec fn view(&self) -> SelectedAgent {
        *self
    }
}

impl Selected<AvailableAgent> for SelectedAgent {
    open spec fn origin(&self) -> AvailableAgent {
        match *self {
            SelectedAgent::Random => AvailableAgent::Random,
            SelectedAgent::Input => AvailableAgent::Input,
        }
    }

    fn corresponding_available(&self) -> (available: AvailableAgent) {
        match *self {
            Self::Random => AvailableAgent::Random,
            Self::Input => AvailableAgent::Input,
        }
    }
}


// Available visualiser

/// The visualisers that can show an environment.
#[derive(Clone, Copy, Debug, PartialEq, Eq, Structural)]
pub enum AvailableVisualiser {
    NoVisualiser,
    PistonIn2d,
}

impl Available<SelectedVisualiser> for AvailableVisualiser {
    open spec fn variants() -> Seq<Self> {
        seq![Self::NoVisualiser, Self::PistonIn2d]
    }

    open spec fn headline() -> Seq<char> {
        "Available Visualisers"@
    }

    open spec fn nice(&self) -> Seq<char> {
        match *self {
            Self::NoVisualiser => "None"@,
            Self::PistonIn2d => "Piston in 2D"@,
        }
    }

    open spec fn long(&self) -> Seq<char> {
        match *self {
            Self::NoVisualiser => "none"@,
            Self::PistonIn2d => "piston2d"@,
        }
    }

    open spec fn short(&self) -> Seq<char> {
        match *self {
            Self::NoVisualiser => "none"@,
            Self::PistonIn2d => "pi2d"@,
        }
    }

    open spec fn schema(&self) -> Seq<OptionDescriptor> {
        match *self {
            Self::NoVisualiser => Seq::empty(),
            Self::PistonIn2d => seq![
                OptionDescriptor {
                    name: "window_title"@,
                    description: "Sets the window title."@,
                    default: "Gymnarium Application"@,
                    data_type: "String"@,
                },
                OptionDescriptor {
                    name: "window_dimension"@,
                    description: "Sets the window dimensions with which it should start. It's \
                        important to specify them with the parentheses and the comma."@,
                    default: "(640, 480)"@,
                    data_type: "(u32, u32)"@,
                },
            ],
        }
    }

    open spec fn built(&self, texts: Seq<Seq<char>>) -> Result<SelectedVisualiserView, Seq<char>> {
        match *self {
            Self::NoVisualiser => Ok(SelectedVisualiserView::NoVisualiser),
            Self::PistonIn2d => {
                let window_title = texts[0];
                match resolved_pair(texts[1]) {
                    Err(description) => Err(description),
                    Ok(window_dimension) => {
                        Ok(SelectedVisualiserView::PistonIn2d { window_title, window_dimension })
                    },
                }
            },
        }
    }

    fn values() -> (values: Vec<Self>) {
        vec![Self::NoVisualiser, Self::PistonIn2d]
    }

    fn category_headline() -> (headline: &'static str) {
        "Available Visualisers"
    }

    fn nice_name(&self) -> (name: &'static str) {
        match *self {
            Self::NoVisualiser => "None",
            Self::PistonIn2d => "Piston in 2D",
        }
    }

    fn long_name(&self) -> (name: &'static str) {
        match *self {
            Self::NoVisualiser => "none",
            Self::PistonIn2d => "piston2d",
        }
    }

    fn short_name(&self) -> (name: &'static str) {
        match *self {
            Self::NoVisualiser => "none",
            Self::PistonIn2d => "pi2d",
        }
    }

    fn available_configurations(&self) -> (configurations: Vec<AvailableConfiguration>) {
        let configurations = match *self {
            Self::NoVisualiser => Vec::new(),
            Self::PistonIn2d => vec![
                AvailableConfiguration {
                    name: "window_title".to_owned(),
                    description: "Sets the window title.".to_owned(),
                    default: "Gymnarium Application".to_owned(),
                    data_type: "String".to_owned(),
                },
                AvailableConfiguration {
                    name: "window_dimension".to_owned(),
                    description: "Sets the window dimensions with which it should start. It's \
                        important to specify them with the parentheses and the comma.".to_owned(),
                    default: "(640, 480)".to_owned(),
                    data_type: "(u32, u32)".to_owned(),
                },
            ],
        };
        configurations
    }

    fn select(
        self,
        configuration: Configuration,
    ) -> (selection: Result<SelectedVisualiser, SelectError>) {
        match self {
            Self::NoVisualiser => Ok(SelectedVisualiser::NoVisualiser),
            Self::PistonIn2d => {
                let window_title_text = configuration.text_or(
                    "window_title",
                    "Gymnarium Application",
                );
                let window_title = window_title_text;
                let window_dimension_text = configuration.text_or("window_dimension", "(640, 480)");
                let window_dimension = match resolve_pair(window_dimension_text.as_str()) {
                    Ok(value) => value,
                    Err(error) => {
                        return Err(error);
                    },
                };
                Ok(SelectedVisualiser::PistonIn2d { window_title, window_dimension })
            },
        }
    }
}

impl FromStr for AvailableVisualiser {
    type Err = String;

    /// Finds the variant that goes by the given name, in any letter case. The
    /// text is compared in lowercase with the lowercase forms of the human, the
    /// long and the short name of each variant; the message for a text that is
    /// no name holds the text in lowercase.
    fn from_str(s: &str) -> (found: Result<Self, String>)
        ensures
            lookup_view(found) == looked_up::<SelectedVisualiser, AvailableVisualiser>(
                lowercase_of(s@),
                "visualisers"@,
            ),
            is_ascii_text(s@) ==> lookup_view(found) == looked_up::<
                SelectedVisualiser,
                AvailableVisualiser,
            >(
                ascii_lowercase(s@),
                "visualisers"@,
            ),
            found matches Ok(variant) ==> answers_to::<SelectedVisualiser, AvailableVisualiser>(
                variant,
                lowercase_of(s@),
            ),
    {
        let lower_s = lowercase(s);
        find_available::<SelectedVisualiser, AvailableVisualiser>(lower_s.as_str(), "visualisers")
    }
}

impl AvailableSupportsAvailable<SelectedEnvironment, AvailableEnvironment> for AvailableVisualiser {
    open spec fn supported(&self) -> Seq<AvailableEnvironment> {
        match *self {
            Self::NoVisualiser =>
                seq![
                    AvailableEnvironment::GymMountainCar,
                    AvailableEnvironment::CodeBulletAiLearnsToDrive,
                ],
            Self::PistonIn2d =>
                seq![
                    AvailableEnvironment::GymMountainCar,
                    AvailableEnvironment::CodeBulletAiLearnsToDrive,
                ],
        }
    }

    fn supports_available(&self) -> (supported: Vec<AvailableEnvironment>) {
        match *self {
            Self::NoVisualiser =>
                vec![
                    AvailableEnvironment::GymMountainCar,
                    AvailableEnvironment::CodeBulletAiLearnsToDrive,
                ],
            Self::PistonIn2d =>
                vec![
                    AvailableEnvironment::GymMountainCar,
                    AvailableEnvironment::CodeBulletAiLearnsToDrive,
                ],
        }
    }
}

impl AvailableSupportsAvailable<SelectedAgent, AvailableAgent> for AvailableVisualiser {
    open spec fn supported(&self) -> Seq<AvailableAgent> {
        match *self {
            Self::NoVisualiser => seq![AvailableAgent::Random],
            Self::PistonIn2d => seq![AvailableAgent::Random, AvailableAgent::Input],
        }
    }

    fn supports_available(&self) -> (supported: Vec<AvailableAgent>) {
        match *self {
            Self::NoVisualiser => vec![AvailableAgent::Random],
            Self::PistonIn2d => vec![AvailableAgent::Random, AvailableAgent::Input],
        }
    }
}

impl AvailableSupportsAvailable<SelectedExitCondition, AvailableExitCondition>
    for AvailableVisualiser
{
    open spec fn supported(&self) -> Seq<AvailableExitCondition> {
        match *self {
            Self::NoVisualiser => seq![AvailableExitCondition::EpisodesSimulated],
            Self::PistonIn2d =>
                seq![
                    AvailableExitCondition::EpisodesSimulated,
                    AvailableExitCondition::VisualiserClosed,
                ],
        }
    }

    fn supports_available(&self) -> (supported: Vec<AvailableExitCondition>) {
        match *self {
            Self::NoVisualiser => vec![AvailableExitCondition::EpisodesSimulated],
            Self::PistonIn2d =>
                vec![
                    AvailableExitCondition::EpisodesSimulated,
                    AvailableExitCondition::VisualiserClosed,
                ],
        }
    }
}

// Selected visualiser

/// A visualiser with the values of its options.
#[derive(Debug, PartialEq, Eq)]
pub enum SelectedVisualiser {
    NoVisualiser,
    PistonIn2d {
        window_title: String,
        window_dimension: (u32, u32),
    },
}

/// A visualiser with the values of its options, as a mathematical value.
pub enum SelectedVisualiserView {
    NoVisualiser,
    PistonIn2d {
        window_title: Seq<char>,
        window_dimension: (u32, u32),
    },
}

impl View for SelectedVisualiser {
    type V = SelectedVisualiserView;

    open spec fn view(&self) -> SelectedVisualiserView {
        match *self {
            SelectedVisualiser::NoVisualiser => SelectedVisualiserView::NoVisualiser,
            SelectedVisualiser::PistonIn2d { window_title, window_dimension } =>
                SelectedVisualiserView::PistonIn2d {
                window_title: window_title@,
                window_dimension,
            },
        }
    }
}

impl Selected<AvailableVisualiser> for SelectedVisualiser {
    open spec fn origin(&self) -> AvailableVisualiser {
        match *self {
            SelectedVisualiser::NoVisualiser => AvailableVisualiser::NoVisualiser,
            SelectedVisualiser::PistonIn2d { .. } => AvailableVisualiser::PistonIn2d,
        }
    }

    fn corresponding_available(&self) -> (available: AvailableVisualiser) {
        match *self {
            Self::NoVisualiser => AvailableVisualiser::NoVisualiser,
            Self::PistonIn2d { .. } => AvailableVisualiser::PistonIn2d,
        }
    }
}


// Available exit condition

/// The conditions on which a run ends.
#[derive(Clone, Copy, Debug, PartialEq, Eq, Structural)]
pub enum AvailableExitCondition {
    EpisodesSimulated,
    VisualiserClosed,
}

impl Available<SelectedExitCondition> for AvailableExitCondition {
    open spec fn variants() -> Seq<Self> {
        seq![Self::EpisodesSimulated, Self::VisualiserClosed]
    }

    open spec fn headline() -> Seq<char> {
        "Available Exit Conditions"@
    }

    open spec fn nice(&self) -> Seq<char> {
        match *self {
            Self::EpisodesSimulated => "episodes done simulating"@,
            Self::VisualiserClosed => "visualiser is closed"@,
        }
    }

    open spec fn long(&self) -> Seq<char> {
        match *self {
            Self::EpisodesSimulated => "episodes_done_simulating"@,
            Self::VisualiserClosed => "visualiser_is_closed"@,
        }
    }

    open spec fn short(&self) -> Seq<char> {
        match *self {
            Self::EpisodesSimulated => "epsdone"@,
            Self::VisualiserClosed => "visclosed"@,
        }
    }

    open spec fn schema(&self) -> Seq<OptionDescriptor> {
        match *self {
            Self::EpisodesSimulated => seq![
                OptionDescriptor {
                    name: "count_of_episodes"@,
                    description: "The number of episodes to run through before exiting."@,
                    default: "20"@,
                    data_type: "u128"@,
                },
            ],
            Self::VisualiserClosed => Seq::empty(),
        }
    }

    open spec fn built(&self, texts: Seq<Seq<char>>) -> Result<SelectedExitCondition, Seq<char>> {
        match *self {
            Self::EpisodesSimulated => {
                match resolved_unsigned(texts[0]) {
                    Err(description) => Err(description),
                    Ok(count_of_episodes) => {
                        Ok(SelectedExitCondition::EpisodesSimulated { count_of_episodes })
                    },
                }
            },
            Self::VisualiserClosed => Ok(SelectedExitCondition::VisualiserClosed),
        }
    }

    fn values() -> (values: Vec<Self>) {
        vec![Self::EpisodesSimulated, Self::VisualiserClosed]
    }

    fn category_headline() -> (headline: &'static str) {
        "Available Exit Conditions"
    }

    fn nice_name(&self) -> (name: &'static str) {
        match *self {
            Self::EpisodesSimulated => "episodes done simulating",
            Self::VisualiserClosed => "visualiser is closed",
        }
    }

    fn long_name(&self) -> (name: &'static str) {
        match *self {
            Self::EpisodesSimulated => "episodes_done_simulating",
            Self::VisualiserClosed => "visualiser_is_closed",
        }
    }

    fn short_name(&self) -> (name: &'static str) {
        match *self {
            Self::EpisodesSimulated => "epsdone",
            Self::VisualiserClosed => "visclosed",
        }
    }

    fn available_configurations(&self) -> (configurations: Vec<AvailableConfiguration>) {
        let configurations = match *self {
            Self::EpisodesSimulated => vec![
                AvailableConfiguration {
                    name: "count_of_episodes".to_owned(),
                    description: "The number of episodes to run through before exiting.".to_owned(),
                    default: "20".to_owned(),
                    data_type: "u128".to_owned(),
                },
            ],
            Self::VisualiserClosed => Vec::new(),
        };
        configurations
    }

    fn select(
        self,
        configuration: Configuration,
    ) -> (selection: Result<SelectedExitCondition, SelectError>) {
        match self {
            Self::EpisodesSimulated => {
                let count_of_episodes_text = configuration.text_or("count_of_episodes", "20");
                let count_of_episodes = match resolve_unsigned(count_of_episodes_text.as_str()) {
                    Ok(value) => value,
                    Err(error) => {
                        return Err(error);
                    },
                };
                Ok(SelectedExitCondition::EpisodesSimulated { count_of_episodes })
            },
            Self::VisualiserClosed => Ok(SelectedExitCondition::VisualiserClosed),
        }
    }
}

impl FromStr for AvailableExitCondition {
    type Err = String;

    /// Finds the variant that goes by the given name, in any letter case. The
    /// text is compared in lowercase with the lowercase forms of the human, the
    /// long and the short name of each variant; the message for a text that is
    /// no name holds the text in lowercase.
    fn from_str(s: &str) -> (found: Result<Self, String>)
        ensures
            lookup_view(found) == looked_up::<SelectedExitCondition, AvailableExitCondition>(
                lowercase_of(s@),
                "exit conditions"@,
            ),
            is_ascii_text(s@) ==> lookup_view(found) == looked_up::<
                SelectedExitCondition,
                AvailableExitCondition,
            >(
                ascii_lowercase(s@),
                "exit conditions"@,
            ),
            found matches Ok(variant) ==> answers_to::<
                SelectedExitCondition,
                AvailableExitCondition,
            >(variant, lowercase_of(s@)),
    {
        let lower_s = lowercase(s);
        find_available::<SelectedExitCondition, AvailableExitCondition>(
            lower_s.as_str(),
            "exit conditions",
        )
    }
}

impl AvailableSupportsAvailable<SelectedEnvironment, AvailableEnvironment>
    for AvailableExitCondition
{
    open spec fn supported(&self) -> Seq<AvailableEnvironment> {
        match *self {
            Self::EpisodesSimulated =>
                seq![
                    AvailableEnvironment::GymMountainCar,
                    AvailableEnvironment::CodeBulletAiLearnsToDrive,
                ],
            Self::VisualiserClosed =>
                seq![
                    AvailableEnvironment::GymMountainCar,
                    AvailableEnvironment::CodeBulletAiLearnsToDrive,
                ],
        }
    }

    fn supports_available(&self) -> (supported: Vec<AvailableEnvironment>) {
        match *self {
            Self::EpisodesSimulated =>
                vec![
                    AvailableEnvironment::GymMountainCar,
                    AvailableEnvironment::CodeBulletAiLearnsToDrive,
                ],
            Self::VisualiserClosed =>
                vec![
                    AvailableEnvironment::GymMountainCar,
                    AvailableEnvironment::CodeBulletAiLearnsToDrive,
                ],
        }
    }
}

impl AvailableSupportsAvailable<SelectedAgent, AvailableAgent> for AvailableExitCondition {
    open spec fn supported(&self) -> Seq<AvailableAgent> {
        match *self {
            Self::EpisodesSimulated => seq![AvailableAgent::Random, AvailableAgent::Input],
            Self::VisualiserClosed => seq![AvailableAgent::Random, AvailableAgent::Input],
        }
    }

    fn supports_available(&self) -> (supported: Vec<AvailableAgent>) {
        match *self {
            Self::EpisodesSimulated => vec![AvailableAgent::Random, AvailableAgent::Input],
            Self::VisualiserClosed => vec![AvailableAgent::Random, AvailableAgent::Input],
        }
    }
}

impl AvailableSupportsAvailable<SelectedVisualiser, AvailableVisualiser>
    for AvailableExitCondition
{
    open spec fn supported(&self) -> Seq<AvailableVisualiser> {
        match *self {
            Self::EpisodesSimulated =>
                seq![AvailableVisualiser::NoVisualiser, AvailableVisualiser::PistonIn2d],
            Self::VisualiserClosed => seq![AvailableVisualiser::PistonIn2d],
        }
    }

    fn supports_available(&self) -> (supported: Vec<AvailableVisualiser>) {
        match *self {
            Self::EpisodesSimulated =>
                vec![AvailableVisualiser::NoVisualiser, AvailableVisualiser::PistonIn2d],
            Self::VisualiserClosed => vec![AvailableVisualiser::PistonIn2d],
        }
    }
}

// Selected exit condition

/// An exit condition with the values of its options.
#[derive(Clone, Copy, Debug, PartialEq, Eq, Structural)]
pub enum SelectedExitCondition {
    EpisodesSimulated {
        count_of_episodes: u128,
    },
    VisualiserClosed,
}

impl View for SelectedExitCondition {
    type V = SelectedExitCondition;

    open spec fn view(&self) -> SelectedExitCondition {
        *self
    }
}

impl Selected<AvailableExitCondition> for SelectedExitCondition {
    open spec fn origin(&self) -> AvailableExitCondition {
        match *self {
            SelectedExitCondition::EpisodesSimulated { .. } =>
                AvailableExitCondition::EpisodesSimulated,
            SelectedExitCondition::VisualiserClosed => AvailableExitCondition::VisualiserClosed,
        }
    }

    fn corresponding_available(&self) -> (available: AvailableExitCondition) {
        match *self {
            Self::EpisodesSimulated { .. } => AvailableExitCondition::EpisodesSimulated,
            Self::VisualiserClosed => AvailableExitCondition::VisualiserClosed,
        }
    }
}

// Laws

/// A list of one holds exactly its item.
pub proof fn lemma_list_of_one<T>(only: T, item: T)
    ensures
        seq![only].contains(item) <==> item == only,
{
    assert(seq![only][0] == only);
}

/// A list of two holds exactly its two items.
pub proof fn lemma_list_of_two<T>(first: T, second: T, item: T)
    ensures
        seq![first, second].contains(item) <==> (item == first || item == second),
{
    assert(seq![first, second][0] == first);
    assert(seq![first, second][1] == second);
}

/// Environments and agents agree on which of them can be combined: the
/// one is in the list of the other if and only if the other is in the list of the one.
pub proof fn law_environment_agent_symmetry(
    environment: AvailableEnvironment,
    agent: AvailableAgent,
)
    ensures
        supports::<SelectedEnvironment, AvailableEnvironment, SelectedAgent, AvailableAgent>(
            environment,
            agent,
        ) == supports::<SelectedAgent, AvailableAgent, SelectedEnvironment, AvailableEnvironment>(
            agent,
            environment,
        ),
{
}

/// Environments and visualisers agree on which of them can be combined: the
/// one is in the list of the other if and only if the other is in the list of the one.
pub proof fn law_environment_visualiser_symmetry(
    environment: AvailableEnvironment,
    visualiser: AvailableVisualiser,
)
    ensures
        supports::<
            SelectedEnvironment,
            AvailableEnvironment,
            SelectedVisualiser,
            AvailableVisualiser,
        >(
            environment,
            visualiser,
        ) == supports::<
            SelectedVisualiser,
            AvailableVisualiser,
            SelectedEnvironment,
            AvailableEnvironment,
        >(
            visualiser,
            environment,
        ),
{
}

/// Environments and exit conditions agree on which of them can be combined: the
/// one is in the list of the other if and only if the other is in the list of the one.
pub proof fn law_environment_exit_condition_symmetry(
    environment: AvailableEnvironment,
    exit_condition: AvailableExitCondition,
)
    ensures
        supports::<
            SelectedEnvironment,
            AvailableEnvironment,
            SelectedExitCondition,
            AvailableExitCondition,
        >(
            environment,
            exit_condition,
        ) == supports::<
            SelectedExitCondition,
            AvailableExitCondition,
            SelectedEnvironment,
            AvailableEnvironment,
        >(
            exit_condition,
            environment,
        ),
{
}

/// Agents and visualisers agree on which of them can be combined: the
/// one is in the list of the other if and only if the other is in the list of the one.
pub proof fn law_agent_visualiser_symmetry(agent: AvailableAgent, visualiser: AvailableVisualiser)
    ensures
        supports::<SelectedAgent, AvailableAgent, SelectedVisualiser, AvailableVisualiser>(
            agent,
            visualiser,
        ) == supports::<SelectedVisualiser, AvailableVisualiser, SelectedAgent, AvailableAgent>(
            visualiser,
            agent,
        ),
{
    lemma_list_of_one(AvailableVisualiser::PistonIn2d, visualiser);
    lemma_list_of_one(AvailableAgent::Random, agent);
    lemma_list_of_two(
        AvailableVisualiser::NoVisualiser,
        AvailableVisualiser::PistonIn2d,
        visualiser,
    );
    lemma_list_of_two(AvailableAgent::Random, AvailableAgent::Input, agent);
}

/// Agents and exit conditions agree on which of them can be combined: the
/// one is in the list of the other if and only if the other is in the list of the one.
pub proof fn law_agent_exit_condition_symmetry(
    agent: AvailableAgent,
    exit_condition: AvailableExitCondition,
)
    ensures
        supports::<SelectedAgent, AvailableAgent, SelectedExitCondition, AvailableExitCondition>(
            agent,
            exit_condition,
        ) == supports::<
            SelectedExitCondition,
            AvailableExitCondition,
            SelectedAgent,
            AvailableAgent,
        >(
            exit_condition,
            agent,
        ),
{
}

/// Visualisers and exit conditions agree on which of them can be combined: the
/// one is in the list of the other if and only if the other is in the list of the one.
pub proof fn law_visualiser_exit_condition_symmetry(
    visualiser: AvailableVisualiser,
    exit_condition: AvailableExitCondition,
)
    ensures
        supports::<
            SelectedVisualiser,
            AvailableVisualiser,
            SelectedExitCondition,
            AvailableExitCondition,
        >(
            visualiser,
            exit_condition,
        ) == supports::<
            SelectedExitCondition,
            AvailableExitCondition,
            SelectedVisualiser,
            AvailableVisualiser,
        >(
            exit_condition,
            visualiser,
        ),
{
    lemma_list_of_one(AvailableVisualiser::PistonIn2d, visualiser);
    lemma_list_of_one(AvailableExitCondition::EpisodesSimulated, exit_condition);
    lemma_list_of_two(
        AvailableVisualiser::NoVisualiser,
        AvailableVisualiser::PistonIn2d,
        visualiser,
    );
    lemma_list_of_two(
        AvailableExitCondition::EpisodesSimulated,
        AvailableExitCondition::VisualiserClosed,
        exit_condition,
    );
}

/// Alias resolution: each of the three names of an environment, in lowercase, leads to
/// that environment and to no other. With what [`FromStr::from_str`] ensures, a
/// name written in any letter case is resolved to its variant.
pub proof fn law_environment_names_resolve(
    variant: AvailableEnvironment,
    lowered: Seq<char>,
    category: Seq<char>,
)
    requires
        answers_to::<SelectedEnvironment, AvailableEnvironment>(variant, lowered),
    ensures
        looked_up::<SelectedEnvironment, AvailableEnvironment>(lowered, category)
            == Ok::<AvailableEnvironment, Seq<char>>(variant),
{
    reveal_strlit("Gym MountainCar");
    reveal_strlit("gym_mountaincar");
    reveal_strlit("g_mc");
    reveal_strlit("Code Bullet AI Learns to DRIVE");
    reveal_strlit("code_bullet_ai_learns_to_drive");
    reveal_strlit("cb_drive");
    let first = AvailableEnvironment::GymMountainCar;
    assert(ascii_lowercase(first.nice())[0] == 'g');
    assert(ascii_lowercase(first.long())[0] == 'g');
    assert(ascii_lowercase(first.short())[0] == 'g');
    reveal_with_fuel(first_answering, 3);
}

/// Alias resolution: each of the three names of an agent, in lowercase, leads to
/// that agent and to no other. With what [`FromStr::from_str`] ensures, a
/// name written in any letter case is resolved to its variant.
pub proof fn law_agent_names_resolve(
    variant: AvailableAgent,
    lowered: Seq<char>,
    category: Seq<char>,
)
    requires
        answers_to::<SelectedAgent, AvailableAgent>(variant, lowered),
    ensures
        looked_up::<SelectedAgent, AvailableAgent>(lowered, category)
            == Ok::<AvailableAgent, Seq<char>>(variant),
{
    reveal_strlit("Random");
    reveal_strlit("random");
    reveal_strlit("rand");
    reveal_strlit("Input");
    reveal_strlit("input");
    reveal_strlit("inp");
    let first = AvailableAgent::Random;
    assert(ascii_lowercase(first.nice())[0] == 'r');
    assert(ascii_lowercase(first.long())[0] == 'r');
    assert(ascii_lowercase(first.short())[0] == 'r');
    reveal_with_fuel(first_answering, 3);
}

/// Alias resolution: each of the three names of a visualiser, in lowercase, leads to
/// that visualiser and to no other. With what [`FromStr::from_str`] ensures, a
/// name written in any letter case is resolved to its variant.
pub proof fn law_visualiser_names_resolve(
    variant: AvailableVisualiser,
    lowered: Seq<char>,
    category: Seq<char>,
)
    requires
        answers_to::<SelectedVisualiser, AvailableVisualiser>(variant, lowered),
    ensures
        looked_up::<SelectedVisualiser, AvailableVisualiser>(lowered, category)
            == Ok::<AvailableVisualiser, Seq<char>>(variant),
{
    reveal_strlit("None");
    reveal_strlit("none");
    reveal_strlit("Piston in 2D");
    reveal_strlit("piston2d");
    reveal_strlit("pi2d");
    let first = AvailableVisualiser::NoVisualiser;
    assert(ascii_lowercase(first.nice())[0] == 'n');
    assert(ascii_lowercase(first.long())[0] == 'n');
    reveal_with_fuel(first_answering, 3);
}

/// Alias resolution: each of the three names of an exit condition, in lowercase, leads to
/// that exit condition and to no other. With what [`FromStr::from_str`] ensures, a
/// name written in any letter case is resolved to its variant.
pub proof fn law_exit_condition_names_resolve(
    variant: AvailableExitCondition,
    lowered: Seq<char>,
    category: Seq<char>,
)
    requires
        answers_to::<SelectedExitCondition, AvailableExitCondition>(variant, lowered),
    ensures
        looked_up::<SelectedExitCondition, AvailableExitCondition>(lowered, category)
            == Ok::<AvailableExitCondition, Seq<char>>(variant),
{
    reveal_strlit("episodes done simulating");
    reveal_strlit("episodes_done_simulating");
    reveal_strlit("epsdone");
    reveal_strlit("visualiser is closed");
    reveal_strlit("visualiser_is_closed");
    reveal_strlit("visclosed");
    let first = AvailableExitCondition::EpisodesSimulated;
    assert(ascii_lowercase(first.nice())[0] == 'e');
    assert(ascii_lowercase(first.long())[0] == 'e');
    assert(ascii_lowercase(first.short())[0] == 'e');
    reveal_with_fuel(first_answering, 3);
}

/// Default application for environments: under the empty configuration the goal
/// velocity is `0.0`, the sensor lines are hidden and the track is shown.
pub proof fn law_environment_defaults()
    ensures
        resolved::<SelectedEnvironment, AvailableEnvironment>(
            AvailableEnvironment::GymMountainCar,
            Map::empty(),
        ) == Ok::<SelectedEnvironmentView, Seq<char>>(
            SelectedEnvironmentView::GymMountainCar { goal_velocity: "0.0"@ },
        ),
        resolved::<SelectedEnvironment, AvailableEnvironment>(
            AvailableEnvironment::CodeBulletAiLearnsToDrive,
            Map::empty(),
        ) == Ok::<SelectedEnvironmentView, Seq<char>>(
            SelectedEnvironmentView::CodeBulletAiLearnsToDrive {
                sensor_lines_visible: false,
                track_visible: true,
            },
        ),
{
    reveal_strlit("0.0");
    reveal_strlit("true");
    reveal_strlit("false");
    reveal_with_fuel(digits_end, 3);
}

/// Default application for agents: no agent has an option, so every
/// configuration selects the agent as it is.
pub proof fn law_agent_defaults(agent: AvailableAgent, configuration: Map<Seq<char>, Seq<char>>)
    ensures
        resolved::<SelectedAgent, AvailableAgent>(agent, configuration) matches Ok(selected)
            && selected.origin() == agent,
{
}

/// Default application for visualisers: under the empty configuration the
/// window is titled `Gymnarium Application` and is 640 by 480 in size.
pub proof fn law_visualiser_defaults()
    ensures
        resolved::<SelectedVisualiser, AvailableVisualiser>(
            AvailableVisualiser::NoVisualiser,
            Map::empty(),
        ) == Ok::<SelectedVisualiserView, Seq<char>>(SelectedVisualiserView::NoVisualiser),
        resolved::<SelectedVisualiser, AvailableVisualiser>(
            AvailableVisualiser::PistonIn2d,
            Map::empty(),
        ) == Ok::<SelectedVisualiserView, Seq<char>>(
            SelectedVisualiserView::PistonIn2d {
                window_title: "Gymnarium Application"@,
                window_dimension: (640, 480),
            },
        ),
{
    reveal_strlit("(640, 480)");
    let text = "(640, 480)"@;
    let body = pair_body(text);
    lemma_split_at_last_separator(body, 3, ',');
    let width = body.take(3);
    let height = body.skip(4);
    lemma_split_without_separator(width, ',');
    let number = height.drop_first();
    assert(trimmed(height) == number) by {
        reveal_with_fuel(trimmed_start, 3);
    }
    assert(parsed_unsigned(width, u32::MAX as nat) == Ok::<nat, NumberFault>(640nat)) by {
        lemma_three_digits(width, u32::MAX as nat);
    }
    assert(parsed_unsigned(number, u32::MAX as nat) == Ok::<nat, NumberFault>(480nat)) by {
        lemma_three_digits(number, u32::MAX as nat);
    }
    reveal_with_fuel(parsed_numbers, 3);
}

/// The number that three decimal digits name, where it is within the bound.
proof fn lemma_three_digits(digits: Seq<char>, max: nat)
    requires
        digits.len() == 3,
        digit_of(digits[0]) is Some,
        digit_of(digits[1]) is Some,
        digit_of(digits[2]) is Some,
        max >= 999,
    ensures
        parsed_unsigned(digits, max) == Ok::<nat, NumberFault>(
            digit_of(digits[0])->0 * 100 + digit_of(digits[1])->0 * 10 + digit_of(digits[2])->0,
        ),
{
    reveal_with_fuel(accumulated, 4);
}

/// Default application for exit conditions: under the empty configuration a
/// run ends after twenty episodes.
pub proof fn law_exit_condition_defaults()
    ensures
        resolved::<SelectedExitCondition, AvailableExitCondition>(
            AvailableExitCondition::EpisodesSimulated,
            Map::empty(),
        ) == Ok::<SelectedExitCondition, Seq<char>>(
            SelectedExitCondition::EpisodesSimulated { count_of_episodes: 20 },
        ),
        resolved::<SelectedExitCondition, AvailableExitCondition>(
            AvailableExitCondition::VisualiserClosed,
            Map::empty(),
        ) == Ok::<SelectedExitCondition, Seq<char>>(SelectedExitCondition::VisualiserClosed),
{
    reveal_strlit("20");
    reveal_with_fuel(accumulated, 3);
}

} // verus!
