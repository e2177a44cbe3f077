//! The texts in which the catalogue is described to a user.

use vstd::prelude::*;
use crate::availables::{descriptors, Available, AvailableConfiguration, OptionDescriptor, Selected};
use crate::text::{append_str, string_of};

verus! {

/// The line that names a variant: its human name, then its long and its short
/// name in parentheses.
pub open spec fn available_value_text<S: Selected<A>, A: Available<S>>(variant: A) -> Seq<char> {
    "  \r\n- "@ + variant.nice() + " ("@ + variant.long() + ", "@ + variant.short() + ")"@
}

/// Writes the line that names a variant.
pub fn format_available_value<S: Selected<A>, A: Available<S>>(available: A) -> (line: String)
    ensures
        line@ == available_value_text::<S, A>(available),
{
    let mut line: Vec<char> = Vec::new();
    append_str(&mut line, "  \r\n- ");
    append_str(&mut line, available.nice_name());
    append_str(&mut line, " (");
    append_str(&mut line, available.long_name());
    append_str(&mut line, ", ");
    append_str(&mut line, available.short_name());
    append_str(&mut line, ")");
    string_of(&line)
}

/// The lines that describe one option: its name with its type and default,
/// and below that what it is for.
pub open spec fn option_text(option: OptionDescriptor) -> Seq<char> {
    "\r\n  > "@ + option.name + " ["@ + option.data_type + "; default: "@ + option.default
        + "]\r\n    "@ + option.description
}

/// The lines that describe the options of a schema, in order.
pub open spec fn options_text(schema: Seq<OptionDescriptor>) -> Seq<char>
    decreases schema.len(),
{
    if schema.len() == 0 {
        Seq::empty()
    } else {
        options_text(schema.drop_last()) + option_text(schema.last())
    }
}

/// The lines that describe the options of a variant: its human name, then its
/// options, or `n/a` where it has none.
pub open spec fn configuration_options_text<S: Selected<A>, A: Available<S>>(variant: A) -> Seq<
    char,
> {
    "- "@ + variant.nice() + ": "@ + if variant.schema().len() == 0 {
        "n/a\r\n"@
    } else {
        options_text(variant.schema()) + "\r\n"@
    }
}

/// Appends the lines that describe one option.
fn write_option(lines: &mut Vec<char>, option: &AvailableConfiguration)
    ensures
        final(lines)@ == old(lines)@ + option_text(option@),
{
    append_str(lines, "\r\n  > ");
    append_str(lines, option.name.as_str());
    append_str(lines, " [");
    append_str(lines, option.data_type.as_str());
    append_str(lines, "; default: ");
    append_str(lines, option.default.as_str());
    append_str(lines, "]\r\n    ");
    append_str(lines, option.description.as_str());
}

/// Writes the lines that describe the options of a variant.
pub fn format_configuration_options<S: Selected<A>, A: Available<S>>(
    available: A,
) -> (lines: String)
    ensures
        lines@ == configuration_options_text::<S, A>(available),
{
    let available_configurations = available.available_configurations();
    let ghost schema = available.schema();
    let mut lines: Vec<char> = Vec::new();
    append_str(&mut lines, "- ");
    append_str(&mut lines, available.nice_name());
    append_str(&mut lines, ": ");
    let ghost head = lines@;
    if available_configurations.len() == 0 {
        append_str(&mut lines, "n/a\r\n");
    } else {
        let mut i: usize = 0;
        while i < available_configurations.len()
            invariant
                i <= available_configurations.len(),
                schema == descriptors(available_configurations@),
                lines@ == head + options_text(schema.take(i as int)),
            decreases available_configurations.len() - i,
        {
            assert(schema.take(i + 1).drop_last() == schema.take(i as int));
            write_option(&mut lines, &available_configurations[i]);
            i = i + 1;
        }
        assert(schema.take(schema.len() as int) == schema);
        append_str(&mut lines, "\r\n");
    }
    string_of(&lines)
}

} // verus!
