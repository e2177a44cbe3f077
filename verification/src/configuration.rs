//! Configuration maps and the text form `key=value;key=value` in which they are
//! written down.
//!
//! In the text form a backslash takes the character after it literally, so that
//! keys and values can hold `;`, `=` and `\`.

use vstd::prelude::*;
use vstd::hash_map::StringHashMap;
use crate::text::{chars_of, string_of};

verus! {

/// A map from option names to raw option texts.
pub struct Configuration {
    entries: StringHashMap<String>,
}

impl View for Configuration {
    type V = Map<Seq<char>, Seq<char>>;

    closed spec fn view(&self) -> Map<Seq<char>, Seq<char>> {
        self.entries@.map_values(|value: String| value@)
    }
}

impl Configuration {
    /// The empty configuration.
    pub fn new() -> (configuration: Configuration)
        ensures
            configuration@ == Map::<Seq<char>, Seq<char>>::empty(),
    {
        let configuration = Configuration { entries: StringHashMap::new() };
        configuration
    }

    /// Sets the text of an option, replacing any text it had.
    pub fn insert(&mut self, key: String, value: String)
        ensures
            final(self)@ == old(self)@.insert(key@, value@),
    {
        self.entries.insert(key, value);
    }

    /// Whether the option has a text.
    pub fn contains_key(&self, key: &str) -> (contains: bool)
        ensures
            contains == self@.contains_key(key@),
    {
        self.entries.contains_key(key)
    }

    /// The text of an option, if it has one.
    pub fn get(&self, key: &str) -> (value: Option<String>)
        ensures
            match value {
                Some(text) => self@.contains_key(key@) && text@ == self@[key@],
                None => !self@.contains_key(key@),
            },
    {
        match self.entries.get(key) {
            Some(text) => Some(text.clone()),
            None => None,
        }
    }

    /// The number of options that have a text.
    pub fn len(&self) -> (len: usize)
        ensures
            len == self@.len(),
    {
        assert(self@.dom() =~= self.entries@.dom());
        self.entries.len()
    }
}

/// The text of an option: what the configuration holds for its name, else the
/// given default.
pub open spec fn option_text(
    configuration: Map<Seq<char>, Seq<char>>,
    name: Seq<char>,
    default: Seq<char>,
) -> Seq<char> {
    if configuration.contains_key(name) {
        configuration[name]
    } else {
        default
    }
}

impl Configuration {
    /// The text of an option: what the configuration holds for its name, else the
    /// given default.
    pub fn text_or(&self, name: &str, default: &str) -> (text: String)
        ensures
            text@ == option_text(self@, name@, default@),
    {
        match self.get(name) {
            Some(text) => text,
            None => default.to_owned(),
        }
    }
}

/// The state of the scan over a configuration text.
#[verifier::ext_equal]
pub struct Scan {
    /// The pairs completed so far.
    pub entries: Map<Seq<char>, Seq<char>>,
    /// The key read so far.
    pub key: Seq<char>,
    /// The value read so far.
    pub value: Seq<char>,
    /// Whether the scan stands in a value, behind the `=` of its pair.
    pub in_value: bool,
    /// Whether the last character was a backslash that takes the next one literally.
    pub escaped: bool,
}

/// The state before the first character.
pub open spec fn scan_start() -> Scan {
    Scan {
        entries: Map::empty(),
        key: Seq::empty(),
        value: Seq::empty(),
        in_value: false,
        escaped: false,
    }
}

/// Reads one character. An unescaped backslash escapes the next character; an
/// unescaped `=` in a key starts the value; an unescaped `;` in a value completes
/// the pair; every other character is added to the key or the value.
pub open spec fn scan_step(state: Scan, c: char) -> Scan {
    if !state.escaped && c == '\\' {
        Scan { escaped: true, ..state }
    } else if !state.escaped && !state.in_value && c == '=' {
        Scan { in_value: true, ..state }
    } else if !state.escaped && state.in_value && c == ';' {
        Scan {
            entries: state.entries.insert(state.key, state.value),
            key: Seq::empty(),
            value: Seq::empty(),
            in_value: false,
            escaped: false,
        }
    } else if state.in_value {
        Scan { value: state.value.push(c), escaped: false, ..state }
    } else {
        Scan { key: state.key.push(c), escaped: false, ..state }
    }
}

/// Reads a text from left to right, starting in the given state.
pub open spec fn scan_from(state: Scan, text: Seq<char>) -> Scan
    decreases text.len(),
{
    if text.len() == 0 {
        state
    } else {
        scan_step(scan_from(state, text.drop_last()), text.last())
    }
}

/// The pairs of a scan that has reached the end of its text: a pair whose value
/// was begun counts, a key without `=` does not.
pub open spec fn scan_end(state: Scan) -> Map<Seq<char>, Seq<char>> {
    if state.in_value {
        state.entries.insert(state.key, state.value)
    } else {
        state.entries
    }
}

/// The configuration that a text stands for.
pub open spec fn parsed_configuration(text: Seq<char>) -> Map<Seq<char>, Seq<char>> {
    scan_end(scan_from(scan_start(), text))
}

/// Reads a configuration from its text form. Every text stands for a
/// configuration: a later pair replaces an earlier one with the same key, and a
/// trailing key without `=` is dropped.
pub fn split_config(configuration_string: &str) -> (output: Configuration)
    ensures
        output@ == parsed_configuration(configuration_string@),
{
    let chars = chars_of(configuration_string);
    let mut output = Configuration::new();
    let mut key: Vec<char> = Vec::new();
    let mut value: Vec<char> = Vec::new();
    let mut currently_parsing_value = false;
    let mut next_escaped = false;
    let mut i: usize = 0;
    while i < chars.len()
        invariant
            i <= chars.len(),
            scan_from(scan_start(), chars@.take(i as int)) == (Scan {
                entries: output@,
                key: key@,
                value: value@,
                in_value: currently_parsing_value,
                escaped: next_escaped,
            }),
        decreases chars.len() - i,
    {
        let c = chars[i];
        assert(chars@.take(i + 1).drop_last() == chars@.take(i as int));
        if !next_escaped && c == '\\' {
            next_escaped = true;
        } else if !next_escaped && !currently_parsing_value && c == '=' {
            currently_parsing_value = true;
        } else if !next_escaped && currently_parsing_value && c == ';' {
            output.insert(string_of(&key), string_of(&value));
            key = Vec::new();
            value = Vec::new();
            currently_parsing_value = false;
        } else {
            next_escaped = false;
            if currently_parsing_value {
                value.push(c);
            } else {
                key.push(c);
            }
        }
        i = i + 1;
    }
    assert(chars@.take(chars.len() as int) == chars@);
    if currently_parsing_value {
        output.insert(string_of(&key), string_of(&value));
    }
    output
}

/// Whether a character of a key is written with a backslash before it.
pub open spec fn escaped_in_key(c: char) -> bool {
    c == '\\' || c == ';' || c == '='
}

/// Whether a character of a value is written with a backslash before it.
pub open spec fn escaped_in_value(c: char) -> bool {
    c == '\\' || c == ';'
}

/// The text form of a key.
pub open spec fn written_key(key: Seq<char>) -> Seq<char>
    decreases key.len(),
{
    if key.len() == 0 {
        Seq::empty()
    } else if escaped_in_key(key.last()) {
        written_key(key.drop_last()).push('\\').push(key.last())
    } else {
        written_key(key.drop_last()).push(key.last())
    }
}

/// The text form of a value.
pub open spec fn written_value(value: Seq<char>) -> Seq<char>
    decreases value.len(),
{
    if value.len() == 0 {
        Seq::empty()
    } else if escaped_in_value(value.last()) {
        written_value(value.drop_last()).push('\\').push(value.last())
    } else {
        written_value(value.drop_last()).push(value.last())
    }
}

/// The text form of one pair.
pub open spec fn written_pair(pair: (Seq<char>, Seq<char>)) -> Seq<char> {
    written_key(pair.0).push('=') + written_value(pair.1)
}

/// The text form of a list of pairs: the pairs in order, with `;` between them.
pub open spec fn serialized(pairs: Seq<(Seq<char>, Seq<char>)>) -> Seq<char>
    decreases pairs.len(),
{
    if pairs.len() == 0 {
        Seq::empty()
    } else if pairs.len() == 1 {
        written_pair(pairs[0])
    } else {
        serialized(pairs.drop_last()).push(';') + written_pair(pairs.last())
    }
}

/// The configuration that a list of pairs makes: a later pair replaces an
/// earlier one with the same key.
pub open spec fn map_of(pairs: Seq<(Seq<char>, Seq<char>)>) -> Map<Seq<char>, Seq<char>>
    decreases pairs.len(),
{
    if pairs.len() == 0 {
        Map::empty()
    } else {
        map_of(pairs.drop_last()).insert(pairs.last().0, pairs.last().1)
    }
}

/// The pairs of an executable list as texts.
pub open spec fn pairs_view(pairs: Seq<(String, String)>) -> Seq<(Seq<char>, Seq<char>)> {
    Seq::new(pairs.len(), |i: int| (pairs[i].0@, pairs[i].1@))
}

/// Appends the text form of a key or of a value to `output`.
fn write_escaped(output: &mut Vec<char>, text: &str, key: bool)
    ensures
        final(output)@ == old(output)@ + (if key {
            written_key(text@)
        } else {
            written_value(text@)
        }),
{
    let chars = chars_of(text);
    let mut i: usize = 0;
    while i < chars.len()
        invariant
            i <= chars.len(),
            output@ == old(output)@ + (if key {
                written_key(chars@.take(i as int))
            } else {
                written_value(chars@.take(i as int))
            }),
        decreases chars.len() - i,
    {
        let c = chars[i];
        assert(chars@.take(i + 1).drop_last() == chars@.take(i as int));
        if c == '\\' || c == ';' || (key && c == '=') {
            output.push('\\');
        }
        output.push(c);
        i = i + 1;
    }
    assert(chars@.take(chars.len() as int) == chars@);
}

/// Writes a list of pairs in the text form that [`split_config`] reads.
pub fn join_config(pairs: &Vec<(String, String)>) -> (text: String)
    ensures
        text@ == serialized(pairs_view(pairs@)),
{
    let mut output: Vec<char> = Vec::new();
    let mut i: usize = 0;
    let ghost all = pairs_view(pairs@);
    while i < pairs.len()
        invariant
            i <= pairs.len(),
            all == pairs_view(pairs@),
            output@ == serialized(all.take(i as int)),
        decreases pairs.len() - i,
    {
        assert(all.take(i + 1).drop_last() == all.take(i as int));
        if i > 0 {
            output.push(';');
        }
        write_escaped(&mut output, pairs[i].0.as_str(), true);
        output.push('=');
        write_escaped(&mut output, pairs[i].1.as_str(), false);
        i = i + 1;
    }
    assert(all.take(pairs.len() as int) == all);
    string_of(&output)
}

/// Reading a text in two parts is reading the first part and going on with the
/// second from the state reached.
pub proof fn lemma_scan_concat(state: Scan, first: Seq<char>, second: Seq<char>)
    ensures
        scan_from(state, first + second) == scan_from(scan_from(state, first), second),
    decreases second.len(),
{
    if second.len() == 0 {
    } else {
        assert((first + second).drop_last() == first + second.drop_last());
        lemma_scan_concat(state, first, second.drop_last());
    }
}

/// Reading the text form of a key, in a key and with no escape pending, adds the
/// key itself to the key read so far.
pub proof fn lemma_scan_written_key(state: Scan, key: Seq<char>)
    requires
        !state.escaped,
        !state.in_value,
    ensures
        scan_from(state, written_key(key)) == (Scan { key: state.key + key, ..state }),
    decreases key.len(),
{
    if key.len() == 0 {
    } else {
        let head = key.drop_last();
        let c = key.last();
        lemma_scan_written_key(state, head);
        let reached = Scan { key: state.key + head, ..state };
        if escaped_in_key(c) {
            let text = written_key(head).push('\\').push(c);
            assert(text.drop_last() == written_key(head).push('\\'));
            assert(written_key(head).push('\\').drop_last() == written_key(head));
            assert(scan_from(state, written_key(head).push('\\')) == (Scan {
                escaped: true,
                ..reached
            }));
        } else {
            assert(written_key(head).push(c).drop_last() == written_key(head));
        }
    }
}

/// Reading the text form of a value, in a value and with no escape pending, adds
/// the value itself to the value read so far.
pub proof fn lemma_scan_written_value(state: Scan, value: Seq<char>)
    requires
        !state.escaped,
        state.in_value,
    ensures
        scan_from(state, written_value(value)) == (Scan { value: state.value + value, ..state }),
    decreases value.len(),
{
    if value.len() == 0 {
    } else {
        let head = value.drop_last();
        let c = value.last();
        lemma_scan_written_value(state, head);
        let reached = Scan { value: state.value + head, ..state };
        if escaped_in_value(c) {
            let text = written_value(head).push('\\').push(c);
            assert(text.drop_last() == written_value(head).push('\\'));
            assert(written_value(head).push('\\').drop_last() == written_value(head));
            assert(scan_from(state, written_value(head).push('\\')) == (Scan {
                escaped: true,
                ..reached
            }));
        } else {
            assert(written_value(head).push(c).drop_last() == written_value(head));
        }
    }
}

/// Reading the text form of a pair at the start of a pair leaves the scan in the
/// value of that pair, with its key and value read in full.
pub proof fn lemma_scan_written_pair(
    entries: Map<Seq<char>, Seq<char>>,
    pair: (Seq<char>, Seq<char>),
)
    ensures
        scan_from(Scan { entries, ..scan_start() }, written_pair(pair)) == (Scan {
            entries,
            key: pair.0,
            value: pair.1,
            in_value: true,
            escaped: false,
        }),
{
    let start = Scan { entries, ..scan_start() };
    let keyed = Scan { key: pair.0, ..start };
    let begun = Scan { in_value: true, ..keyed };
    lemma_scan_written_key(start, pair.0);
    assert(written_key(pair.0).push('=').drop_last() == written_key(pair.0));
    lemma_scan_concat(start, written_key(pair.0).push('='), written_value(pair.1));
    lemma_scan_written_value(begun, pair.1);
}

/// Reading the text form of a non-empty list of pairs leaves the scan in the
/// value of the last pair, with the pairs before it completed.
pub proof fn lemma_scan_serialized(pairs: Seq<(Seq<char>, Seq<char>)>)
    requires
        pairs.len() > 0,
    ensures
        scan_from(scan_start(), serialized(pairs)) == (Scan {
            entries: map_of(pairs.drop_last()),
            key: pairs.last().0,
            value: pairs.last().1,
            in_value: true,
            escaped: false,
        }),
    decreases pairs.len(),
{
    if pairs.len() == 1 {
        lemma_scan_written_pair(Map::empty(), pairs.last());
    } else {
        let head = pairs.drop_last();
        lemma_scan_serialized(head);
        let text = serialized(head).push(';');
        assert(text.drop_last() == serialized(head));
        lemma_scan_concat(scan_start(), text, written_pair(pairs.last()));
        lemma_scan_written_pair(map_of(head), pairs.last());
    }
}

/// Round trip over lists: the text form of any list of pairs, whatever
/// characters its keys and values hold, is read back as the configuration that
/// the pairs make.
pub proof fn law_pairs_round_trip(pairs: Seq<(Seq<char>, Seq<char>)>)
    ensures
        parsed_configuration(serialized(pairs)) == map_of(pairs),
{
    if pairs.len() > 0 {
        lemma_scan_serialized(pairs);
    }
}

/// The pairs of a finite configuration, in some order.
pub open spec fn pairs_of(configuration: Map<Seq<char>, Seq<char>>) -> Seq<(Seq<char>, Seq<char>)>
    decreases configuration.dom().len(),
    when configuration.dom().finite()
{
    if configuration.dom().len() == 0 {
        Seq::empty()
    } else {
        let key = configuration.dom().choose();
        pairs_of(configuration.remove(key)).push((key, configuration[key]))
    }
}

/// The pairs of a finite configuration make that configuration.
pub proof fn lemma_pairs_make_map(configuration: Map<Seq<char>, Seq<char>>)
    requires
        configuration.dom().finite(),
    ensures
        map_of(pairs_of(configuration)) == configuration,
    decreases configuration.dom().len(),
{
    if configuration.dom().len() == 0 {
    } else {
        let key = configuration.dom().choose();
        let rest = configuration.remove(key);
        lemma_pairs_make_map(rest);
        let pairs = pairs_of(configuration);
        assert(pairs.drop_last() == pairs_of(rest));
    }
}

/// Round trip: every finite configuration, whatever characters its keys and
/// values hold, has a text form, and that text is read back as the
/// configuration itself.
pub proof fn law_round_trip(configuration: Map<Seq<char>, Seq<char>>)
    requires
        configuration.dom().finite(),
    ensures
        parsed_configuration(serialized(pairs_of(configuration))) == configuration,
{
    lemma_pairs_make_map(configuration);
    law_pairs_round_trip(pairs_of(configuration));
}

} // verus!
