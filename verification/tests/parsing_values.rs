use gymnarium_application::parsing::{
    check_float, float_literal, parse_boolean, parse_pair, parse_position, parse_u128,
    parse_unsigned, split_ranges, FloatFault, NumberFault, PairFault,
};
use gymnarium_application::text::{
    ascii_lowercase_from, chars_of, ends_with, same_text, string_of, trim, whitespace,
};

fn chars(text: &str) -> Vec<char> {
    chars_of(text)
}

#[test]
fn chars_and_strings_convert_both_ways() {
    let text = "a\u{e9}\u{1F600} z";
    let characters = chars(text);
    assert_eq!(characters, vec!['a', '\u{e9}', '\u{1F600}', ' ', 'z']);
    assert_eq!(string_of(&characters), text);
    assert_eq!(string_of(&Vec::new()), "");
}

#[test]
fn whitespace_is_what_the_standard_library_calls_whitespace() {
    let mut code: u32 = 0;
    while code <= 0x10FFFF {
        if let Some(character) = char::from_u32(code) {
            assert_eq!(
                whitespace(character),
                character.is_whitespace(),
                "code point {:x}",
                code
            );
        }
        code += 1;
    }
}

#[test]
fn trim_removes_whitespace_at_both_ends_only() {
    for text in [
        "",
        " ",
        "a",
        "  a b  ",
        "\t\n x \r\n",
        "\u{a0}\u{3000}word\u{2003}",
        "no-space",
        " \u{1680} inner  space \u{205f}",
    ] {
        assert_eq!(string_of(&trim(&chars(text))), text.trim(), "{:?}", text);
    }
    assert_eq!(string_of(&trim(&chars("  640 "))), "640");
}

#[test]
fn same_text_and_ends_with_compare_characters() {
    assert!(same_text(&chars("abc"), &chars("abc")));
    assert!(!same_text(&chars("abc"), &chars("abd")));
    assert!(!same_text(&chars("abc"), &chars("ab")));
    assert!(same_text(&chars(""), &chars("")));
    assert!(ends_with(&chars("state.json"), &chars(".json")));
    assert!(ends_with(&chars(".json"), &chars(".json")));
    assert!(!ends_with(&chars("json"), &chars(".json")));
    assert!(!ends_with(&chars("state.json.bak"), &chars(".json")));
    assert!(ends_with(&chars("anything"), &chars("")));
}

#[test]
fn ascii_lowercase_changes_ascii_capitals_only() {
    assert_eq!(
        string_of(&ascii_lowercase_from(&chars("Gym MountainCar"), 0)),
        "gym mountaincar"
    );
    assert_eq!(
        string_of(&ascii_lowercase_from(&chars("AZaz@[`{"), 0)),
        "azaz@[`{"
    );
    assert_eq!(
        string_of(&ascii_lowercase_from(&chars("\u{c9}COLE"), 0)),
        "\u{c9}cole"
    );
    assert_eq!(string_of(&ascii_lowercase_from(&chars("-INF"), 1)), "inf");
}

#[test]
fn unsigned_integers_are_read_as_the_standard_library_reads_them() {
    for text in [
        "",
        "0",
        "7",
        "20",
        "+20",
        "-20",
        "+",
        "-",
        "++1",
        "0020",
        " 20",
        "20 ",
        "2_0",
        "2a",
        "a2",
        "1.0",
        "4294967295",
        "4294967296",
        "340282366920938463463374607431768211455",
        "340282366920938463463374607431768211456",
        "340282366920938463463374607431768211455x",
        "340282366920938463463374607431768211456x",
        "3402823669209384634633746074317682114550",
        "99999999999999999999999999999999999999999999",
        "\u{661}\u{662}",
    ] {
        let expected = text.parse::<u128>();
        match parse_u128(&chars(text)) {
            Ok(value) => assert_eq!(Ok(value), expected, "{:?}", text),
            Err(fault) => {
                let error = expected.expect_err(text);
                assert_eq!(fault.message(), error.to_string(), "{:?}", text);
            }
        }
    }
}

#[test]
fn numbers_up_to_a_bound_are_read_as_the_standard_library_reads_them() {
    for text in [
        "",
        "0",
        "255",
        "256",
        "+255",
        "25x",
        "256x",
        "2560",
        "x256",
        "999x",
        "0000000000255",
        "0000000000256",
    ] {
        let expected = text.parse::<u8>();
        match parse_unsigned(&chars(text), 255) {
            Ok(value) => assert_eq!(Ok(value), expected.map(u128::from), "{:?}", text),
            Err(fault) => {
                let error = expected.expect_err(text);
                assert_eq!(fault.message(), error.to_string(), "{:?}", text);
            }
        }
    }
    assert_eq!(
        parse_unsigned(&chars("256"), 255),
        Err(NumberFault::TooLarge)
    );
    assert_eq!(
        parse_unsigned(&chars("25x"), 255),
        Err(NumberFault::InvalidDigit)
    );
    assert_eq!(parse_unsigned(&chars(""), 255), Err(NumberFault::Empty));
    assert_eq!(parse_unsigned(&chars("5"), 4), Err(NumberFault::TooLarge));
    assert_eq!(parse_unsigned(&chars("4"), 4), Ok(4));
    assert_eq!(parse_unsigned(&chars("0"), 0), Ok(0));
}

#[test]
fn positions_are_read_as_the_standard_library_reads_them() {
    for text in [
        "0",
        "1",
        "+3",
        "18446744073709551615",
        "18446744073709551616",
        "",
        "one",
        "-1",
    ] {
        let expected = text.parse::<usize>();
        match parse_position(&chars(text)) {
            Ok(value) => assert_eq!(Ok(value), expected, "{:?}", text),
            Err(fault) => {
                let error = expected.expect_err(text);
                assert_eq!(fault.message(), error.to_string(), "{:?}", text);
            }
        }
    }
}

#[test]
fn number_faults_have_their_messages() {
    assert_eq!(
        NumberFault::Empty.message(),
        "cannot parse integer from empty string"
    );
    assert_eq!(
        NumberFault::InvalidDigit.message(),
        "invalid digit found in string"
    );
    assert_eq!(
        NumberFault::TooLarge.message(),
        "number too large to fit in target type"
    );
}

#[test]
fn booleans_are_read_as_the_standard_library_reads_them() {
    for text in [
        "true",
        "false",
        "",
        "True",
        "FALSE",
        " true",
        "true ",
        "1",
        "yes",
        "truefalse",
    ] {
        assert_eq!(
            parse_boolean(&chars(text)),
            text.parse::<bool>().ok(),
            "{:?}",
            text
        );
    }
    assert_eq!(parse_boolean(&chars("true")), Some(true));
    assert_eq!(parse_boolean(&chars("false")), Some(false));
}

#[test]
fn float_literals_are_those_that_the_standard_library_reads() {
    let mut texts: Vec<String> = Vec::new();
    for text in [
        "",
        "0",
        "0.0",
        "1",
        "-1",
        "+1",
        "1.",
        ".1",
        ".",
        "+.",
        "-.5",
        "+5.",
        "1.5",
        "1e5",
        "1E5",
        "1e+5",
        "1e-5",
        "1e",
        "1e+",
        "1e-",
        "e5",
        ".e5",
        "1.e5",
        ".1e5",
        "1.5e5x",
        "1e5.5",
        "1e5e5",
        "1..5",
        "1.5.5",
        "--1",
        "+-1",
        "1-",
        "1 ",
        " 1",
        "1_000",
        "0x10",
        "inf",
        "+inf",
        "-inf",
        "INF",
        "Inf",
        "infinity",
        "-Infinity",
        "INFINITY",
        "infinit",
        "infinityy",
        "in",
        "nan",
        "NaN",
        "-nan",
        "+NAN",
        "nana",
        "na",
        "n",
        "i",
        "1inf",
        "inf1",
        "1f64",
        "\u{130}nf",
        "\u{661}",
        "1\u{2e}5",
        "123456789012345678901234567890.123456789012345678901234567890e123456789",
        "0.000000000000000000000000000000000000000000000000000000001",
        "1e400",
        "1e-400",
    ] {
        texts.push(text.to_string());
    }
    for sign in ["", "+", "-"] {
        for whole in ["", "0", "12"] {
            for point in ["", "."] {
                for fraction in ["", "5", "05"] {
                    for exponent in ["", "e", "e3", "E-3", "e+", "e+07"] {
                        texts.push(format!(
                            "{}{}{}{}{}",
                            sign, whole, point, fraction, exponent
                        ));
                    }
                }
            }
        }
    }
    for text in texts {
        let expected = text.parse::<f64>();
        assert_eq!(float_literal(&chars(&text)), expected.is_ok(), "{:?}", text);
        match check_float(&chars(&text)) {
            None => assert!(expected.is_ok(), "{:?}", text),
            Some(fault) => {
                let error = expected.expect_err(&text);
                assert_eq!(fault.message(), error.to_string(), "{:?}", text);
            }
        }
    }
}

#[test]
fn float_faults_have_their_messages() {
    assert_eq!(check_float(&chars("")), Some(FloatFault::Empty));
    assert_eq!(check_float(&chars("fast")), Some(FloatFault::Invalid));
    assert_eq!(check_float(&chars("0.0")), None);
    assert_eq!(
        FloatFault::Empty.message(),
        "cannot parse float from empty string"
    );
    assert_eq!(FloatFault::Invalid.message(), "invalid float literal");
}

#[test]
fn split_gives_the_pieces_between_separators() {
    for text in [
        "",
        ",",
        "a",
        "a,b",
        "a,,b",
        ",a,",
        "640, 480",
        ",,",
        "no comma at all",
    ] {
        let characters = chars(text);
        let ranges = split_ranges(&characters, 0, characters.len(), ',');
        let pieces: Vec<String> = ranges
            .iter()
            .map(|range| string_of(&characters[range.0..range.1].to_vec()))
            .collect();
        let expected: Vec<String> = text.split(',').map(|piece| piece.to_string()).collect();
        assert_eq!(pieces, expected, "{:?}", text);
    }
    let characters = chars("(1,2)");
    assert_eq!(split_ranges(&characters, 1, 4, ','), vec![(1, 2), (3, 4)]);
}

#[test]
fn pairs_are_read_with_or_without_parentheses() {
    assert_eq!(parse_pair(&chars("(640, 480)")), Ok((640, 480)));
    assert_eq!(parse_pair(&chars("640,480")), Ok((640, 480)));
    assert_eq!(parse_pair(&chars("( 1 ,\t2 )")), Ok((1, 2)));
    assert_eq!(parse_pair(&chars("+1,+2")), Ok((1, 2)));
    assert_eq!(parse_pair(&chars("0,4294967295")), Ok((0, 4294967295)));
    assert_eq!(
        parse_pair(&chars("(1,2")),
        Err(PairFault::Number(NumberFault::InvalidDigit))
    );
    assert_eq!(
        parse_pair(&chars("1,2)")),
        Err(PairFault::Number(NumberFault::InvalidDigit))
    );
    assert_eq!(
        parse_pair(&chars(" (1,2)")),
        Err(PairFault::Number(NumberFault::InvalidDigit))
    );
    assert_eq!(
        parse_pair(&chars("((1,2))")),
        Err(PairFault::Number(NumberFault::InvalidDigit))
    );
}

#[test]
fn pairs_with_a_malformed_number_are_faults() {
    assert_eq!(
        parse_pair(&chars("")),
        Err(PairFault::Number(NumberFault::Empty))
    );
    assert_eq!(
        parse_pair(&chars("()")),
        Err(PairFault::Number(NumberFault::Empty))
    );
    assert_eq!(
        parse_pair(&chars("1,")),
        Err(PairFault::Number(NumberFault::Empty))
    );
    assert_eq!(
        parse_pair(&chars(",1")),
        Err(PairFault::Number(NumberFault::Empty))
    );
    assert_eq!(
        parse_pair(&chars("a,1")),
        Err(PairFault::Number(NumberFault::InvalidDigit))
    );
    assert_eq!(
        parse_pair(&chars("1,-1")),
        Err(PairFault::Number(NumberFault::InvalidDigit))
    );
    assert_eq!(
        parse_pair(&chars("1;2")),
        Err(PairFault::Number(NumberFault::InvalidDigit))
    );
    assert_eq!(
        parse_pair(&chars("1,4294967296")),
        Err(PairFault::Number(NumberFault::TooLarge))
    );
    assert_eq!(
        parse_pair(&chars("4294967296,x")),
        Err(PairFault::Number(NumberFault::TooLarge))
    );
    assert_eq!(
        parse_pair(&chars("x,4294967296")),
        Err(PairFault::Number(NumberFault::InvalidDigit))
    );
    assert_eq!(
        parse_pair(&chars("1,2,x")),
        Err(PairFault::Number(NumberFault::InvalidDigit))
    );
}

#[test]
fn pairs_need_exactly_two_numbers() {
    assert_eq!(parse_pair(&chars("1")), Err(PairFault::Arity));
    assert_eq!(parse_pair(&chars("(1)")), Err(PairFault::Arity));
    assert_eq!(parse_pair(&chars("1,2,3")), Err(PairFault::Arity));
    assert_eq!(parse_pair(&chars("(1, 2, 3)")), Err(PairFault::Arity));
    assert_eq!(PairFault::Arity.message(), "expected exactly two numbers");
    assert_eq!(
        PairFault::Number(NumberFault::Empty).message(),
        "cannot parse integer from empty string"
    );
}
