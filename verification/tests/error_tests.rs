use brobot::args::{Argument, Arguments};
use brobot::error::{ArgError, StringError};

fn arguments(parts: &[(&str, &str)]) -> Arguments {
    Arguments::new(
        parts
            .iter()
            .map(|(text, rest)| Argument { text: text.to_string(), rest: rest.to_string() })
            .collect(),
    )
}

#[test]
fn errors_are_their_message() {
    assert_eq!(StringError::from("No host provided").to_string(), "No host provided");
    assert_eq!(StringError(String::from("x")).0, "x");
}

#[test]
fn argument_errors_as_messages() {
    assert_eq!(StringError::from(ArgError::Eos).0, "Not enough arguments provided");
    assert_eq!(
        StringError::from(ArgError::Parse(String::from("bad"))).0,
        "Failed parsing an argument: bad"
    );
    assert_eq!(StringError::from(ArgError::Other).0, "Unknown argument parsing error");
}

#[test]
fn argument_errors_show_themselves_as_the_framework_shows_them() {
    let eos: serenity::framework::standard::ArgError<String> =
        serenity::framework::standard::ArgError::Eos;
    assert_eq!(ArgError::Eos.to_string(), eos.to_string());
    let parse = serenity::framework::standard::ArgError::Parse(String::from("bad"));
    assert_eq!(ArgError::Parse(String::from("bad")).to_string(), parse.to_string());
    assert_eq!(ArgError::Parse(String::from("bad")).to_string(), "ArgError(\"bad\")");
}

#[test]
fn arguments_are_read_from_left_to_right() {
    let mut args = arguments(&[("a", "a b"), ("b", "b")]);
    assert!(!args.is_empty());
    assert_eq!(args.current(), Some("a"));
    assert_eq!(args.rest(), "a b");
    args.advance();
    assert_eq!(args.current(), Some("b"));
    assert_eq!(args.rest(), "b");
    args.advance();
    assert!(args.is_empty());
    assert_eq!(args.current(), None);
    assert_eq!(args.rest(), "");
    args.advance();
    assert!(args.is_empty());
}

#[test]
fn numbers_are_digits_with_an_optional_plus() {
    let accepted = [("0", 0usize), ("7", 7), ("+12", 12), ("007", 7)];
    for (text, value) in accepted {
        let mut args = arguments(&[(text, text), ("rest", "rest")]);
        match args.parse_number() {
            Ok(n) => assert_eq!(n, value),
            Err(e) => panic!("{:?}", e),
        }
        assert_eq!(args.current(), Some(text));
        assert!(matches!(args.single_number(), Ok(n) if n == value));
        assert_eq!(args.current(), Some("rest"));
    }
    for text in ["", "+", "-1", "1_000", " 1", "12a", "99999999999999999999999", "٣"] {
        let mut args = arguments(&[(text, text)]);
        let expected = text.parse::<usize>().unwrap_err().to_string();
        match args.single_number() {
            Err(ArgError::Parse(e)) => assert_eq!(e, expected),
            other => panic!("{:?}", other),
        }
        assert_eq!(args.current(), Some(text));
    }
    assert!(matches!(arguments(&[]).parse_number(), Err(ArgError::Eos)));
}
