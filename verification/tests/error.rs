use backend::error::{
    ArgumentMissingError, ArgumentValueError, ConversionError, CoreError, FormattingError,
    IOError, IndexRangeError, NamingError, NullError, OperationError, ParsingError,
    PermissionError, PoisonError, RangeError, UnexpectedError,
};

fn text(s: &str) -> String {
    s.to_string()
}

#[test]
fn error_texts_of_single_errors() {
    assert_eq!(
        ArgumentMissingError::new(text("path")).to_string(),
        "argument 'path' is missing & required"
    );
    assert_eq!(
        NullError::new(text("logger")).to_string(),
        "the target 'logger' is null, and this is disallowed"
    );
    assert_eq!(
        PermissionError::new(text("/var/log")).to_string(),
        "the resource '/var/log' cannot be accessed due to lack of permissions"
    );
    assert_eq!(
        UnexpectedError::new(text("boom")).to_string(),
        "an unexpected error occured: 'boom'"
    );
    assert_eq!(
        OperationError::new(text("start log"), text("busy")).to_string(),
        "the operation 'start log' is not allowed due to 'start log'"
    );
    assert_eq!(
        ConversionError::new(text("abc"), text("not a number")).to_string(),
        "the value 'abc' could not be converted due to 'not a number'"
    );
    assert_eq!(
        ConversionError::new_fmt(&17, text("too odd")).to_string(),
        "the value '17' could not be converted due to 'too odd'"
    );
    assert_eq!(
        FormattingError::new(&"1.2", text("short")).to_string(),
        "the expression '1.2' is invalid due to 'short'"
    );
    assert_eq!(
        FormattingError::from_text(text("1.2"), text("short")).to_string(),
        "the expression '1.2' is invalid due to 'short'"
    );
    assert_eq!(PoisonError::new("a thread died").to_string(), "poisoned due to 'a thread died'");
    assert_eq!(PoisonError::from_text(text("x")).to_string(), "poisoned due to 'x'");
}

#[test]
fn argument_value_error_shows_the_value() {
    assert_eq!(
        ArgumentValueError::new(text("name"), &"bob").to_string(),
        "the value '\"bob\"' stored in argument 'name' is invalid"
    );
    assert_eq!(
        ArgumentValueError::new_display(text("name"), &"bob").to_string(),
        "the value 'bob' stored in argument 'name' is invalid"
    );
    assert_eq!(
        ArgumentValueError::new(text("count"), &Some(3)).to_string(),
        "the value 'Some(3)' stored in argument 'count' is invalid"
    );
    assert_eq!(
        ArgumentValueError::from_text(text("count"), text("3")),
        ArgumentValueError::new_display(text("count"), &3)
    );
}

#[test]
fn range_error_texts() {
    assert_eq!(
        IndexRangeError::new(text("index"), 12, Some((0, 9))).to_string(),
        "the value '12' is out of range (0 - 9) in the target 'index'"
    );
    assert_eq!(
        IndexRangeError::new(text("index"), 0, None).to_string(),
        "the value '0' is out of range in the target 'index'"
    );
    assert_eq!(
        RangeError::<usize>::new(text("i"), usize::MAX, None).to_string(),
        format!("the value '{}' is out of range in the target 'i'", usize::MAX)
    );
}

#[test]
fn range_error_equality() {
    let a = RangeError::new(text("x"), 5i64, Some((1, 3)));
    assert!(a == RangeError::new(text("x"), 5i64, Some((1, 3))));
    assert!(a != RangeError::new(text("y"), 5i64, Some((1, 3))));
    assert!(a != RangeError::new(text("x"), 6i64, Some((1, 3))));
    assert!(a != RangeError::new(text("x"), 5i64, Some((1, 4))));
    assert!(a != RangeError::new(text("x"), 5i64, Some((0, 3))));
    assert!(a != RangeError::new(text("x"), 5i64, None));
    assert!(RangeError::new(text("x"), 5i64, None) == RangeError::new(text("x"), 5i64, None));
}

#[test]
fn naming_error_texts() {
    assert_eq!(
        NamingError::Empty.to_string(),
        "the name provided was empty or just whitespace"
    );
    assert_eq!(NamingError::InvalidCharacters.to_string(), "the name provided has invalid characters");
    assert_eq!(NamingError::TooLong.to_string(), "the name provided is too long");
    assert_eq!(NamingError::TooShort.to_string(), "the name provided is too short");
    assert_eq!(
        NamingError::Whitespace.to_string(),
        "the name contains whitespace internally. no spaces are allowed inside the name"
    );
    assert_eq!(
        NamingError::StaringWithNumber.to_string(),
        "the name starts with a number, and this is not allowed"
    );
    let sly = "the name looks like it is trying to do something it is not supposed to (scriptiong, format specifier, or address); this is disallowed";
    assert_eq!(NamingError::Scripting.to_string(), sly);
    assert_eq!(NamingError::FormatSpecifier.to_string(), sly);
    assert_eq!(NamingError::Address.to_string(), sly);
    assert_ne!(NamingError::Scripting, NamingError::Address);
}

#[test]
fn single_error_equality() {
    assert_eq!(NullError::new(text("a")), NullError::new(text("a")));
    assert_ne!(NullError::new(text("a")), NullError::new(text("b")));
    assert_eq!(OperationError::new(text("a"), text("b")), OperationError::new(text("a"), text("b")));
    assert_ne!(OperationError::new(text("a"), text("b")), OperationError::new(text("a"), text("c")));
    assert_ne!(OperationError::new(text("a"), text("b")), OperationError::new(text("c"), text("b")));
    assert!(PoisonError::from_text(text("a")) == PoisonError::from_text(text("a")));
    assert!(PoisonError::from_text(text("a")) != PoisonError::from_text(text("b")));
}

#[test]
fn core_error_wraps_each_kind() {
    let cases: Vec<(CoreError, String)> = vec![
        (ArgumentValueError::from_text(text("a"), text("v")).into(), text("the value 'v' stored in argument 'a' is invalid")),
        (ArgumentMissingError::new(text("a")).into(), text("argument 'a' is missing & required")),
        (NullError::new(text("t")).into(), text("the target 't' is null, and this is disallowed")),
        (FormattingError::from_text(text("e"), text("r")).into(), text("the expression 'e' is invalid due to 'r'")),
        (IndexRangeError::new(text("i"), 3, Some((0, 2))).into(), text("the value '3' is out of range (0 - 2) in the target 'i'")),
        (OperationError::new(text("o"), text("r")).into(), text("the operation 'o' is not allowed due to 'o'")),
        (ConversionError::new(text("f"), text("r")).into(), text("the value 'f' could not be converted due to 'r'")),
        (UnexpectedError::new(text("r")).into(), text("an unexpected error occured: 'r'")),
        (NamingError::TooLong.into(), text("the name provided is too long")),
    ];
    for (error, shown) in &cases {
        assert_eq!(&error.to_string(), shown);
    }
    assert!(matches!(cases[0].0, CoreError::ArgVal(_)));
    assert!(matches!(cases[1].0, CoreError::ArgMiss(_)));
    assert!(matches!(cases[2].0, CoreError::Null(_)));
    assert!(matches!(cases[3].0, CoreError::Format(_)));
    assert!(matches!(cases[4].0, CoreError::Range(_)));
    assert!(matches!(cases[5].0, CoreError::Operation(_)));
    assert!(matches!(cases[6].0, CoreError::Conv(_)));
    assert!(matches!(cases[7].0, CoreError::Unexpected(_)));
    assert!(matches!(cases[8].0, CoreError::Name(_)));
}

#[test]
fn core_error_equality() {
    let null = || CoreError::from(NullError::new(text("t")));
    assert!(null() == null());
    assert!(null() != CoreError::from(NullError::new(text("u"))));
    assert!(null() != CoreError::from(ArgumentMissingError::new(text("t"))));
    assert!(CoreError::from(NamingError::Empty) == CoreError::from(NamingError::Empty));
    assert!(CoreError::from(NamingError::Empty) != CoreError::from(NamingError::TooLong));
    // two unexpected errors never compare equal
    let odd = || CoreError::from(UnexpectedError::new(text("r")));
    assert!(odd() != odd());
}

#[test]
fn io_and_parsing_errors() {
    let core = IOError::from(CoreError::from(NullError::new(text("t"))));
    assert_eq!(core.to_string(), "the target 't' is null, and this is disallowed");
    assert!(matches!(core, IOError::Core(CoreError::Null(_))));
    let io = IOError::from(std::io::Error::new(std::io::ErrorKind::NotFound, "no file"));
    assert_eq!(io.to_string(), "no file");
    assert!(matches!(io, IOError::IO(_)));
    let parsing = ParsingError::from(std::io::Error::new(std::io::ErrorKind::NotFound, "gone"));
    assert_eq!(parsing.to_string(), "gone");
    let json = serde_json::from_str::<bool>("maybe").unwrap_err();
    let shown = json.to_string();
    let parsing = ParsingError::from(json);
    assert_eq!(parsing.to_string(), shown);
    assert!(matches!(parsing, ParsingError::Serde(_)));
}
