//! The errors that the toolkit reports, each with the text it shows.

use vstd::prelude::*;
use vstd::std_specs::cmp::PartialEqSpec;
use crate::outside::debug_text;
use crate::text::{decimal, push_decimal};

verus! {

/// A required argument is missing.
#[derive(Clone, Debug)]
pub struct ArgumentMissingError {
    arg: String,
}

impl ArgumentMissingError {
    /// The name of the argument.
    pub closed spec fn arg(&self) -> Seq<char> {
        self.arg@
    }

    /// The text that this error shows.
    pub open spec fn report(&self) -> Seq<char> {
        "argument '"@ + self.arg() + "' is missing & required"@
    }

    /// The error for the missing argument `arg`.
    pub fn new(arg: String) -> (error: Self)
        ensures
            error.arg() == arg@,
    {
        ArgumentMissingError { arg }
    }

    /// The text that this error shows, as a string.
    pub fn to_string(&self) -> (text: String)
        ensures
            text@ == self.report(),
    {
        let mut text = "argument '".to_owned();
        text.push_str(self.arg.as_str());
        text.push_str("' is missing & required");
        assert(text@ =~= self.report());
        text
    }
}

impl PartialEq for ArgumentMissingError {
    fn eq(&self, other: &Self) -> (same: bool) {
        self.arg == other.arg
    }
}

impl vstd::std_specs::cmp::PartialEqSpecImpl for ArgumentMissingError {
    open spec fn obeys_eq_spec() -> bool {
        true
    }

    open spec fn eq_spec(&self, other: &Self) -> bool {
        self.arg() == other.arg()
    }
}

impl Eq for ArgumentMissingError {

}

/// A target that must hold a value holds none.
#[derive(Clone, Debug)]
pub struct NullError {
    target: String,
}

impl NullError {
    /// The name of the target.
    pub closed spec fn target(&self) -> Seq<char> {
        self.target@
    }

    /// The text that this error shows.
    pub open spec fn report(&self) -> Seq<char> {
        "the target '"@ + self.target() + "' is null, and this is disallowed"@
    }

    /// The error for the empty `target`.
    pub fn new(target: String) -> (error: Self)
        ensures
            error.target() == target@,
    {
        NullError { target }
    }

    /// The text that this error shows, as a string.
    pub fn to_string(&self) -> (text: String)
        ensures
            text@ == self.report(),
    {
        let mut text = "the target '".to_owned();
        text.push_str(self.target.as_str());
        text.push_str("' is null, and this is disallowed");
        assert(text@ =~= self.report());
        text
    }
}

impl PartialEq for NullError {
    fn eq(&self, other: &Self) -> (same: bool) {
        self.target == other.target
    }
}

impl vstd::std_specs::cmp::PartialEqSpecImpl for NullError {
    open spec fn obeys_eq_spec() -> bool {
        true
    }

    open spec fn eq_spec(&self, other: &Self) -> bool {
        self.target() == other.target()
    }
}

impl Eq for NullError {

}

/// A resource may not be accessed.
#[derive(Clone, Debug)]
pub struct PermissionError {
    resource: String,
}

impl PermissionError {
    /// The name of the resource.
    pub closed spec fn resource(&self) -> Seq<char> {
        self.resource@
    }

    /// The text that this error shows.
    pub open spec fn report(&self) -> Seq<char> {
        "the resource '"@ + self.resource() + "' cannot be accessed due to lack of permissions"@
    }

    /// The error for the closed `resource`.
    pub fn new(resource: String) -> (error: Self)
        ensures
            error.resource() == resource@,
    {
        PermissionError { resource }
    }

    /// The text that this error shows, as a string.
    pub fn to_string(&self) -> (text: String)
        ensures
            text@ == self.report(),
    {
        let mut text = "the resource '".to_owned();
        text.push_str(self.resource.as_str());
        text.push_str("' cannot be accessed due to lack of permissions");
        assert(text@ =~= self.report());
        text
    }
}

impl PartialEq for PermissionError {
    fn eq(&self, other: &Self) -> (same: bool) {
        self.resource == other.resource
    }
}

impl vstd::std_specs::cmp::PartialEqSpecImpl for PermissionError {
    open spec fn obeys_eq_spec() -> bool {
        true
    }

    open spec fn eq_spec(&self, other: &Self) -> bool {
        self.resource() == other.resource()
    }
}

impl Eq for PermissionError {

}

/// An operation is not allowed.
#[derive(Clone, Debug)]
pub struct OperationError {
    action: String,
    reason: String,
}

impl OperationError {
    /// The operation that was refused.
    pub closed spec fn action(&self) -> Seq<char> {
        self.action@
    }

    /// The reason given.
    pub closed spec fn reason(&self) -> Seq<char> {
        self.reason@
    }

    /// The text that this error shows.
    pub open spec fn report(&self) -> Seq<char> {
        "the operation '"@ + self.action() + "' is not allowed due to '"@ + self.action() + "'"@
    }

    /// The error for `action`, refused for `reason`.
    pub fn new(action: String, reason: String) -> (error: Self)
        ensures
            error.action() == action@,
            error.reason() == reason@,
    {
        OperationError { action, reason }
    }

    /// The text that this error shows, as a string.
    pub fn to_string(&self) -> (text: String)
        ensures
            text@ == self.report(),
    {
        let mut text = "the operation '".to_owned();
        text.push_str(self.action.as_str());
        text.push_str("' is not allowed due to '");
        text.push_str(self.action.as_str());
        text.push_str("'");
        assert(text@ =~= self.report());
        text
    }
}

impl PartialEq for OperationError {
    fn eq(&self, other: &Self) -> (same: bool) {
        self.action == other.action && self.reason == other.reason
    }
}

impl vstd::std_specs::cmp::PartialEqSpecImpl for OperationError {
    open spec fn obeys_eq_spec() -> bool {
        true
    }

    open spec fn eq_spec(&self, other: &Self) -> bool {
        self.action() == other.action() && self.reason() == other.reason()
    }
}

impl Eq for OperationError {

}

/// Something happened that was not foreseen.
#[derive(Clone, Debug)]
pub struct UnexpectedError {
    reason: String,
}

impl UnexpectedError {
    /// The reason given.
    pub closed spec fn reason(&self) -> Seq<char> {
        self.reason@
    }

    /// The text that this error shows.
    pub open spec fn report(&self) -> Seq<char> {
        "an unexpected error occured: '"@ + self.reason() + "'"@
    }

    /// The error with the given `reason`.
    pub fn new(reason: String) -> (error: Self)
        ensures
            error.reason() == reason@,
    {
        UnexpectedError { reason }
    }

    /// The text that this error shows, as a string.
    pub fn to_string(&self) -> (text: String)
        ensures
            text@ == self.report(),
    {
        let mut text = "an unexpected error occured: '".to_owned();
        text.push_str(self.reason.as_str());
        text.push_str("'");
        assert(text@ =~= self.report());
        text
    }
}

impl PartialEq for UnexpectedError {
    fn eq(&self, other: &Self) -> (same: bool) {
        self.reason == other.reason
    }
}

impl vstd::std_specs::cmp::PartialEqSpecImpl for UnexpectedError {
    open spec fn obeys_eq_spec() -> bool {
        true
    }

    open spec fn eq_spec(&self, other: &Self) -> bool {
        self.reason() == other.reason()
    }
}

impl Eq for UnexpectedError {

}

/// An argument holds a value that is not accepted.
#[derive(Clone, Debug)]
pub struct ArgumentValueError {
    arg: String,
    value: String,
}

impl ArgumentValueError {
    /// The name of the argument.
    pub closed spec fn arg(&self) -> Seq<char> {
        self.arg@
    }

    /// The value, as text.
    pub closed spec fn value(&self) -> Seq<char> {
        self.value@
    }

    /// The text that this error shows.
    pub open spec fn report(&self) -> Seq<char> {
        "the value '"@ + self.value() + "' stored in argument '"@ + self.arg() + "' is invalid"@
    }

    /// The error for `arg` and the value it holds, written as text.
    pub fn from_text(arg: String, value: String) -> (error: Self)
        ensures
            error.arg() == arg@,
            error.value() == value@,
    {
        ArgumentValueError { arg, value }
    }

    /// The error for `arg` and the value it holds, shown as `Debug` shows it.
    pub fn new<U: core::fmt::Debug>(arg: String, value: &U) -> (error: Self)
        ensures
            error.arg() == arg@,
    {
        Self::from_text(arg, debug_text(value))
    }

    /// The error for `arg` and the value it holds, shown as `Display` shows
    /// it.
    pub fn new_display<U: core::fmt::Display>(arg: String, value: &U) -> (error: Self)
        ensures
            error.arg() == arg@,
            exists|shown: String| #[trigger]
                vstd::string::to_string_from_display_ensures::<U>(value, shown) && error.value()
                    == shown@,
    {
        Self::from_text(arg, value.to_string())
    }

    /// The text that this error shows, as a string.
    pub fn to_string(&self) -> (text: String)
        ensures
            text@ == self.report(),
    {
        let mut text = "the value '".to_owned();
        text.push_str(self.value.as_str());
        text.push_str("' stored in argument '");
        text.push_str(self.arg.as_str());
        text.push_str("' is invalid");
        assert(text@ =~= self.report());
        text
    }
}

impl PartialEq for ArgumentValueError {
    fn eq(&self, other: &Self) -> (same: bool) {
        self.arg == other.arg && self.value == other.value
    }
}

impl vstd::std_specs::cmp::PartialEqSpecImpl for ArgumentValueError {
    open spec fn obeys_eq_spec() -> bool {
        true
    }

    open spec fn eq_spec(&self, other: &Self) -> bool {
        self.arg() == other.arg() && self.value() == other.value()
    }
}

impl Eq for ArgumentValueError {

}

/// An expression is not written as it should be.
#[derive(Clone, Debug)]
pub struct FormattingError {
    processed: String,
    reason: String,
}

impl FormattingError {
    /// The expression, as text.
    pub closed spec fn processed(&self) -> Seq<char> {
        self.processed@
    }

    /// The reason given.
    pub closed spec fn reason(&self) -> Seq<char> {
        self.reason@
    }

    /// The text that this error shows.
    pub open spec fn report(&self) -> Seq<char> {
        "the expression '"@ + self.processed() + "' is invalid due to '"@ + self.reason() + "'"@
    }

    /// The error for the expression `processed`, given as text, and the
    /// `reason` it is refused for.
    pub fn from_text(processed: String, reason: String) -> (error: Self)
        ensures
            error.processed() == processed@,
            error.reason() == reason@,
    {
        FormattingError { processed, reason }
    }

    /// The error for the expression `processed`, shown as `Display` shows it,
    /// and the `reason` it is refused for.
    pub fn new<T: core::fmt::Display>(processed: &T, reason: String) -> (error: Self)
        ensures
            error.reason() == reason@,
            exists|shown: String| #[trigger]
                vstd::string::to_string_from_display_ensures::<T>(processed, shown)
                    && error.processed() == shown@,
    {
        Self::from_text(processed.to_string(), reason)
    }

    /// The text that this error shows, as a string.
    pub fn to_string(&self) -> (text: String)
        ensures
            text@ == self.report(),
    {
        let mut text = "the expression '".to_owned();
        text.push_str(self.processed.as_str());
        text.push_str("' is invalid due to '");
        text.push_str(self.reason.as_str());
        text.push_str("'");
        assert(text@ =~= self.report());
        text
    }
}

impl PartialEq for FormattingError {
    fn eq(&self, other: &Self) -> (same: bool) {
        self.processed == other.processed && self.reason == other.reason
    }
}

impl vstd::std_specs::cmp::PartialEqSpecImpl for FormattingError {
    open spec fn obeys_eq_spec() -> bool {
        true
    }

    open spec fn eq_spec(&self, other: &Self) -> bool {
        self.processed() == other.processed() && self.reason() == other.reason()
    }
}

impl Eq for FormattingError {

}

/// A value could not be converted.
#[derive(Clone, Debug)]
pub struct ConversionError {
    from: String,
    reason: String,
}

impl ConversionError {
    /// The value that could not be converted, as text.
    pub closed spec fn from(&self) -> Seq<char> {
        self.from@
    }

    /// The reason given.
    pub closed spec fn reason(&self) -> Seq<char> {
        self.reason@
    }

    /// The text that this error shows.
    pub open spec fn report(&self) -> Seq<char> {
        "the value '"@ + self.from() + "' could not be converted due to '"@ + self.reason() + "'"@
    }

    /// The error for the value `from`, given as text, and the `reason` it
    /// could not be converted for.
    pub fn new(from: String, reason: String) -> (error: Self)
        ensures
            error.from() == from@,
            error.reason() == reason@,
    {
        ConversionError { from, reason }
    }

    /// The error for the value `from`, shown as `Display` shows it, and the
    /// `reason` it could not be converted for.
    pub fn new_fmt<T: core::fmt::Display>(from: &T, reason: String) -> (error: Self)
        ensures
            error.reason() == reason@,
            exists|shown: String| #[trigger]
                vstd::string::to_string_from_display_ensures::<T>(from, shown) && error.from()
                    == shown@,
    {
        Self::new(from.to_string(), reason)
    }

    /// The text that this error shows, as a string.
    pub fn to_string(&self) -> (text: String)
        ensures
            text@ == self.report(),
    {
        let mut text = "the value '".to_owned();
        text.push_str(self.from.as_str());
        text.push_str("' could not be converted due to '");
        text.push_str(self.reason.as_str());
        text.push_str("'");
        assert(text@ =~= self.report());
        text
    }
}

impl PartialEq for ConversionError {
    fn eq(&self, other: &Self) -> (same: bool) {
        self.from == other.from && self.reason == other.reason
    }
}

impl vstd::std_specs::cmp::PartialEqSpecImpl for ConversionError {
    open spec fn obeys_eq_spec() -> bool {
        true
    }

    open spec fn eq_spec(&self, other: &Self) -> bool {
        self.from() == other.from() && self.reason() == other.reason()
    }
}

impl Eq for ConversionError {

}

/// A value lies outside the range that is allowed for it.
#[derive(Clone, Debug)]
pub struct RangeError<T> {
    var: String,
    val: T,
    range: Option<(T, T)>,
}

impl<T> RangeError<T> {
    /// The name of what holds the value.
    pub closed spec fn var(&self) -> Seq<char> {
        self.var@
    }

    /// The value.
    pub closed spec fn val(&self) -> T {
        self.val
    }

    /// The two ends of the range that is allowed, where they are known.
    pub closed spec fn range(&self) -> Option<(T, T)> {
        self.range
    }

    /// The error for the value `val` of `var`, outside `range`.
    pub fn new(var: String, val: T, range: Option<(T, T)>) -> (error: Self)
        ensures
            error.var() == var@,
            error.val() == val,
            error.range() == range,
    {
        RangeError { var, val, range }
    }
}

impl<T: PartialEq> PartialEq for RangeError<T> {
    fn eq(&self, other: &Self) -> (same: bool) {
        let same_range = match (&self.range, &other.range) {
            (Some(a), Some(b)) => a.0 == b.0 && a.1 == b.1,
            (None, None) => true,
            _ => false,
        };
        self.var == other.var && self.val == other.val && same_range
    }
}

impl<T: PartialEq> vstd::std_specs::cmp::PartialEqSpecImpl for RangeError<T> {
    open spec fn obeys_eq_spec() -> bool {
        <T as PartialEqSpec>::obeys_eq_spec()
    }

    open spec fn eq_spec(&self, other: &Self) -> bool {
        &&& self.var() == other.var()
        &&& PartialEqSpec::eq_spec(&self.val(), &other.val())
        &&& match (self.range(), other.range()) {
            (Some(a), Some(b)) => PartialEqSpec::eq_spec(&a.0, &b.0)
                && PartialEqSpec::eq_spec(&a.1, &b.1),
            (None, None) => true,
            _ => false,
        }
    }
}

impl<T: Eq> Eq for RangeError<T> {

}

/// An index lies outside the range that is allowed for it.
pub type IndexRangeError = RangeError<usize>;

impl RangeError<usize> {
    /// The text that this error shows.
    pub open spec fn report(&self) -> Seq<char> {
        match self.range() {
            Some((low, high)) => "the value '"@ + decimal(self.val() as nat)
                + "' is out of range ("@ + decimal(low as nat) + " - "@ + decimal(high as nat)
                + ") in the target '"@ + self.var() + "'"@,
            None => "the value '"@ + decimal(self.val() as nat)
                + "' is out of range in the target '"@ + self.var() + "'"@,
        }
    }

    /// The text that this error shows, as a string.
    pub fn to_string(&self) -> (text: String)
        ensures
            text@ == self.report(),
    {
        let mut text = "the value '".to_owned();
        push_decimal(&mut text, self.val as u64);
        match self.range {
            Some((low, high)) => {
                text.push_str("' is out of range (");
                push_decimal(&mut text, low as u64);
                text.push_str(" - ");
                push_decimal(&mut text, high as u64);
                text.push_str(") in the target '");
            },
            None => {
                text.push_str("' is out of range in the target '");
            },
        }
        text.push_str(self.var.as_str());
        text.push_str("'");
        assert(text@ =~= self.report());
        text
    }
}

/// Why a name is refused.
#[derive(Clone, Copy, Debug, PartialEq, Eq, Structural)]
pub enum NamingError {
    Empty,
    InvalidCharacters,
    TooLong,
    TooShort,
    Whitespace,
    StaringWithNumber,
    Scripting,
    FormatSpecifier,
    Address,
}

impl NamingError {
    /// The text that this error shows.
    pub open spec fn report(&self) -> Seq<char> {
        match self {
            NamingError::Empty => "the name provided was empty or just whitespace"@,
            NamingError::InvalidCharacters => "the name provided has invalid characters"@,
            NamingError::TooLong => "the name provided is too long"@,
            NamingError::TooShort => "the name provided is too short"@,
            NamingError::Whitespace => "the name contains whitespace internally. no spaces are allowed inside the name"@,
            NamingError::StaringWithNumber => "the name starts with a number, and this is not allowed"@,
            NamingError::Scripting | NamingError::FormatSpecifier | NamingError::Address => "the name looks like it is trying to do something it is not supposed to (scriptiong, format specifier, or address); this is disallowed"@,
        }
    }

    /// The text that this error shows, as a string.
    pub fn to_string(&self) -> (text: String)
        ensures
            text@ == self.report(),
    {
        match self {
            NamingError::Empty => "the name provided was empty or just whitespace".to_owned(),
            NamingError::InvalidCharacters => "the name provided has invalid characters".to_owned(),
            NamingError::TooLong => "the name provided is too long".to_owned(),
            NamingError::TooShort => "the name provided is too short".to_owned(),
            NamingError::Whitespace => "the name contains whitespace internally. no spaces are allowed inside the name".to_owned(),
            NamingError::StaringWithNumber => "the name starts with a number, and this is not allowed".to_owned(),
            NamingError::Scripting | NamingError::FormatSpecifier | NamingError::Address => "the name looks like it is trying to do something it is not supposed to (scriptiong, format specifier, or address); this is disallowed".to_owned(),
        }
    }
}

/// A lock was poisoned: a thread panicked while it held the lock.
#[derive(Clone, Debug)]
pub struct PoisonError {
    message: String,
}

impl PoisonError {
    /// What the poisoning reported.
    pub closed spec fn message(&self) -> Seq<char> {
        self.message@
    }

    /// The text that this error shows.
    pub open spec fn report(&self) -> Seq<char> {
        "poisoned due to '"@ + self.message() + "'"@
    }

    /// The error with the given `message`.
    pub fn from_text(message: String) -> (error: Self)
        ensures
            error.message() == message@,
    {
        PoisonError { message }
    }

    /// Whether what this error reports is the text that `Display` shows for
    /// `message`.
    pub open spec fn shows<T: core::fmt::Display>(&self, message: T) -> bool {
        exists|shown: String| #[trigger]
            vstd::string::to_string_from_display_ensures::<T>(&message, shown) && self.message()
                == shown@
    }

    /// The error with `message`, shown as `Display` shows it.
    pub fn new<T: core::fmt::Display>(message: T) -> (error: Self)
        ensures
            error.shows(message),
    {
        Self::from_text(message.to_string())
    }

    /// The text that this error shows, as a string.
    pub fn to_string(&self) -> (text: String)
        ensures
            text@ == self.report(),
    {
        let mut text = "poisoned due to '".to_owned();
        text.push_str(self.message.as_str());
        text.push_str("'");
        assert(text@ =~= self.report());
        text
    }
}

impl PartialEq for PoisonError {
    fn eq(&self, other: &Self) -> (same: bool) {
        self.message == other.message
    }
}

impl vstd::std_specs::cmp::PartialEqSpecImpl for PoisonError {
    open spec fn obeys_eq_spec() -> bool {
        true
    }

    open spec fn eq_spec(&self, other: &Self) -> bool {
        self.message() == other.message()
    }
}

/// Any of the errors of the toolkit's own.
#[derive(Debug)]
pub enum CoreError {
    ArgVal(ArgumentValueError),
    ArgMiss(ArgumentMissingError),
    Null(NullError),
    Format(FormattingError),
    Range(IndexRangeError),
    Operation(OperationError),
    Conv(ConversionError),
    Unexpected(UnexpectedError),
    Name(NamingError),
}

impl CoreError {
    /// The text that this error shows: that of the error it holds.
    pub open spec fn report(&self) -> Seq<char> {
        match self {
            CoreError::ArgVal(e) => e.report(),
            CoreError::ArgMiss(e) => e.report(),
            CoreError::Null(e) => e.report(),
            CoreError::Format(e) => e.report(),
            CoreError::Range(e) => e.report(),
            CoreError::Operation(e) => e.report(),
            CoreError::Conv(e) => e.report(),
            CoreError::Unexpected(e) => e.report(),
            CoreError::Name(e) => e.report(),
        }
    }

    /// The text that this error shows, as a string.
    pub fn to_string(&self) -> (text: String)
        ensures
            text@ == self.report(),
    {
        match self {
            CoreError::ArgVal(e) => e.to_string(),
            CoreError::ArgMiss(e) => e.to_string(),
            CoreError::Null(e) => e.to_string(),
            CoreError::Format(e) => e.to_string(),
            CoreError::Range(e) => e.to_string(),
            CoreError::Operation(e) => e.to_string(),
            CoreError::Conv(e) => e.to_string(),
            CoreError::Unexpected(e) => e.to_string(),
            CoreError::Name(e) => e.to_string(),
        }
    }
}

impl PartialEq for CoreError {
    fn eq(&self, other: &Self) -> (same: bool) {
        match (self, other) {
            (CoreError::ArgVal(a), CoreError::ArgVal(b)) => *a == *b,
            (CoreError::ArgMiss(a), CoreError::ArgMiss(b)) => *a == *b,
            (CoreError::Null(a), CoreError::Null(b)) => *a == *b,
            (CoreError::Format(a), CoreError::Format(b)) => *a == *b,
            (CoreError::Range(a), CoreError::Range(b)) => *a == *b,
            (CoreError::Operation(a), CoreError::Operation(b)) => *a == *b,
            (CoreError::Conv(a), CoreError::Conv(b)) => *a == *b,
            (CoreError::Name(a), CoreError::Name(b)) => *a == *b,
            _ => false,
        }
    }
}

impl vstd::std_specs::cmp::PartialEqSpecImpl for CoreError {
    open spec fn obeys_eq_spec() -> bool {
        true
    }

    /// Two errors are equal where they are of one kind and hold equal
    /// errors; two unexpected errors are never equal.
    open spec fn eq_spec(&self, other: &Self) -> bool {
        match (self, other) {
            (CoreError::ArgVal(a), CoreError::ArgVal(b)) => PartialEqSpec::eq_spec(a, b),
            (CoreError::ArgMiss(a), CoreError::ArgMiss(b)) => PartialEqSpec::eq_spec(a, b),
            (CoreError::Null(a), CoreError::Null(b)) => PartialEqSpec::eq_spec(a, b),
            (CoreError::Format(a), CoreError::Format(b)) => PartialEqSpec::eq_spec(a, b),
            (CoreError::Range(a), CoreError::Range(b)) => PartialEqSpec::eq_spec(a, b),
            (CoreError::Operation(a), CoreError::Operation(b)) => PartialEqSpec::eq_spec(a, b),
            (CoreError::Conv(a), CoreError::Conv(b)) => PartialEqSpec::eq_spec(a, b),
            (CoreError::Name(a), CoreError::Name(b)) => a == b,
            _ => false,
        }
    }
}

impl Eq for CoreError {

}

impl From<ArgumentValueError> for CoreError {
    fn from(value: ArgumentValueError) -> (error: Self) {
        CoreError::ArgVal(value)
    }
}

impl vstd::std_specs::convert::FromSpecImpl<ArgumentValueError> for CoreError {
    open spec fn obeys_from_spec() -> bool {
        true
    }

    open spec fn from_spec(value: ArgumentValueError) -> Self {
        CoreError::ArgVal(value)
    }
}

impl From<ArgumentMissingError> for CoreError {
    fn from(value: ArgumentMissingError) -> (error: Self) {
        CoreError::ArgMiss(value)
    }
}

impl vstd::std_specs::convert::FromSpecImpl<ArgumentMissingError> for CoreError {
    open spec fn obeys_from_spec() -> bool {
        true
    }

    open spec fn from_spec(value: ArgumentMissingError) -> Self {
        CoreError::ArgMiss(value)
    }
}

impl From<NullError> for CoreError {
    fn from(value: NullError) -> (error: Self) {
        CoreError::Null(value)
    }
}

impl vstd::std_specs::convert::FromSpecImpl<NullError> for CoreError {
    open spec fn obeys_from_spec() -> bool {
        true
    }

    open spec fn from_spec(value: NullError) -> Self {
        CoreError::Null(value)
    }
}

impl From<FormattingError> for CoreError {
    fn from(value: FormattingError) -> (error: Self) {
        CoreError::Format(value)
    }
}

impl vstd::std_specs::convert::FromSpecImpl<FormattingError> for CoreError {
    open spec fn obeys_from_spec() -> bool {
        true
    }

    open spec fn from_spec(value: FormattingError) -> Self {
        CoreError::Format(value)
    }
}

impl From<IndexRangeError> for CoreError {
    fn from(value: IndexRangeError) -> (error: Self) {
        CoreError::Range(value)
    }
}

impl vstd::std_specs::convert::FromSpecImpl<IndexRangeError> for CoreError {
    open spec fn obeys_from_spec() -> bool {
        true
    }

    open spec fn from_spec(value: IndexRangeError) -> Self {
        CoreError::Range(value)
    }
}

impl From<OperationError> for CoreError {
    fn from(value: OperationError) -> (error: Self) {
        CoreError::Operation(value)
    }
}

impl vstd::std_specs::convert::FromSpecImpl<OperationError> for CoreError {
    open spec fn obeys_from_spec() -> bool {
        true
    }

    open spec fn from_spec(value: OperationError) -> Self {
        CoreError::Operation(value)
    }
}

impl From<ConversionError> for CoreError {
    fn from(value: ConversionError) -> (error: Self) {
        CoreError::Conv(value)
    }
}

impl vstd::std_specs::convert::FromSpecImpl<ConversionError> for CoreError {
    open spec fn obeys_from_spec() -> bool {
        true
    }

    open spec fn from_spec(value: ConversionError) -> Self {
        CoreError::Conv(value)
    }
}

impl From<UnexpectedError> for CoreError {
    fn from(value: UnexpectedError) -> (error: Self) {
        CoreError::Unexpected(value)
    }
}

impl vstd::std_specs::convert::FromSpecImpl<UnexpectedError> for CoreError {
    open spec fn obeys_from_spec() -> bool {
        true
    }

    open spec fn from_spec(value: UnexpectedError) -> Self {
        CoreError::Unexpected(value)
    }
}

impl From<NamingError> for CoreError {
    fn from(value: NamingError) -> (error: Self) {
        CoreError::Name(value)
    }
}

impl vstd::std_specs::convert::FromSpecImpl<NamingError> for CoreError {
    open spec fn obeys_from_spec() -> bool {
        true
    }

    open spec fn from_spec(value: NamingError) -> Self {
        CoreError::Name(value)
    }
}

/// An error of a stream, or one of the toolkit's own.
#[derive(Debug)]
pub enum IOError {
    IO(std::io::Error),
    Core(CoreError),
}

impl IOError {
    /// The text that this error shows: for an error of the toolkit's own its
    /// report, for an error of a stream what that error displays.
    pub fn to_string(&self) -> (text: String)
        ensures
            match self {
                IOError::IO(error) => vstd::string::to_string_from_display_ensures::<
                    std::io::Error,
                >(error, text),
                IOError::Core(error) => text@ == error.report(),
            },
    {
        match self {
            IOError::IO(error) => error.to_string(),
            IOError::Core(error) => error.to_string(),
        }
    }
}

/// An error of reading or writing JSON, or one of a stream.
#[derive(Debug)]
pub enum ParsingError {
    Serde(serde_json::Error),
    IO(std::io::Error),
}

impl ParsingError {
    /// The text that the error it holds displays.
    pub fn to_string(&self) -> (text: String)
        ensures
            match self {
                ParsingError::Serde(error) => vstd::string::to_string_from_display_ensures::<
                    serde_json::Error,
                >(error, text),
                ParsingError::IO(error) => vstd::string::to_string_from_display_ensures::<
                    std::io::Error,
                >(error, text),
            },
    {
        match self {
            ParsingError::Serde(error) => error.to_string(),
            ParsingError::IO(error) => error.to_string(),
        }
    }
}

impl From<std::io::Error> for IOError {
    fn from(value: std::io::Error) -> (error: Self) {
        IOError::IO(value)
    }
}

impl vstd::std_specs::convert::FromSpecImpl<std::io::Error> for IOError {
    open spec fn obeys_from_spec() -> bool {
        true
    }

    open spec fn from_spec(value: std::io::Error) -> Self {
        IOError::IO(value)
    }
}

impl From<CoreError> for IOError {
    fn from(value: CoreError) -> (error: Self) {
        IOError::Core(value)
    }
}

impl vstd::std_specs::convert::FromSpecImpl<CoreError> for IOError {
    open spec fn obeys_from_spec() -> bool {
        true
    }

    open spec fn from_spec(value: CoreError) -> Self {
        IOError::Core(value)
    }
}

impl From<serde_json::Error> for ParsingError {
    fn from(value: serde_json::Error) -> (error: Self) {
        ParsingError::Serde(value)
    }
}

impl vstd::std_specs::convert::FromSpecImpl<serde_json::Error> for ParsingError {
    open spec fn obeys_from_spec() -> bool {
        true
    }

    open spec fn from_spec(value: serde_json::Error) -> Self {
        ParsingError::Serde(value)
    }
}

impl From<std::io::Error> for ParsingError {
    fn from(value: std::io::Error) -> (error: Self) {
        ParsingError::IO(value)
    }
}

impl vstd::std_specs::convert::FromSpecImpl<std::io::Error> for ParsingError {
    open spec fn obeys_from_spec() -> bool {
        true
    }

    open spec fn from_spec(value: std::io::Error) -> Self {
        ParsingError::IO(value)
    }
}

} // verus!
