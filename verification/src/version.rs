//! Versions of three numbers, their order, and their text.

use vstd::prelude::*;
use std::cmp::Ordering;
use crate::error::FormattingError;
use crate::outside::{char_is_numeric, numeric_char};
use crate::text::{decimal, push_decimal};

verus! {

/// A version: major, minor and build number.
#[derive(Clone, Copy, Debug, PartialEq, Eq, Ord, Structural)]
pub struct Version {
    major: u16,
    minor: u16,
    build: u16,
}

/// Why a text is not a version.
pub enum VersionFault {
    /// The text holds a third period.
    TooManyPeriods,
    /// The text holds a character that is neither a period nor numeric.
    UnrecognizedToken(char),
    /// One of the three parts is not the decimal form of a 16 bit number.
    BadPart,
}

/// The number that the decimal digits `digits` spell.
pub open spec fn digits_value(digits: Seq<char>) -> nat
    decreases digits.len(),
{
    if digits.len() == 0 {
        0
    } else {
        digits_value(digits.drop_last()) * 10 + (digits.last() as u32 - 48) as nat
    }
}

/// Whether every character of `text` is one of the digits `0` to `9`.
pub open spec fn all_digits(text: Seq<char>) -> bool {
    forall|i: int| 0 <= i < text.len() ==> '0' <= #[trigger] text[i] <= '9'
}

/// The 16 bit number that `part` is the decimal form of, if it is one: it
/// is not empty, holds digits only, and its value fits.
pub open spec fn part_value(part: Seq<char>) -> Option<u16> {
    if part.len() > 0 && all_digits(part) && digits_value(part) <= u16::MAX {
        Some(digits_value(part) as u16)
    } else {
        None
    }
}

/// Whether a character goes into a part: it is one of the digits `0` to `9`,
/// or numeric in some other way.
pub open spec fn goes_into_part(c: char) -> bool {
    ('0' <= c && c <= '9') || numeric_char(c)
}

/// Reading `text` from the left: the parts between the periods, or the first
/// fault. A period closes a part, and a third period is a fault; a numeric
/// character goes to the open part; any other character is a fault.
pub open spec fn scan(text: Seq<char>) -> Result<Seq<Seq<char>>, VersionFault>
    decreases text.len(),
{
    if text.len() == 0 {
        Ok(seq![Seq::<char>::empty()])
    } else {
        match scan(text.drop_last()) {
            Err(fault) => Err(fault),
            Ok(parts) => {
                let c = text.last();
                if c == '.' {
                    if parts.len() >= 3 {
                        Err(VersionFault::TooManyPeriods)
                    } else {
                        Ok(parts.push(Seq::<char>::empty()))
                    }
                } else if goes_into_part(c) {
                    Ok(parts.update(parts.len() - 1, parts.last().push(c)))
                } else {
                    Err(VersionFault::UnrecognizedToken(c))
                }
            },
        }
    }
}

/// The version that `text` spells, or why it spells none: the first fault of
/// reading it, else three parts that are each a 16 bit number.
pub open spec fn parse_outcome(text: Seq<char>) -> Result<Version, VersionFault> {
    match scan(text) {
        Err(fault) => Err(fault),
        Ok(parts) => {
            if parts.len() == 3 && part_value(parts[0]) is Some && part_value(parts[1]) is Some
                && part_value(parts[2]) is Some {
                Ok(
                    Version::of(
                        part_value(parts[0])->0,
                        part_value(parts[1])->0,
                        part_value(parts[2])->0,
                    ),
                )
            } else {
                Err(VersionFault::BadPart)
            }
        },
    }
}

/// The reason that an error gives for `fault`.
pub open spec fn fault_reason(fault: VersionFault) -> Seq<char> {
    match fault {
        VersionFault::TooManyPeriods => "too many periods contained"@,
        VersionFault::UnrecognizedToken(c) => "unrecognized token '"@.push(c) + "'"@,
        VersionFault::BadPart => "one or more sub-parts could not be expressed as a u16"@,
    }
}

/// The 16 bit number that `part` is the decimal form of, if it is one.
fn part_number(part: &Vec<char>) -> (number: Option<u16>)
    ensures
        number == part_value(part@),
{
    if part.len() == 0 {
        return None;
    }
    let mut value: u32 = 0;
    let mut i: usize = 0;
    let mut fits: bool = true;
    while i < part.len()
        invariant
            i <= part@.len(),
            all_digits(part@.take(i as int)),
            fits ==> value == digits_value(part@.take(i as int)) && value <= u16::MAX,
            !fits ==> digits_value(part@.take(i as int)) > u16::MAX,
        decreases part@.len() - i,
    {
        let c = part[i];
        proof {
            assert(part@.take(i + 1).drop_last() =~= part@.take(i as int));
            assert(part@.take(i + 1).last() == c);
        }
        if c < '0' || c > '9' {
            assert(!all_digits(part@)) by {
                assert(part@[i as int] == c);
            }
            return None;
        }
        assert(all_digits(part@.take(i + 1))) by {
            assert forall|j: int| 0 <= j < i + 1 implies '0' <= #[trigger] part@.take(
                i + 1,
            )[j] <= '9' by {
                if j < i {
                    assert(part@.take(i as int)[j] == part@.take(i + 1)[j]);
                }
            }
        }
        if fits {
            let digit: u32 = c as u32 - 48;
            let next: u32 = value * 10 + digit;
            if next > 0xffff {
                fits = false;
            } else {
                value = next;
            }
        }
        i = i + 1;
    }
    assert(part@.take(i as int) =~= part@);
    if fits {
        Some(value as u16)
    } else {
        None
    }
}

impl Version {
    /// The version of the three numbers.
    pub closed spec fn of(major: u16, minor: u16, build: u16) -> Version {
        Version { major, minor, build }
    }

    /// The major number.
    pub closed spec fn major(self) -> u16 {
        self.major
    }

    /// The minor number.
    pub closed spec fn minor(self) -> u16 {
        self.minor
    }

    /// The build number.
    pub closed spec fn build(self) -> u16 {
        self.build
    }

    /// The text of this version: the three numbers in decimal, with periods
    /// between them.
    pub open spec fn text(self) -> Seq<char> {
        decimal(self.major() as nat) + "."@ + decimal(self.minor() as nat) + "."@ + decimal(
            self.build() as nat,
        )
    }

    /// How this version stands to `other`: by the major numbers, then by the
    /// minor numbers, then by the build numbers.
    pub open spec fn ordering(self, other: Version) -> Ordering {
        if self.major() != other.major() {
            if self.major() < other.major() {
                Ordering::Less
            } else {
                Ordering::Greater
            }
        } else if self.minor() != other.minor() {
            if self.minor() < other.minor() {
                Ordering::Less
            } else {
                Ordering::Greater
            }
        } else if self.build() != other.build() {
            if self.build() < other.build() {
                Ordering::Less
            } else {
                Ordering::Greater
            }
        } else {
            Ordering::Equal
        }
    }

    pub fn new(major: u16, minor: u16, build: u16) -> (version: Self)
        ensures
            version == Version::of(major, minor, build),
            version.major() == major,
            version.minor() == minor,
            version.build() == build,
    {
        Version { major, minor, build }
    }

    /// How this version stands to `other`.
    pub fn compare(&self, other: &Version) -> (order: Ordering)
        ensures
            order == self.ordering(*other),
    {
        if self.major != other.major {
            if self.major < other.major {
                Ordering::Less
            } else {
                Ordering::Greater
            }
        } else if self.minor != other.minor {
            if self.minor < other.minor {
                Ordering::Less
            } else {
                Ordering::Greater
            }
        } else if self.build != other.build {
            if self.build < other.build {
                Ordering::Less
            } else {
                Ordering::Greater
            }
        } else {
            Ordering::Equal
        }
    }

    /// The text of this version.
    pub fn to_string(&self) -> (text: String)
        ensures
            text@ == self.text(),
    {
        let mut text = String::new();
        push_decimal(&mut text, self.major.into());
        text.push('.');
        push_decimal(&mut text, self.minor.into());
        text.push('.');
        push_decimal(&mut text, self.build.into());
        proof {
            reveal_strlit(".");
            assert("."@ =~= seq!['.']);
            assert(text@ =~= self.text());
        }
        text
    }

    /// The version that `text` spells, or an error that holds the text and
    /// the reason why it spells none.
    pub fn parse(text: &str) -> (result: Result<Version, FormattingError>)
        ensures
            match parse_outcome(text@) {
                Ok(version) => result == Ok::<Version, FormattingError>(version),
                Err(fault) => result is Err && result->Err_0.processed() == text@
                    && result->Err_0.reason() == fault_reason(fault),
            },
    {
        let mut first: Vec<char> = Vec::new();
        let mut second: Vec<char> = Vec::new();
        let mut third: Vec<char> = Vec::new();
        let mut open: usize = 0;
        let length = text.unicode_len();
        let mut i: usize = 0;
        proof {
            assert(text@.take(0) =~= Seq::<char>::empty());
            assert(seq![first@] =~= seq![Seq::<char>::empty()]);
        }
        while i < length
            invariant
                length == text@.len(),
                i <= length,
                open < 3,
                open < 1 ==> second@ == Seq::<char>::empty(),
                open < 2 ==> third@ == Seq::<char>::empty(),
                scan(text@.take(i as int)) == Ok::<Seq<Seq<char>>, VersionFault>(
                    if open == 0 {
                        seq![first@]
                    } else if open == 1 {
                        seq![first@, second@]
                    } else {
                        seq![first@, second@, third@]
                    },
                ),
            decreases length - i,
        {
            let c = text.get_char(i);
            proof {
                assert(text@.take(i + 1).drop_last() =~= text@.take(i as int));
                assert(text@.take(i + 1).last() == c);
            }
            let ghost parts = scan(text@.take(i as int))->Ok_0;
            if c == '.' {
                if open + 1 >= 3 {
                    proof {
                        lemma_scan_fault_stays(text@, i + 1);
                    }
                    return Err(
                        FormattingError::from_text(
                            text.to_owned(),
                            "too many periods contained".to_owned(),
                        ),
                    );
                }
                open = open + 1;
                proof {
                    let after = parts.push(Seq::<char>::empty());
                    if open == 1 {
                        assert(after =~= seq![first@, second@]);
                    } else {
                        assert(after =~= seq![first@, second@, third@]);
                    }
                }
            } else if char_is_numeric(c) {
                if open == 0 {
                    first.push(c);
                    assert(parts.update(parts.len() - 1, parts.last().push(c)) =~= seq![first@]);
                } else if open == 1 {
                    second.push(c);
                    assert(parts.update(parts.len() - 1, parts.last().push(c)) =~= seq![
                        first@,
                        second@,
                    ]);
                } else {
                    third.push(c);
                    assert(parts.update(parts.len() - 1, parts.last().push(c)) =~= seq![
                        first@,
                        second@,
                        third@,
                    ]);
                }
            } else {
                let mut reason = "unrecognized token '".to_owned();
                reason.push(c);
                reason.push_str("'");
                proof {
                    lemma_scan_fault_stays(text@, i + 1);
                    assert(reason@ =~= fault_reason(VersionFault::UnrecognizedToken(c)));
                }
                return Err(FormattingError::from_text(text.to_owned(), reason));
            }
            i = i + 1;
        }
        assert(text@.take(i as int) =~= text@);
        if open == 2 {
            match (part_number(&first), part_number(&second), part_number(&third)) {
                (Some(major), Some(minor), Some(build)) => {
                    return Ok(Version::new(major, minor, build));
                },
                _ => {},
            }
        }
        Err(
            FormattingError::from_text(
                text.to_owned(),
                "one or more sub-parts could not be expressed as a u16".to_owned(),
            ),
        )
    }
}

/// The order of versions is a total order: equal standing means equal
/// versions, turning two versions round turns their standing round, and
/// what stands before a version stands before all that it stands before.
pub proof fn lemma_order_is_total(a: Version, b: Version, c: Version)
    ensures
        a.ordering(b) == Ordering::Equal <==> a == b,
        a.ordering(b) == Ordering::Less <==> b.ordering(a) == Ordering::Greater,
        a.ordering(b) == Ordering::Less && b.ordering(c) == Ordering::Less ==> a.ordering(c)
            == Ordering::Less,
{
}

/// A fault found in the leading part of a text is the fault of the text.
pub proof fn lemma_scan_fault_stays(text: Seq<char>, k: int)
    requires
        0 <= k <= text.len(),
        scan(text.take(k)) is Err,
    ensures
        scan(text) == scan(text.take(k)),
    decreases text.len() - k,
{
    if k < text.len() {
        assert(text.take(k + 1).drop_last() =~= text.take(k));
        lemma_scan_fault_stays(text, k + 1);
    } else {
        assert(text.take(k) =~= text);
    }
}

impl PartialOrd for Version {
    fn partial_cmp(&self, other: &Self) -> (order: Option<Ordering>) {
        Some(self.compare(other))
    }
}

impl vstd::std_specs::cmp::PartialOrdSpecImpl for Version {
    open spec fn obeys_partial_cmp_spec() -> bool {
        true
    }

    open spec fn partial_cmp_spec(&self, other: &Self) -> Option<Ordering> {
        Some(self.ordering(*other))
    }
}

impl std::str::FromStr for Version {
    type Err = FormattingError;

    /// The version that `s` spells, as `Version::parse` gives it.
    fn from_str(s: &str) -> (result: Result<Self, Self::Err>)
        ensures
            match parse_outcome(s@) {
                Ok(version) => result == Ok::<Version, FormattingError>(version),
                Err(fault) => result is Err && result->Err_0.processed() == s@
                    && result->Err_0.reason() == fault_reason(fault),
            },
    {
        Version::parse(s)
    }
}

/// The decimal form of a number holds digits only, and spells the number.
pub proof fn lemma_decimal_spells(n: nat)
    ensures
        decimal(n).len() > 0,
        all_digits(decimal(n)),
        digits_value(decimal(n)) == n,
    decreases n,
{
    reveal_with_fuel(digits_value, 2);
    if n < 10 {
        assert(decimal(n).drop_last() =~= Seq::<char>::empty());
    } else {
        lemma_decimal_spells(n / 10);
        let head = decimal(n / 10);
        let whole = decimal(n);
        assert(whole.drop_last() =~= head);
        assert forall|i: int| 0 <= i < whole.len() implies '0' <= #[trigger] whole[i] <= '9' by {
            if i < head.len() {
                assert(whole[i] == head[i]);
            }
        }
    }
}

/// Reading on over digits adds them to the open part.
pub proof fn lemma_scan_digits(text: Seq<char>, digits: Seq<char>)
    requires
        scan(text) is Ok,
        all_digits(digits),
    ensures
        scan(text + digits) == Ok::<Seq<Seq<char>>, VersionFault>(
            scan(text)->Ok_0.update(
                scan(text)->Ok_0.len() - 1,
                scan(text)->Ok_0.last() + digits,
            ),
        ),
        scan(text)->Ok_0.len() > 0,
    decreases digits.len(),
{
    lemma_scan_parts(text);
    let parts = scan(text)->Ok_0;
    if digits.len() == 0 {
        assert(text + digits =~= text);
        assert(parts.last() + digits =~= parts.last());
        assert(parts.update(parts.len() - 1, parts.last()) =~= parts);
    } else {
        let fewer = digits.drop_last();
        assert(all_digits(fewer)) by {
            assert forall|i: int| 0 <= i < fewer.len() implies '0' <= #[trigger] fewer[i]
                <= '9' by {
                assert(fewer[i] == digits[i]);
            }
        }
        lemma_scan_digits(text, fewer);
        assert((text + digits).drop_last() =~= text + fewer);
        let c = digits.last();
        assert(c == digits[digits.len() - 1]);
        assert((text + digits).last() == c);
        assert(c != '.');
        let before = parts.update(parts.len() - 1, parts.last() + fewer);
        assert(before.update(before.len() - 1, before.last().push(c)) =~= parts.update(
            parts.len() - 1,
            parts.last() + digits,
        )) by {
            assert((parts.last() + fewer).push(c) =~= parts.last() + digits);
        }
    }
}

/// Reading always leaves at least one part.
pub proof fn lemma_scan_parts(text: Seq<char>)
    ensures
        scan(text) is Ok ==> 1 <= scan(text)->Ok_0.len() <= 3,
    decreases text.len(),
{
    if text.len() > 0 {
        lemma_scan_parts(text.drop_last());
    }
}

/// Round trip. Reading the text of a version gives the version.
pub proof fn lemma_text_parses(version: Version)
    ensures
        parse_outcome(version.text()) == Ok::<Version, VersionFault>(version),
{
    let a = decimal(version.major() as nat);
    let b = decimal(version.minor() as nat);
    let c = decimal(version.build() as nat);
    lemma_decimal_spells(version.major() as nat);
    lemma_decimal_spells(version.minor() as nat);
    lemma_decimal_spells(version.build() as nat);
    reveal_strlit(".");
    let dot = "."@;
    assert(dot =~= seq!['.']);
    let none = Seq::<char>::empty();
    assert(scan(none) == Ok::<Seq<Seq<char>>, VersionFault>(seq![none]));
    lemma_scan_digits(none, a);
    assert(none + a =~= a);
    assert(scan(a) == Ok::<Seq<Seq<char>>, VersionFault>(seq![a])) by {
        assert(seq![none].update(0, none + a) =~= seq![a]);
    }
    let a_dot = a + dot;
    assert(a_dot.drop_last() =~= a);
    assert(a_dot.last() == '.');
    assert(scan(a_dot) == Ok::<Seq<Seq<char>>, VersionFault>(seq![a, none])) by {
        assert(seq![a].push(none) =~= seq![a, none]);
    }
    lemma_scan_digits(a_dot, b);
    assert(scan(a_dot + b) == Ok::<Seq<Seq<char>>, VersionFault>(seq![a, b])) by {
        assert(seq![a, none].update(1, none + b) =~= seq![a, b]);
    }
    let ab_dot = a_dot + b + dot;
    assert(ab_dot.drop_last() =~= a_dot + b);
    assert(ab_dot.last() == '.');
    assert(scan(ab_dot) == Ok::<Seq<Seq<char>>, VersionFault>(seq![a, b, none])) by {
        assert(seq![a, b].push(none) =~= seq![a, b, none]);
    }
    lemma_scan_digits(ab_dot, c);
    assert(scan(ab_dot + c) == Ok::<Seq<Seq<char>>, VersionFault>(seq![a, b, c])) by {
        assert(seq![a, b, none].update(2, none + c) =~= seq![a, b, c]);
    }
    assert(version.text() =~= ab_dot + c);
}

} // verus!
