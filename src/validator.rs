//! Strength rules for a replacement secret.
//!
//! The checks run in a fixed order and the first one that fails is the
//! single reason reported.
use vstd::prelude::*;

verus! {

/// Whether `char::is_numeric` holds of a character.
pub uninterp spec fn numeric_char(c: char) -> bool;

/// Whether `char::is_uppercase` holds of a character.
pub uninterp spec fn upper_char(c: char) -> bool;

/// Whether `char::is_lowercase` holds of a character.
pub uninterp spec fn lower_char(c: char) -> bool;

/// Whether `char::is_alphanumeric` holds of a character.
pub uninterp spec fn alphanumeric_char(c: char) -> bool;

/// Relies on `char::is_numeric`: the Unicode numeric categories, a fixed
/// function of the character.
#[verifier::external_body]
fn is_numeric(c: char) -> (r: bool)
    ensures
        r == numeric_char(c),
{
    c.is_numeric()
}

/// Relies on `char::is_uppercase`: the Unicode `Uppercase` property, a fixed
/// function of the character.
#[verifier::external_body]
fn is_uppercase(c: char) -> (r: bool)
    ensures
        r == upper_char(c),
{
    c.is_uppercase()
}

/// Relies on `char::is_lowercase`: the Unicode `Lowercase` property, a fixed
/// function of the character.
#[verifier::external_body]
fn is_lowercase(c: char) -> (r: bool)
    ensures
        r == lower_char(c),
{
    c.is_lowercase()
}

/// Relies on `char::is_alphanumeric`: alphabetic or numeric in Unicode, a
/// fixed function of the character.
#[verifier::external_body]
fn is_alphanumeric(c: char) -> (r: bool)
    ensures
        r == alphanumeric_char(c),
{
    c.is_alphanumeric()
}

/// Fewest characters a secret may have.
pub const MIN_LENGTH: usize = 10;

/// Fewest characters of each class (digit, upper, lower, special).
pub const MIN_PER_CLASS: usize = 2;

/// Why a candidate secret was turned down.
#[derive(Clone, Copy, Debug, PartialEq, Eq, Structural)]
pub enum RejectReason {
    TooShort,
    TooFewDigits,
    TooFewUpper,
    TooFewLower,
    TooFewSpecial,
    ExcessiveRun,
}

/// Outcome of checking a candidate secret.
#[derive(Clone, Copy, Debug, PartialEq, Eq, Structural)]
pub enum ValidationResult {
    Accepted,
    Rejected(RejectReason),
}

/// The character classes that each need `MIN_PER_CLASS` members.
#[derive(Clone, Copy, Debug, PartialEq, Eq, Structural)]
pub enum CharClass {
    Digit,
    Upper,
    Lower,
    Special,
}

/// The case shape of a character, as the run check sees it.
#[derive(Clone, Copy, Debug, PartialEq, Eq, Structural)]
pub enum Shape {
    Upper,
    Lower,
    Other,
}

pub open spec fn in_class(c: char, class: CharClass) -> bool {
    match class {
        CharClass::Digit => numeric_char(c),
        CharClass::Upper => upper_char(c),
        CharClass::Lower => lower_char(c),
        CharClass::Special => !alphanumeric_char(c),
    }
}

/// Number of characters of `s` in `class`.
pub open spec fn class_count(s: Seq<char>, class: CharClass) -> nat
    decreases s.len(),
{
    if s.len() == 0 {
        0
    } else {
        class_count(s.drop_last(), class) + if in_class(s.last(), class) {
            1nat
        } else {
            0nat
        }
    }
}

/// Upper-case wins over lower-case for a character that is both.
pub open spec fn shape_of(c: char) -> Shape {
    if upper_char(c) {
        Shape::Upper
    } else if lower_char(c) {
        Shape::Lower
    } else {
        Shape::Other
    }
}

/// Three letters of one case in a row start at index `i`.
pub open spec fn triple_at(s: Seq<char>, i: int) -> bool {
    &&& shape_of(s[i]) != Shape::Other
    &&& shape_of(s[i + 1]) == shape_of(s[i])
    &&& shape_of(s[i + 2]) == shape_of(s[i])
}

pub open spec fn has_excessive_run(s: Seq<char>) -> bool {
    exists|i: int| 0 <= i && i + 2 < s.len() && #[trigger] triple_at(s, i)
}

/// The verdict on a candidate: the first failing check, in order.
pub open spec fn validation_of(s: Seq<char>) -> ValidationResult {
    if s.len() < MIN_LENGTH {
        ValidationResult::Rejected(RejectReason::TooShort)
    } else if class_count(s, CharClass::Digit) < MIN_PER_CLASS {
        ValidationResult::Rejected(RejectReason::TooFewDigits)
    } else if class_count(s, CharClass::Upper) < MIN_PER_CLASS {
        ValidationResult::Rejected(RejectReason::TooFewUpper)
    } else if class_count(s, CharClass::Lower) < MIN_PER_CLASS {
        ValidationResult::Rejected(RejectReason::TooFewLower)
    } else if class_count(s, CharClass::Special) < MIN_PER_CLASS {
        ValidationResult::Rejected(RejectReason::TooFewSpecial)
    } else if has_excessive_run(s) {
        ValidationResult::Rejected(RejectReason::ExcessiveRun)
    } else {
        ValidationResult::Accepted
    }
}

fn char_in_class(c: char, class: CharClass) -> (r: bool)
    ensures
        r == in_class(c, class),
{
    match class {
        CharClass::Digit => is_numeric(c),
        CharClass::Upper => is_uppercase(c),
        CharClass::Lower => is_lowercase(c),
        CharClass::Special => !is_alphanumeric(c),
    }
}

pub fn shape(c: char) -> (r: Shape)
    ensures
        r == shape_of(c),
{
    if is_uppercase(c) {
        Shape::Upper
    } else if is_lowercase(c) {
        Shape::Lower
    } else {
        Shape::Other
    }
}

/// Counts the characters of `msg` in `class`; `len` is its length in characters.
fn count_class(msg: &str, len: usize, class: CharClass) -> (r: usize)
    requires
        len == msg@.len(),
    ensures
        r == class_count(msg@, class),
{
    let mut count: usize = 0;
    let mut i: usize = 0;
    while i < len
        invariant
            len == msg@.len(),
            i <= len,
            count <= i,
            count == class_count(msg@.subrange(0, i as int), class),
        decreases len - i,
    {
        let c = msg.get_char(i);
        assert(msg@.subrange(0, i + 1).drop_last() =~= msg@.subrange(0, i as int));
        if char_in_class(c, class) {
            count = count + 1;
        }
        i = i + 1;
    }
    assert(msg@.subrange(0, len as int) =~= msg@);
    count
}

/// Whether `msg` holds three letters of one case in a row.
fn find_excessive_run(msg: &str, len: usize) -> (r: bool)
    requires
        len == msg@.len(),
    ensures
        r == has_excessive_run(msg@),
{
    let ghost s = msg@;
    let mut last = Shape::Other;
    let mut streak: usize = 0;
    let mut i: usize = 0;
    while i < len
        invariant
            len == s.len(),
            s == msg@,
            i <= len,
            last == if i == 0 {
                Shape::Other
            } else {
                shape_of(s[i - 1])
            },
            last == Shape::Other ==> streak == 0,
            last != Shape::Other ==> (streak == 1 || streak == 2),
            last != Shape::Other ==> (streak == 2 <==> (i >= 2 && shape_of(s[i - 2]) == last)),
            forall|j: int| 0 <= j && j + 2 < i ==> !#[trigger] triple_at(s, j),
        decreases len - i,
    {
        let c = msg.get_char(i);
        let sh = shape(c);
        if sh == Shape::Other {
            streak = 0;
        } else if sh == last {
            if streak == 2 {
                assert(triple_at(s, i - 2));
                return true;
            }
            streak = streak + 1;
        } else {
            streak = 1;
        }
        last = sh;
        i = i + 1;
    }
    false
}

/// Checks a candidate secret against the strength rules.
pub fn validate(candidate: &str) -> (r: ValidationResult)
    ensures
        r == validation_of(candidate@),
{
    let len = candidate.unicode_len();
    if len < MIN_LENGTH {
        ValidationResult::Rejected(RejectReason::TooShort)
    } else if count_class(candidate, len, CharClass::Digit) < MIN_PER_CLASS {
        ValidationResult::Rejected(RejectReason::TooFewDigits)
    } else if count_class(candidate, len, CharClass::Upper) < MIN_PER_CLASS {
        ValidationResult::Rejected(RejectReason::TooFewUpper)
    } else if count_class(candidate, len, CharClass::Lower) < MIN_PER_CLASS {
        ValidationResult::Rejected(RejectReason::TooFewLower)
    } else if count_class(candidate, len, CharClass::Special) < MIN_PER_CLASS {
        ValidationResult::Rejected(RejectReason::TooFewSpecial)
    } else if find_excessive_run(candidate, len) {
        ValidationResult::Rejected(RejectReason::ExcessiveRun)
    } else {
        ValidationResult::Accepted
    }
}

/// The message shown for each reason.
pub open spec fn reason_text(reason: RejectReason) -> &'static str {
    match reason {
        RejectReason::TooShort => "Zu kurz",
        RejectReason::TooFewDigits => "Zu wenig Ziffern",
        RejectReason::TooFewUpper => "Zu wenig Großbuchstaben",
        RejectReason::TooFewLower => "Zu wenig Kleinbuchstaben",
        RejectReason::TooFewSpecial => "Zu wenig Sonderzeichen",
        RejectReason::ExcessiveRun => "Zu wenig Varianz",
    }
}

impl RejectReason {
    /// The message shown to the user for this reason.
    pub fn message(&self) -> (r: &'static str)
        ensures
            r == reason_text(*self),
    {
        match self {
            RejectReason::TooShort => "Zu kurz",
            RejectReason::TooFewDigits => "Zu wenig Ziffern",
            RejectReason::TooFewUpper => "Zu wenig Großbuchstaben",
            RejectReason::TooFewLower => "Zu wenig Kleinbuchstaben",
            RejectReason::TooFewSpecial => "Zu wenig Sonderzeichen",
            RejectReason::ExcessiveRun => "Zu wenig Varianz",
        }
    }
}

/// The message for why `msg` is not an acceptable secret, or `None` when it is.
pub fn reason_message_is_bad(msg: &str) -> (r: Option<&'static str>)
    ensures
        match validation_of(msg@) {
            ValidationResult::Accepted => r.is_none(),
            ValidationResult::Rejected(reason) => r == Some(reason_text(reason)),
        },
{
    match validate(msg) {
        ValidationResult::Accepted => None,
        ValidationResult::Rejected(reason) => Some(reason.message()),
    }
}

/// Every candidate shorter than `MIN_LENGTH` characters is rejected as too short.
pub proof fn lemma_short_is_rejected(s: Seq<char>)
    requires
        s.len() < MIN_LENGTH,
    ensures
        validation_of(s) == ValidationResult::Rejected(RejectReason::TooShort),
{
}

/// Every candidate that is long enough, has enough characters of each class
/// and no three letters of one case in a row is accepted.
pub proof fn lemma_strong_is_accepted(s: Seq<char>)
    requires
        s.len() >= MIN_LENGTH,
        class_count(s, CharClass::Digit) >= MIN_PER_CLASS,
        class_count(s, CharClass::Upper) >= MIN_PER_CLASS,
        class_count(s, CharClass::Lower) >= MIN_PER_CLASS,
        class_count(s, CharClass::Special) >= MIN_PER_CLASS,
        forall|i: int| 0 <= i && i + 2 < s.len() ==> !#[trigger] triple_at(s, i),
    ensures
        validation_of(s) == ValidationResult::Accepted,
{
}

/// The verdict depends on the characters alone: two candidates with the same
/// characters, or one candidate checked twice, get the same verdict.
pub proof fn lemma_validation_is_deterministic(a: &str, b: &str)
    requires
        a@ == b@,
    ensures
        validation_of(a@) == validation_of(b@),
{
}

} // verus!
