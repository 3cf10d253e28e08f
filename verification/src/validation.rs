//! Validation and normalization of identifier-like names under a casing
//! policy.
//!
//! Two policies are supported:
//!
//! - [`Case::SnakeCase`]: ASCII letters and underscores (`_`); the normalized
//!   form is the input fully lower-cased.
//! - [`Case::TrainCase`]: ASCII letters and hyphens (`-`); the normalized form
//!   lower-cases the input and then upper-cases the first character and the
//!   character immediately following every hyphen (e.g. `sk-learn` becomes
//!   `Sk-Learn`).
//!
//! Digits are rejected under both policies with
//! [`ErrorCase::NumberNotAllowed`]; any other character outside the policy's
//! alphabet is rejected with [`ErrorCase::SpecialCharNotAllowed`]. The input
//! is scanned left to right and the first violation wins.

use vstd::prelude::*;

verus! {

/// The casing policy a name is validated against.
#[derive(Clone, Copy, Debug)]
pub enum Case {
    SnakeCase,
    TrainCase,
}

/// Why a name was rejected.
#[derive(Clone, Copy, Debug, PartialEq, Eq, Structural)]
pub enum ErrorCase {
    /// The name contains a decimal digit.
    NumberNotAllowed,
    /// The name contains a character outside the policy's alphabet.
    SpecialCharNotAllowed,
}

impl ErrorCase {
    /// A human-readable description of the rejection.
    pub fn message(&self) -> (r: &'static str)
        ensures
            *self matches ErrorCase::NumberNotAllowed ==> r@ == "Numbers are not allowed!"@,
            *self matches ErrorCase::SpecialCharNotAllowed ==> r@
                == "Only alphabetic characters are allowed"@,
    {
        match self {
            ErrorCase::NumberNotAllowed => "Numbers are not allowed!",
            ErrorCase::SpecialCharNotAllowed => "Only alphabetic characters are allowed",
        }
    }
}

/// True when `c` is an ASCII lower-case letter.
pub open spec fn is_lower_char(c: char) -> bool {
    'a' <= c && c <= 'z'
}

/// True when `c` is an ASCII upper-case letter.
pub open spec fn is_upper_char(c: char) -> bool {
    'A' <= c && c <= 'Z'
}

/// True when `c` is an ASCII letter.
pub open spec fn is_alpha_char(c: char) -> bool {
    is_lower_char(c) || is_upper_char(c)
}

/// True when `c` is a decimal digit.
pub open spec fn is_digit_char(c: char) -> bool {
    '0' <= c && c <= '9'
}

/// The ASCII lower-case form of `c`: upper-case letters move down by 32 code
/// points, every other character is unchanged.
pub open spec fn to_lower_char(c: char) -> char {
    if is_upper_char(c) {
        ((c as u32) + 32) as char
    } else {
        c
    }
}

/// The ASCII upper-case form of `c`: lower-case letters move up by 32 code
/// points, every other character is unchanged.
pub open spec fn to_upper_char(c: char) -> char {
    if is_lower_char(c) {
        ((c as u32) - 32) as char
    } else {
        c
    }
}

/// `s` with every character lower-cased.
pub open spec fn lower_seq(s: Seq<char>) -> Seq<char> {
    Seq::new(s.len(), |i: int| to_lower_char(s[i]))
}

/// Whether `c` belongs to the alphabet the policy permits.
pub open spec fn policy_char_ok(c: char, case: Case) -> bool {
    match case {
        Case::SnakeCase => is_alpha_char(c) || c == '_',
        Case::TrainCase => is_alpha_char(c) || c == '-',
    }
}

/// The first rule violated by `s` under `case`, scanning left to right:
/// a digit yields `NumberNotAllowed`, any other character outside the
/// policy's alphabet yields `SpecialCharNotAllowed`.
pub open spec fn first_violation(s: Seq<char>, case: Case) -> Option<ErrorCase>
    decreases s.len(),
{
    if s.len() == 0 {
        None
    } else if is_digit_char(s[0]) {
        Some(ErrorCase::NumberNotAllowed)
    } else if !policy_char_ok(s[0], case) {
        Some(ErrorCase::SpecialCharNotAllowed)
    } else {
        first_violation(s.drop_first(), case)
    }
}

/// The running "capitalize next character" state of the train-case
/// normalizer, just before position `i`: true at the start of the string,
/// and true again right after a hyphen that did not itself consume the
/// state.
pub open spec fn capitalize_at(s: Seq<char>, i: int) -> bool
    decreases i,
{
    if i <= 0 {
        true
    } else {
        !capitalize_at(s, i - 1) && s[i - 1] == '-'
    }
}

/// The train-case normal form of `s`: lower-case everything, then upper-case
/// each position where the capitalize state is set.
pub open spec fn train_normalize(s: Seq<char>) -> Seq<char> {
    Seq::new(
        s.len(),
        |i: int|
            if capitalize_at(s, i) {
                to_upper_char(to_lower_char(s[i]))
            } else {
                to_lower_char(s[i])
            },
    )
}

/// The normal form of `s` under `case`, assuming `s` passes validation.
pub open spec fn normalize_spec(s: Seq<char>, case: Case) -> Seq<char> {
    match case {
        Case::SnakeCase => lower_seq(s),
        Case::TrainCase => train_normalize(s),
    }
}

/// What validation returns on `s` under `case`: the first violation if there
/// is one, otherwise the normal form.
pub open spec fn validate_spec(s: Seq<char>, case: Case) -> Result<Seq<char>, ErrorCase> {
    match first_violation(s, case) {
        Some(e) => Err(e),
        None => Ok(normalize_spec(s, case)),
    }
}

/// Relates an executable validation result to [`validate_spec`].
pub open spec fn obeys_validate_spec(
    r: Result<String, ErrorCase>,
    s: Seq<char>,
    case: Case,
) -> bool {
    match r {
        Ok(out) => validate_spec(s, case) == Ok::<Seq<char>, ErrorCase>(out@),
        Err(e) => validate_spec(s, case) == Err::<Seq<char>, ErrorCase>(e),
    }
}

/// Relies on `String::push`: appends the given character to the end of the
/// string.
#[verifier::external_body]
fn string_push(s: &mut String, c: char)
    ensures
        final(s)@ == old(s)@.push(c),
{
    s.push(c);
}

fn char_is_digit(c: char) -> (b: bool)
    ensures
        b == is_digit_char(c),
{
    '0' <= c && c <= '9'
}

fn char_is_alpha(c: char) -> (b: bool)
    ensures
        b == is_alpha_char(c),
{
    ('a' <= c && c <= 'z') || ('A' <= c && c <= 'Z')
}

fn char_to_lower(c: char) -> (r: char)
    ensures
        r == to_lower_char(c),
{
    if 'A' <= c && c <= 'Z' {
        let u: u32 = c as u32 + 32;
        (u as u8) as char
    } else {
        c
    }
}

fn char_to_upper(c: char) -> (r: char)
    ensures
        r == to_upper_char(c),
{
    if 'a' <= c && c <= 'z' {
        let u: u32 = c as u32 - 32;
        (u as u8) as char
    } else {
        c
    }
}

/// If every character of `s` before position `i` is acceptable, the first
/// violation of `s` is decided at or after position `i`.
pub proof fn lemma_first_violation_at(s: Seq<char>, case: Case, i: int)
    requires
        0 <= i <= s.len(),
        forall|j: int|
            0 <= j < i ==> !is_digit_char(#[trigger] s[j]) && policy_char_ok(s[j], case),
    ensures
        i == s.len() ==> first_violation(s, case) is None,
        i < s.len() && is_digit_char(s[i]) ==> first_violation(s, case) == Some(
            ErrorCase::NumberNotAllowed,
        ),
        i < s.len() && !is_digit_char(s[i]) && !policy_char_ok(s[i], case) ==> first_violation(
            s,
            case,
        ) == Some(ErrorCase::SpecialCharNotAllowed),
    decreases i,
{
    if i > 0 {
        assert(!is_digit_char(s[0]) && policy_char_ok(s[0], case));
        lemma_first_violation_at(s.drop_first(), case, i - 1);
        assert(forall|j: int| 0 <= j < s.len() - 1 ==> s.drop_first()[j] == s[j + 1]);
    }
}

/// Validates `name` as snake case: only ASCII letters and `_` are accepted,
/// and the result is the input lower-cased.
pub fn validate_name_snake(name: String) -> (r: Result<String, ErrorCase>)
    ensures
        obeys_validate_spec(r, name@, Case::SnakeCase),
{
    let n = name.as_str().unicode_len();
    let mut out = String::new();
    let mut i: usize = 0;
    while i < n
        invariant
            i <= n,
            n == name@.len(),
            forall|j: int|
                0 <= j < i ==> !is_digit_char(#[trigger] name@[j]) && policy_char_ok(
                    name@[j],
                    Case::SnakeCase,
                ),
            out@ == lower_seq(name@).subrange(0, i as int),
        decreases n - i,
    {
        let c = name.as_str().get_char(i);
        if char_is_digit(c) {
            proof {
                lemma_first_violation_at(name@, Case::SnakeCase, i as int);
            }
            return Err(ErrorCase::NumberNotAllowed);
        }
        if !(char_is_alpha(c) || c == '_') {
            proof {
                lemma_first_violation_at(name@, Case::SnakeCase, i as int);
            }
            return Err(ErrorCase::SpecialCharNotAllowed);
        }
        string_push(&mut out, char_to_lower(c));
        proof {
            assert(lower_seq(name@).subrange(0, i + 1) =~= lower_seq(name@).subrange(
                0,
                i as int,
            ).push(to_lower_char(name@[i as int])));
        }
        i += 1;
    }
    proof {
        lemma_first_violation_at(name@, Case::SnakeCase, n as int);
        assert(out@ =~= lower_seq(name@));
    }
    Ok(out)
}

/// Validates `name` as train case: only ASCII letters and `-` are accepted,
/// and the result lower-cases the input and upper-cases the first character
/// and the character following every hyphen.
pub fn validate_name_train(name: String) -> (r: Result<String, ErrorCase>)
    ensures
        obeys_validate_spec(r, name@, Case::TrainCase),
{
    let n = name.as_str().unicode_len();
    let mut out = String::new();
    let mut capitalize = true;
    let mut i: usize = 0;
    while i < n
        invariant
            i <= n,
            n == name@.len(),
            forall|j: int|
                0 <= j < i ==> !is_digit_char(#[trigger] name@[j]) && policy_char_ok(
                    name@[j],
                    Case::TrainCase,
                ),
            capitalize == capitalize_at(name@, i as int),
            out@ == train_normalize(name@).subrange(0, i as int),
        decreases n - i,
    {
        let c = name.as_str().get_char(i);
        if char_is_digit(c) {
            proof {
                lemma_first_violation_at(name@, Case::TrainCase, i as int);
            }
            return Err(ErrorCase::NumberNotAllowed);
        }
        if !(char_is_alpha(c) || c == '-') {
            proof {
                lemma_first_violation_at(name@, Case::TrainCase, i as int);
            }
            return Err(ErrorCase::SpecialCharNotAllowed);
        }
        let lc = char_to_lower(c);
        if capitalize {
            string_push(&mut out, char_to_upper(lc));
            capitalize = false;
        } else {
            if lc == '-' {
                capitalize = true;
            }
            string_push(&mut out, lc);
        }
        proof {
            assert(train_normalize(name@).subrange(0, i + 1) =~= train_normalize(
                name@,
            ).subrange(0, i as int).push(train_normalize(name@)[i as int]));
        }
        i += 1;
    }
    proof {
        lemma_first_violation_at(name@, Case::TrainCase, n as int);
        assert(out@ =~= train_normalize(name@));
    }
    Ok(out)
}

/// Validates and normalizes `name` under the requested policy.
pub fn check_name(name: String, case: Case) -> (r: Result<String, ErrorCase>)
    ensures
        obeys_validate_spec(r, name@, case),
{
    match case {
        Case::SnakeCase => validate_name_snake(name),
        Case::TrainCase => validate_name_train(name),
    }
}

/// How lower-casing and the train-case capitalization act on a character of
/// the train-case alphabet.
proof fn lemma_train_char(c: char)
    requires
        is_alpha_char(c) || c == '-',
    ensures
        ({
            let l = to_lower_char(c);
            let u = to_upper_char(l);
            &&& is_lower_char(l) || l == '-'
            &&& is_alpha_char(u) || u == '-'
            &&& (l == '-') <==> (c == '-')
            &&& (u == '-') <==> (c == '-')
            &&& to_lower_char(l) == l
            &&& to_lower_char(u) == l
            &&& !is_digit_char(l) && !is_digit_char(u) && !is_digit_char(c)
        }),
{
}

/// The capitalize state only looks at where the hyphens stand, so two
/// strings with hyphens in the same places share it.
proof fn lemma_capitalize_at_same_hyphens(s: Seq<char>, t: Seq<char>, i: int)
    requires
        s.len() == t.len(),
        forall|j: int| 0 <= j < s.len() ==> ((#[trigger] t[j] == '-') <==> (s[j] == '-')),
        0 <= i <= s.len(),
    ensures
        capitalize_at(t, i) == capitalize_at(s, i),
    decreases i,
{
    if i > 0 {
        lemma_capitalize_at_same_hyphens(s, t, i - 1);
    }
}

/// If a name carries a digit and every character before that digit is
/// permitted by the policy, validation reports `NumberNotAllowed`. (A
/// disallowed special character standing before the first digit wins
/// instead.)
pub proof fn lemma_digit_rejected(s: Seq<char>, k: int, case: Case)
    requires
        0 <= k < s.len(),
        is_digit_char(s[k]),
        forall|j: int|
            0 <= j < k ==> !is_digit_char(#[trigger] s[j]) && policy_char_ok(s[j], case),
    ensures
        validate_spec(s, case) == Err::<Seq<char>, ErrorCase>(ErrorCase::NumberNotAllowed),
{
    lemma_first_violation_at(s, case, k);
}

/// A string of ASCII letters and underscores is valid snake case, and its
/// normal form is the lower-cased input.
pub proof fn lemma_snake_accepts_letters_and_underscores(s: Seq<char>)
    requires
        forall|j: int| 0 <= j < s.len() ==> is_alpha_char(#[trigger] s[j]) || s[j] == '_',
    ensures
        validate_spec(s, Case::SnakeCase) == Ok::<Seq<char>, ErrorCase>(lower_seq(s)),
{
    assert forall|j: int| 0 <= j < s.len() implies !is_digit_char(#[trigger] s[j])
        && policy_char_ok(s[j], Case::SnakeCase) by {}
    lemma_first_violation_at(s, Case::SnakeCase, s.len() as int);
}

/// A string of ASCII letters, underscores, hyphens and spaces that carries
/// at least one hyphen or space is rejected as snake case with
/// `SpecialCharNotAllowed`.
pub proof fn lemma_snake_rejects_separator(s: Seq<char>)
    requires
        forall|j: int|
            0 <= j < s.len() ==> is_alpha_char(#[trigger] s[j]) || s[j] == '_' || s[j] == '-'
                || s[j] == ' ',
        exists|j: int| 0 <= j < s.len() && (#[trigger] s[j] == '-' || s[j] == ' '),
    ensures
        validate_spec(s, Case::SnakeCase) == Err::<Seq<char>, ErrorCase>(
            ErrorCase::SpecialCharNotAllowed,
        ),
    decreases s.len(),
{
    let w = choose|j: int| 0 <= j < s.len() && (#[trigger] s[j] == '-' || s[j] == ' ');
    if s[0] == '-' || s[0] == ' ' {
        assert(!is_digit_char(s[0]) && !policy_char_ok(s[0], Case::SnakeCase));
    } else {
        assert(w >= 1);
        assert(s.drop_first()[w - 1] == s[w]);
        lemma_snake_rejects_separator(s.drop_first());
    }
}

/// A string of ASCII letters and hyphens is valid train case, and
/// re-validating its own normal form gives that normal form back
/// (normalization is idempotent).
pub proof fn lemma_train_accepts_letters_and_hyphens(s: Seq<char>)
    requires
        forall|j: int| 0 <= j < s.len() ==> is_alpha_char(#[trigger] s[j]) || s[j] == '-',
    ensures
        validate_spec(s, Case::TrainCase) == Ok::<Seq<char>, ErrorCase>(train_normalize(s)),
        validate_spec(train_normalize(s), Case::TrainCase) == Ok::<Seq<char>, ErrorCase>(
            train_normalize(s),
        ),
{
    let t = train_normalize(s);
    assert forall|j: int| 0 <= j < s.len() implies !is_digit_char(#[trigger] s[j])
        && policy_char_ok(s[j], Case::TrainCase) by {
        lemma_train_char(s[j]);
    }
    lemma_first_violation_at(s, Case::TrainCase, s.len() as int);
    assert forall|j: int| 0 <= j < t.len() implies (is_alpha_char(#[trigger] t[j]) || t[j]
        == '-') && ((t[j] == '-') <==> (s[j] == '-')) && to_lower_char(t[j]) == to_lower_char(
        s[j],
    ) by {
        lemma_train_char(s[j]);
    }
    assert forall|j: int| 0 <= j < t.len() implies !is_digit_char(#[trigger] t[j])
        && policy_char_ok(t[j], Case::TrainCase) by {
        lemma_train_char(t[j]);
    }
    lemma_first_violation_at(t, Case::TrainCase, t.len() as int);
    assert forall|i: int| 0 <= i < t.len() implies train_normalize(t)[i] == t[i] by {
        lemma_capitalize_at_same_hyphens(s, t, i);
        lemma_train_char(s[i]);
    }
    assert(train_normalize(t) =~= t);
}

} // verus!
