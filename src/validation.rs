use vstd::prelude::*;
use crate::users::NewUser;

verus! {

/// The lightweight email shape: one `@` with text before it, a `.` inside
/// the domain with text on both sides, and no whitespace anywhere.
pub const EMAIL_PATTERN: &'static str = r"^[^\s@]+@[^\s@]+\.[^\s@]+$";

/// The violation code of a blank name.
pub const NAME_REQUIRED: &'static str = "name_required";

/// The violation code of a malformed email.
pub const EMAIL_INVALID: &'static str = "email_invalid";

#[verifier::external_type_specification]
#[verifier::external_body]
pub struct ExRegex(regex::Regex);

#[verifier::external_type_specification]
#[verifier::external_body]
pub struct ExRegexError(regex::Error);

/// The source text that a compiled regex was built from (`Regex::as_str`).
pub uninterp spec fn regex_source(re: regex::Regex) -> Seq<char>;

/// The characters with the Unicode White_Space property.
pub open spec fn is_white_space(c: char) -> bool {
    ('\u{9}' <= c <= '\u{d}') || c == ' ' || c == '\u{85}' || c == '\u{a0}' || c == '\u{1680}'
        || ('\u{2000}' <= c <= '\u{200a}') || c == '\u{2028}' || c == '\u{2029}' || c
        == '\u{202f}' || c == '\u{205f}' || c == '\u{3000}'
}

/// Every character of `s` is whitespace (so an empty text is blank).
pub open spec fn is_blank(s: Seq<char>) -> bool {
    forall|k: int| 0 <= k < s.len() ==> is_white_space(#[trigger] s[k])
}

/// `r` is `s` without its leading and trailing whitespace.
pub open spec fn is_trim_of(s: Seq<char>, r: Seq<char>) -> bool {
    exists|a: int, b: int|
        {
            &&& 0 <= a <= b <= s.len()
            &&& r == s.subrange(a, b)
            &&& forall|k: int| 0 <= k < a ==> is_white_space(#[trigger] s[k])
            &&& forall|k: int| b <= k < s.len() ==> is_white_space(#[trigger] s[k])
            &&& a < b ==> !is_white_space(s[a]) && !is_white_space(s[b - 1])
        }
}

/// A character that may stand in any of the three parts of an email.
pub open spec fn is_email_char(c: char) -> bool {
    !is_white_space(c) && c != '@'
}

/// `s` is a non-empty local part, `@`, and a domain with a `.` that has
/// text on both sides, with no whitespace and no second `@`.
pub open spec fn email_shaped(s: Seq<char>) -> bool {
    exists|i: int, j: int|
        {
            &&& 0 < i && i + 1 < j && j + 1 < s.len()
            &&& #[trigger] s[i] == '@'
            &&& #[trigger] s[j] == '.'
            &&& forall|k: int| 0 <= k < s.len() && k != i ==> is_email_char(#[trigger] s[k])
        }
}

/// The violation codes of a creation request, name first.
pub open spec fn violations(name: Seq<char>, email: Seq<char>) -> Seq<Seq<char>> {
    (if is_blank(name) {
        seq![NAME_REQUIRED@]
    } else {
        seq![]
    }) + (if email_shaped(email) {
        seq![]
    } else {
        seq![EMAIL_INVALID@]
    })
}

/// A blank name and a malformed email are both reported, the name first.
pub proof fn lemma_blank_name_and_bad_email(name: Seq<char>, email: Seq<char>)
    requires
        is_blank(name),
        !email_shaped(email),
    ensures
        violations(name, email) == seq![NAME_REQUIRED@, EMAIL_INVALID@],
{
    assert(violations(name, email) =~= seq![NAME_REQUIRED@, EMAIL_INVALID@]);
}

/// A request with a non-blank name and an email-shaped email has no violation.
pub proof fn lemma_valid_request_passes(name: Seq<char>, email: Seq<char>)
    requires
        !is_blank(name),
        email_shaped(email),
    ensures
        violations(name, email).len() == 0,
{
}

/// Relies on `str::trim`, which removes leading and trailing characters with
/// the Unicode White_Space property.
#[verifier::external_body]
fn trim(s: &str) -> (r: &str)
    ensures
        is_trim_of(s@, r@),
{
    s.trim()
}

/// Relies on `regex::Regex::new`: a compiled regex keeps its source text, and
/// the email pattern is valid regex syntax.
#[verifier::external_body]
fn compile_regex(pattern: &str) -> (r: Result<regex::Regex, regex::Error>)
    ensures
        r matches Ok(re) ==> regex_source(re) == pattern@,
        pattern@ == EMAIL_PATTERN@ ==> r is Ok,
{
    regex::Regex::new(pattern)
}

/// Relies on `regex::Regex::is_match`: under the email pattern (anchored at
/// both ends, `\s` being Unicode White_Space) a text matches exactly when it
/// is email-shaped.
#[verifier::external_body]
fn regex_is_match(re: &regex::Regex, s: &str) -> (r: bool)
    ensures
        regex_source(*re) == EMAIL_PATTERN@ ==> r == email_shaped(s@),
{
    re.is_match(s)
}

proof fn lemma_trim_empty_iff_blank(s: Seq<char>, r: Seq<char>)
    requires
        is_trim_of(s, r),
    ensures
        r.len() == 0 <==> is_blank(s),
{
    let (a, b) = choose|a: int, b: int|
        {
            &&& 0 <= a <= b <= s.len()
            &&& r == s.subrange(a, b)
            &&& forall|k: int| 0 <= k < a ==> is_white_space(#[trigger] s[k])
            &&& forall|k: int| b <= k < s.len() ==> is_white_space(#[trigger] s[k])
            &&& a < b ==> !is_white_space(s[a]) && !is_white_space(s[b - 1])
        };
    if r.len() == 0 {
        assert forall|k: int| 0 <= k < s.len() implies is_white_space(#[trigger] s[k]) by {
            if k >= b {
            } else {
                assert(k < a);
            }
        }
    }
    if is_blank(s) && r.len() > 0 {
        assert(is_white_space(s[a]));
    }
}

/// The validator of creation requests. It holds the email pattern compiled
/// once, and is never changed after that.
pub struct Validator {
    email: regex::Regex,
}

impl Validator {
    #[verifier::type_invariant]
    closed spec fn compiled(self) -> bool {
        regex_source(self.email) == EMAIL_PATTERN@
    }

    pub fn new() -> (r: Validator) {
        match compile_regex(EMAIL_PATTERN) {
            Ok(email) => Validator { email },
            Err(_) => vstd::pervasive::unreached(),
        }
    }

    /// Checks every rule and reports all the violations, in rule order.
    pub fn validate(&self, input: &NewUser) -> (r: Result<(), Vec<String>>)
        ensures
            r is Ok <==> violations(input.name@, input.email@).len() == 0,
            r matches Err(v) ==> v@.len() > 0 && v@.len() == violations(
                input.name@,
                input.email@,
            ).len() && forall|k: int|
                0 <= k < v@.len() ==> #[trigger] v@[k]@ == violations(
                    input.name@,
                    input.email@,
                )[k],
    {
        proof {
            use_type_invariant(self);
        }
        let mut errors: Vec<String> = Vec::new();
        let trimmed = trim(input.name.as_str());
        proof {
            lemma_trim_empty_iff_blank(input.name@, trimmed@);
        }
        if trimmed.is_empty() {
            errors.push(NAME_REQUIRED.to_owned());
        }
        if !regex_is_match(&self.email, input.email.as_str()) {
            errors.push(EMAIL_INVALID.to_owned());
        }
        let ghost want = violations(input.name@, input.email@);
        assert(errors@.len() == want.len());
        if errors.len() == 0 {
            Ok(())
        } else {
            Err(errors)
        }
    }
}

/// Checks a creation request: the name must not be blank, the email must be
/// email-shaped. All violations are reported, the name's first.
pub fn validate_new_user(input: &NewUser) -> (r: Result<(), Vec<String>>)
    ensures
        r is Ok <==> violations(input.name@, input.email@).len() == 0,
        r matches Err(v) ==> v@.len() > 0 && v@.len() == violations(
            input.name@,
            input.email@,
        ).len() && forall|k: int|
            0 <= k < v@.len() ==> #[trigger] v@[k]@ == violations(input.name@, input.email@)[k],
{
    Validator::new().validate(input)
}

} // verus!
