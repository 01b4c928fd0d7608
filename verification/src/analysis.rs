//! The criteria evaluator: five independent structural checks on a
//! candidate password and the score derived from them.

use vstd::prelude::*;

verus! {

/// Minimum number of characters a password must have to satisfy the
/// length criterion.
pub const MIN_LENGTH: usize = 10;

/// An ASCII uppercase letter (`A`–`Z`).
pub open spec fn is_upper_char(c: char) -> bool {
    'A' <= c && c <= 'Z'
}

/// An ASCII lowercase letter (`a`–`z`).
pub open spec fn is_lower_char(c: char) -> bool {
    'a' <= c && c <= 'z'
}

/// An ASCII decimal digit (`0`–`9`).
pub open spec fn is_digit_char(c: char) -> bool {
    '0' <= c && c <= '9'
}

/// A word character: ASCII alphanumeric or underscore.
pub open spec fn is_word_char(c: char) -> bool {
    is_upper_char(c) || is_lower_char(c) || is_digit_char(c) || c == '_'
}

/// A symbol: any character that is not a word character.
pub open spec fn is_symbol_char(c: char) -> bool {
    !is_word_char(c)
}

/// The candidate contains at least one uppercase letter.
pub open spec fn spec_has_upper(s: Seq<char>) -> bool {
    exists|i: int| 0 <= i < s.len() && #[trigger] is_upper_char(s[i])
}

/// The candidate contains at least one lowercase letter.
pub open spec fn spec_has_lower(s: Seq<char>) -> bool {
    exists|i: int| 0 <= i < s.len() && #[trigger] is_lower_char(s[i])
}

/// The candidate contains at least one decimal digit.
pub open spec fn spec_has_digit(s: Seq<char>) -> bool {
    exists|i: int| 0 <= i < s.len() && #[trigger] is_digit_char(s[i])
}

/// The candidate contains at least one symbol.
pub open spec fn spec_has_symbol(s: Seq<char>) -> bool {
    exists|i: int| 0 <= i < s.len() && #[trigger] is_symbol_char(s[i])
}

/// The candidate has at least `MIN_LENGTH` characters, counted in
/// Unicode scalar values.
pub open spec fn spec_valid_length(s: Seq<char>) -> bool {
    s.len() >= MIN_LENGTH
}

/// Returns true when the password contains an uppercase letter.
pub fn has_upper(password: &str) -> (r: bool)
    ensures
        r == spec_has_upper(password@),
{
    let n = password.unicode_len();
    let mut i: usize = 0;
    while i < n
        invariant
            i <= n,
            n == password@.len(),
            forall|j: int| 0 <= j < i ==> !#[trigger] is_upper_char(password@[j]),
        decreases n - i,
    {
        let c = password.get_char(i);
        if 'A' <= c && c <= 'Z' {
            assert(is_upper_char(password@[i as int]));
            return true;
        }
        i += 1;
    }
    false
}

/// Returns true when the password contains a lowercase letter.
pub fn has_lower(password: &str) -> (r: bool)
    ensures
        r == spec_has_lower(password@),
{
    let n = password.unicode_len();
    let mut i: usize = 0;
    while i < n
        invariant
            i <= n,
            n == password@.len(),
            forall|j: int| 0 <= j < i ==> !#[trigger] is_lower_char(password@[j]),
        decreases n - i,
    {
        let c = password.get_char(i);
        if 'a' <= c && c <= 'z' {
            assert(is_lower_char(password@[i as int]));
            return true;
        }
        i += 1;
    }
    false
}

/// Returns true when the password contains a decimal digit.
pub fn has_number(password: &str) -> (r: bool)
    ensures
        r == spec_has_digit(password@),
{
    let n = password.unicode_len();
    let mut i: usize = 0;
    while i < n
        invariant
            i <= n,
            n == password@.len(),
            forall|j: int| 0 <= j < i ==> !#[trigger] is_digit_char(password@[j]),
        decreases n - i,
    {
        let c = password.get_char(i);
        if '0' <= c && c <= '9' {
            assert(is_digit_char(password@[i as int]));
            return true;
        }
        i += 1;
    }
    false
}

/// Returns true when the password contains a symbol, that is, a character
/// outside ASCII letters, digits and underscore.
pub fn has_symbol(password: &str) -> (r: bool)
    ensures
        r == spec_has_symbol(password@),
{
    let n = password.unicode_len();
    let mut i: usize = 0;
    while i < n
        invariant
            i <= n,
            n == password@.len(),
            forall|j: int| 0 <= j < i ==> !#[trigger] is_symbol_char(password@[j]),
        decreases n - i,
    {
        let c = password.get_char(i);
        let word = ('A' <= c && c <= 'Z') || ('a' <= c && c <= 'z') || ('0' <= c && c <= '9')
            || c == '_';
        if !word {
            assert(is_symbol_char(password@[i as int]));
            return true;
        }
        i += 1;
    }
    false
}

/// Returns true when the password has at least `MIN_LENGTH` characters.
pub fn valid_length(password: &str) -> (r: bool)
    ensures
        r == spec_valid_length(password@),
{
    password.unicode_len() >= MIN_LENGTH
}

/// One where a true criterion counts.
pub open spec fn as_point(b: bool) -> int {
    if b {
        1
    } else {
        0
    }
}

/// The score of a candidate: how many of the five criteria hold.
pub open spec fn spec_score(s: Seq<char>) -> int {
    as_point(spec_valid_length(s)) + as_point(spec_has_upper(s)) + as_point(spec_has_lower(s))
        + as_point(spec_has_digit(s)) + as_point(spec_has_symbol(s))
}

/// The outcome of evaluating a candidate against the five criteria,
/// together with the derived score.
pub struct CriteriaResult {
    /// The candidate has at least `MIN_LENGTH` characters.
    pub has_min_length: bool,
    /// The candidate contains an uppercase letter.
    pub has_upper: bool,
    /// The candidate contains a lowercase letter.
    pub has_lower: bool,
    /// The candidate contains a decimal digit.
    pub has_digit: bool,
    /// The candidate contains a symbol.
    pub has_symbol: bool,
    /// How many of the five criteria hold; always their exact count.
    pub score: u8,
}

impl CriteriaResult {
    /// The score field is exactly the count of true criteria.
    pub open spec fn well_formed(self) -> bool {
        self.score as int == as_point(self.has_min_length) + as_point(self.has_upper) + as_point(
            self.has_lower,
        ) + as_point(self.has_digit) + as_point(self.has_symbol)
    }

    /// The five fields record precisely which criteria the candidate meets.
    pub open spec fn describes(self, s: Seq<char>) -> bool {
        &&& self.has_min_length == spec_valid_length(s)
        &&& self.has_upper == spec_has_upper(s)
        &&& self.has_lower == spec_has_lower(s)
        &&& self.has_digit == spec_has_digit(s)
        &&& self.has_symbol == spec_has_symbol(s)
    }
}

/// Evaluates every criterion on the candidate. Total: any string, the
/// empty one included, gets a result; no criterion short-circuits another.
pub fn score(password: &str) -> (r: CriteriaResult)
    ensures
        r.describes(password@),
        r.well_formed(),
        r.score as int == spec_score(password@),
        r.score <= 5,
{
    let has_min_length = valid_length(password);
    let upper = has_upper(password);
    let lower = has_lower(password);
    let digit = has_number(password);
    let symbol = has_symbol(password);
    let mut score: u8 = 0;
    if has_min_length {
        score += 1;
    }
    if upper {
        score += 1;
    }
    if lower {
        score += 1;
    }
    if digit {
        score += 1;
    }
    if symbol {
        score += 1;
    }
    CriteriaResult { has_min_length, has_upper: upper, has_lower: lower, has_digit: digit, has_symbol: symbol, score }
}

/// The score of the candidate alone: how many of the five criteria hold.
pub fn score_password(password: &str) -> (r: u8)
    ensures
        r as int == spec_score(password@),
        r <= 5,
{
    score(password).score
}

/// The strength tier derived from a score.
#[derive(Clone, Copy, Debug, PartialEq, Eq, Structural)]
pub enum Label {
    /// Score 0 to 2.
    Weak,
    /// Score 3.
    Medium,
    /// Score 4 or 5.
    Strong,
}

/// The tier a score falls in: 0–2 weak, 3 medium, 4–5 strong.
pub open spec fn spec_classify(score: int) -> Label {
    if score <= 2 {
        Label::Weak
    } else if score == 3 {
        Label::Medium
    } else {
        Label::Strong
    }
}

/// The position of a tier in the weak-to-strong order.
pub open spec fn label_rank(label: Label) -> int {
    match label {
        Label::Weak => 0,
        Label::Medium => 1,
        Label::Strong => 2,
    }
}

/// Maps a score to its strength tier. Total over the scores a
/// `CriteriaResult` can carry, 0 through 5.
pub fn classify(score: u8) -> (r: Label)
    requires
        score <= 5,
    ensures
        r == spec_classify(score as int),
{
    if score <= 2 {
        Label::Weak
    } else if score == 3 {
        Label::Medium
    } else {
        Label::Strong
    }
}

impl Label {
    /// The tier's name, for presentation.
    pub fn as_str(&self) -> (r: &'static str)
        ensures
            r@ == match *self {
                Label::Weak => "Weak"@,
                Label::Medium => "Medium"@,
                Label::Strong => "Strong"@,
            },
    {
        match self {
            Label::Weak => "Weak",
            Label::Medium => "Medium",
            Label::Strong => "Strong",
        }
    }
}

/// Classification never goes down when the score goes up: a candidate that
/// satisfies more criteria is never placed in a weaker tier.
pub proof fn lemma_classify_monotonic(s1: int, s2: int)
    requires
        0 <= s1 <= s2 <= 5,
    ensures
        label_rank(spec_classify(s1)) <= label_rank(spec_classify(s2)),
{
}

/// The remediation lines owed to a candidate: one line for each criterion
/// that fails, in the fixed order length, upper, lower, digit, symbol.
pub open spec fn spec_suggestions(s: Seq<char>) -> Seq<Seq<char>> {
    let after_length = if !spec_valid_length(s) {
        Seq::<Seq<char>>::empty().push("- Make it at least 10 characters long."@)
    } else {
        Seq::<Seq<char>>::empty()
    };
    let after_upper = if !spec_has_upper(s) {
        after_length.push("- Include at least one uppercase letter."@)
    } else {
        after_length
    };
    let after_lower = if !spec_has_lower(s) {
        after_upper.push("- Include at least one lowercase letter."@)
    } else {
        after_upper
    };
    let after_digit = if !spec_has_digit(s) {
        after_lower.push("- Include at least one number."@)
    } else {
        after_lower
    };
    if !spec_has_symbol(s) {
        after_digit.push("- Include at least one special character (e.g., !@#$%^&*)."@)
    } else {
        after_digit
    }
}

/// One remediation line for every failed criterion, and none for a met
/// one: the list is exactly the complement of the true criteria, in the
/// fixed order length, upper, lower, digit, symbol.
pub fn suggestions(password: &str) -> (r: Vec<String>)
    ensures
        r.deep_view() == spec_suggestions(password@),
        r.deep_view().len() == 5 - spec_score(password@),
{
    let mut v: Vec<String> = Vec::new();
    if !valid_length(password) {
        v.push("- Make it at least 10 characters long.".to_owned());
    }
    if !has_upper(password) {
        v.push("- Include at least one uppercase letter.".to_owned());
    }
    if !has_lower(password) {
        v.push("- Include at least one lowercase letter.".to_owned());
    }
    if !has_number(password) {
        v.push("- Include at least one number.".to_owned());
    }
    if !has_symbol(password) {
        v.push("- Include at least one special character (e.g., !@#$%^&*).".to_owned());
    }
    proof {
        assert(v.deep_view() =~= spec_suggestions(password@));
    }
    v
}

} // verus!
