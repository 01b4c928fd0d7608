//! The password generator: builds a random password that satisfies the
//! four character-class criteria by construction, not by chance.

use vstd::prelude::*;

use crate::analysis::{
    is_digit_char, is_lower_char, is_symbol_char, is_upper_char, spec_has_digit, spec_has_lower,
    spec_has_symbol, spec_has_upper, spec_score, MIN_LENGTH,
};

verus! {

/// The length generated when the caller does not choose one.
pub const DEFAULT_LENGTH: usize = 16;

/// The shortest password the generator accepts: one seat for each of the
/// four mandatory character classes.
pub const GENERATED_MIN: usize = 4;

/// Why generation failed.
#[derive(Clone, Copy, Debug, PartialEq, Eq, Structural)]
pub enum PasswordError {
    /// The requested length is below the four-character floor.
    InvalidLength,
    /// The entropy source could not be read. The thread-local generator
    /// treats that as fatal and never reports it as a value, so generation
    /// never actually returns this; the variant completes the taxonomy for
    /// callers that present errors.
    SourceUnavailable,
}

/// Relies on `rand::Rng::random_range` over `0..bound`: the result is a
/// member of that range, drawn uniformly by `rand::rng()`, the
/// thread-local, OS-seeded, periodically reseeded ChaCha-based
/// cryptographically secure generator.
#[verifier::external_body]
fn random_index(bound: usize) -> (r: usize)
    requires
        0 < bound,
    ensures
        r < bound,
{
    rand::Rng::random_range(&mut rand::rng(), 0..bound)
}

/// Relies on `String::push`: appends exactly the one character.
#[verifier::external_body]
fn push_char(s: &mut String, c: char)
    ensures
        final (s)@ == old(s)@.push(c),
{
    s.push(c);
}

/// A member of the generator's symbol pool. The pool holds only
/// characters the evaluator counts as symbols; in particular it leaves
/// the underscore out, since the evaluator treats it as a word character.
pub open spec fn in_symbol_pool(c: char) -> bool {
    c == '!' || c == '@' || c == '#' || c == '$' || c == '%' || c == '^' || c == '&' || c == '*'
        || c == '(' || c == ')' || c == '-' || c == '+' || c == '=' || c == '.'
}

/// A member of the union of the four pools the generator draws from.
pub open spec fn is_pool_char(c: char) -> bool {
    is_lower_char(c) || is_upper_char(c) || is_digit_char(c) || in_symbol_pool(c)
}

/// Every symbol-pool member counts as a symbol for the evaluator.
pub proof fn lemma_symbol_pool_sound(c: char)
    requires
        in_symbol_pool(c),
    ensures
        is_symbol_char(c),
{
}

/// The `i`-th lowercase letter, `a` for 0 through `z` for 25.
fn lower_char(i: usize) -> (c: char)
    requires
        i < 26,
    ensures
        is_lower_char(c),
        is_pool_char(c),
{
    let b: u8 = 97 + (i as u8);
    let c = b as char;
    assert('a' <= c && c <= 'z');
    c
}

/// The `i`-th uppercase letter, `A` for 0 through `Z` for 25.
fn upper_char(i: usize) -> (c: char)
    requires
        i < 26,
    ensures
        is_upper_char(c),
        is_pool_char(c),
{
    let b: u8 = 65 + (i as u8);
    let c = b as char;
    assert('A' <= c && c <= 'Z');
    c
}

/// The `i`-th digit, `0` for 0 through `9` for 9.
fn digit_char(i: usize) -> (c: char)
    requires
        i < 10,
    ensures
        is_digit_char(c),
        is_pool_char(c),
{
    let b: u8 = 48 + (i as u8);
    let c = b as char;
    assert('0' <= c && c <= '9');
    c
}

/// The `i`-th symbol of the fixed symbol pool.
fn symbol_char(i: usize) -> (c: char)
    requires
        i < 14,
    ensures
        in_symbol_pool(c),
        is_pool_char(c),
{
    if i == 0 {
        '!'
    } else if i == 1 {
        '@'
    } else if i == 2 {
        '#'
    } else if i == 3 {
        '$'
    } else if i == 4 {
        '%'
    } else if i == 5 {
        '^'
    } else if i == 6 {
        '&'
    } else if i == 7 {
        '*'
    } else if i == 8 {
        '('
    } else if i == 9 {
        ')'
    } else if i == 10 {
        '-'
    } else if i == 11 {
        '+'
    } else {
        if i == 12 {
            '='
        } else {
            '.'
        }
    }
}

/// One character drawn uniformly from the union of the four pools: the
/// 26 lowercase letters, 26 uppercase letters, 10 digits and 14 symbols.
fn random_pool_char() -> (c: char)
    ensures
        is_pool_char(c),
{
    let i = random_index(76);
    if i < 26 {
        lower_char(i)
    } else if i < 52 {
        upper_char(i - 26)
    } else if i < 62 {
        digit_char(i - 52)
    } else {
        symbol_char(i - 62)
    }
}

/// Swapping two positions of a sequence leaves its multiset of elements
/// unchanged.
proof fn lemma_swap_multiset(s: Seq<char>, i: int, j: int)
    requires
        0 <= i < s.len(),
        0 <= j < s.len(),
    ensures
        s.update(i, s[j]).update(j, s[i]).to_multiset() == s.to_multiset(),
{
    broadcast use vstd::seq_lib::group_to_multiset_ensures;
    broadcast use vstd::multiset::group_multiset_axioms;

    let s1 = s.update(i, s[j]);
    assert(s1[j] == s[j]);
    assert(s.contains(s[i]));
    assert(s.to_multiset().count(s[i]) > 0);
    assert(s.update(i, s[j]).update(j, s[i]).to_multiset() =~= s.to_multiset());
}

/// Rearranges the characters in place without adding, dropping or
/// changing any: a Fisher–Yates shuffle, each position exchanged with a
/// uniformly drawn earlier-or-equal position, so no character keeps a
/// predictable seat.
fn shuffle_chars(v: &mut Vec<char>)
    ensures
        final (v)@.len() == old(v)@.len(),
        final (v)@.to_multiset() == old(v)@.to_multiset(),
{
    let n = v.len();
    let mut i: usize = n;
    while i > 1
        invariant
            i <= n,
            v@.len() == n,
            v@.to_multiset() == old(v)@.to_multiset(),
        decreases i,
    {
        let j = random_index(i);
        i = i - 1;
        let a = v[i];
        let b = v[j];
        let ghost before = v@;
        v.set(i, b);
        v.set(j, a);
        proof {
            lemma_swap_multiset(before, i as int, j as int);
        }
    }
}

/// Two sequences with the same multiset of characters satisfy the same
/// containment criteria: shuffling loses no character class.
proof fn lemma_same_multiset_same_classes(s1: Seq<char>, s2: Seq<char>)
    requires
        s1.to_multiset() == s2.to_multiset(),
    ensures
        spec_has_upper(s1) ==> spec_has_upper(s2),
        spec_has_lower(s1) ==> spec_has_lower(s2),
        spec_has_digit(s1) ==> spec_has_digit(s2),
        spec_has_symbol(s1) ==> spec_has_symbol(s2),
        (forall|t: int| 0 <= t < s1.len() ==> is_pool_char(#[trigger] s1[t])) ==> (forall|t: int|
            0 <= t < s2.len() ==> is_pool_char(#[trigger] s2[t])),
{
    broadcast use vstd::seq_lib::group_to_multiset_ensures;

    if spec_has_upper(s1) {
        let i = choose|i: int| 0 <= i < s1.len() && is_upper_char(s1[i]);
        assert(s1.contains(s1[i]));
        assert(s1.to_multiset().count(s1[i]) > 0);
        assert(s2.to_multiset().count(s1[i]) > 0);
        assert(s2.contains(s1[i]));
        let j = choose|j: int| 0 <= j < s2.len() && s2[j] == s1[i];
        assert(is_upper_char(s2[j]));
    }
    if spec_has_lower(s1) {
        let i = choose|i: int| 0 <= i < s1.len() && is_lower_char(s1[i]);
        assert(s1.contains(s1[i]));
        assert(s1.to_multiset().count(s1[i]) > 0);
        assert(s2.to_multiset().count(s1[i]) > 0);
        assert(s2.contains(s1[i]));
        let j = choose|j: int| 0 <= j < s2.len() && s2[j] == s1[i];
        assert(is_lower_char(s2[j]));
    }
    if spec_has_digit(s1) {
        let i = choose|i: int| 0 <= i < s1.len() && is_digit_char(s1[i]);
        assert(s1.contains(s1[i]));
        assert(s1.to_multiset().count(s1[i]) > 0);
        assert(s2.to_multiset().count(s1[i]) > 0);
        assert(s2.contains(s1[i]));
        let j = choose|j: int| 0 <= j < s2.len() && s2[j] == s1[i];
        assert(is_digit_char(s2[j]));
    }
    if spec_has_symbol(s1) {
        let i = choose|i: int| 0 <= i < s1.len() && is_symbol_char(s1[i]);
        assert(s1.contains(s1[i]));
        assert(s1.to_multiset().count(s1[i]) > 0);
        assert(s2.to_multiset().count(s1[i]) > 0);
        assert(s2.contains(s1[i]));
        let j = choose|j: int| 0 <= j < s2.len() && s2[j] == s1[i];
        assert(is_symbol_char(s2[j]));
    }
    if forall|t: int| 0 <= t < s1.len() ==> is_pool_char(#[trigger] s1[t]) {
        assert forall|t: int| 0 <= t < s2.len() implies is_pool_char(#[trigger] s2[t]) by {
            assert(s2.contains(s2[t]));
            assert(s2.to_multiset().count(s2[t]) > 0);
            assert(s1.to_multiset().count(s2[t]) > 0);
            assert(s1.contains(s2[t]));
            let j = choose|j: int| 0 <= j < s1.len() && s1[j] == s2[t];
            assert(is_pool_char(s1[j]));
        }
    }
}

/// Generates a random password of exactly `length` characters. One
/// character is drawn from each of the four pools — lowercase, uppercase,
/// digit, symbol — so the four class criteria hold whatever the remaining
/// `length - 4` draws from the pool union yield; a final unbiased shuffle
/// hides which positions carried the guaranteed draws. Lengths below 4
/// are rejected with `InvalidLength`; nothing else fails.
pub fn generate_password(length: usize) -> (r: Result<String, PasswordError>)
    ensures
        r is Err <==> length < GENERATED_MIN,
        length < GENERATED_MIN ==> r == Err::<String, PasswordError>(PasswordError::InvalidLength),
        r matches Ok(p) ==> {
            &&& p@.len() == length
            &&& spec_has_upper(p@)
            &&& spec_has_lower(p@)
            &&& spec_has_digit(p@)
            &&& spec_has_symbol(p@)
            &&& forall|t: int| 0 <= t < p@.len() ==> is_pool_char(#[trigger] p@[t])
            &&& spec_score(p@) == if length >= MIN_LENGTH {
                5int
            } else {
                4int
            }
        },
{
    if length < GENERATED_MIN {
        return Err(PasswordError::InvalidLength);
    }
    let mut chars: Vec<char> = Vec::new();
    chars.push(lower_char(random_index(26)));
    chars.push(upper_char(random_index(26)));
    chars.push(digit_char(random_index(10)));
    chars.push(symbol_char(random_index(14)));
    let mut k: usize = 4;
    while k < length
        invariant
            4 <= k <= length,
            chars@.len() == k,
            is_lower_char(chars@[0]),
            is_upper_char(chars@[1]),
            is_digit_char(chars@[2]),
            in_symbol_pool(chars@[3]),
            forall|t: int| 0 <= t < chars@.len() ==> is_pool_char(#[trigger] chars@[t]),
        decreases length - k,
    {
        chars.push(random_pool_char());
        k += 1;
    }
    proof {
        assert(spec_has_lower(chars@)) by {
            assert(is_lower_char(chars@[0]));
        }
        assert(spec_has_upper(chars@)) by {
            assert(is_upper_char(chars@[1]));
        }
        assert(spec_has_digit(chars@)) by {
            assert(is_digit_char(chars@[2]));
        }
        assert(spec_has_symbol(chars@)) by {
            lemma_symbol_pool_sound(chars@[3]);
            assert(is_symbol_char(chars@[3]));
        }
    }
    let ghost built = chars@;
    shuffle_chars(&mut chars);
    proof {
        lemma_same_multiset_same_classes(built, chars@);
    }
    let n = chars.len();
    let mut out = String::new();
    let mut idx: usize = 0;
    while idx < n
        invariant
            idx <= n,
            n == chars@.len(),
            out@ == chars@.subrange(0, idx as int),
        decreases n - idx,
    {
        let c = chars[idx];
        push_char(&mut out, c);
        idx += 1;
        proof {
            assert(chars@.subrange(0, idx as int) =~= chars@.subrange(0, idx - 1).push(
                chars@[idx - 1],
            ));
        }
    }
    proof {
        assert(out@ =~= chars@);
    }
    Ok(out)
}

} // verus!
