//! Lexical dispatch predicates and literal parsing.
//!
//! The grammar is context-sensitive on identifier casing: a name beginning
//! with an uppercase letter is a type name, one beginning with a lowercase
//! letter is a value name, and several otherwise identical productions are
//! told apart by this alone (struct literal vs. block, module path vs.
//! bare type, method vs. free function).  Identifiers follow the lexer's
//! grammar `[A-Za-z_][A-Za-z0-9_]*`, so the predicates are stated over
//! that alphabet.

use vstd::prelude::*;

verus! {

/// An ASCII uppercase letter.
pub open spec fn is_upper_char(c: char) -> bool {
    'A' <= c && c <= 'Z'
}

/// An ASCII lowercase letter.
pub open spec fn is_lower_char(c: char) -> bool {
    'a' <= c && c <= 'z'
}

/// A decimal digit.
pub open spec fn is_digit_char(c: char) -> bool {
    '0' <= c && c <= '9'
}

/// A character allowed after the first in an identifier.
pub open spec fn is_word_char(c: char) -> bool {
    is_upper_char(c) || is_lower_char(c) || is_digit_char(c) || c == '_'
}

/// The type-casing rule: the first character is an uppercase letter and
/// every other character is alphanumeric or an underscore.
pub open spec fn is_type_chars(s: Seq<char>) -> bool {
    &&& s.len() > 0
    &&& is_upper_char(s[0])
    &&& forall|i: int| 1 <= i < s.len() ==> is_word_char(#[trigger] s[i])
}

/// The value-casing rule: the first character is a lowercase letter and
/// every other character is alphanumeric or an underscore.
pub open spec fn is_value_chars(s: Seq<char>) -> bool {
    &&& s.len() > 0
    &&& is_lower_char(s[0])
    &&& forall|i: int| 1 <= i < s.len() ==> is_word_char(#[trigger] s[i])
}

/// Does the name satisfy the type-casing rule?  This predicate drives the
/// grammar dispatch at every call site that must tell a type name from a
/// value name.
pub fn is_type(name: &str) -> (r: bool)
    ensures
        r == is_type_chars(name@),
{
    let n: usize = name.unicode_len();
    if n == 0 {
        return false;
    }
    let first = name.get_char(0);
    let fc = first as u32;
    if !(65 <= fc && fc <= 90) {
        assert(!is_upper_char(name@[0]));
        return false;
    }
    let mut i: usize = 1;
    while i < n
        invariant
            1 <= i <= n,
            n == name@.len(),
            is_upper_char(name@[0]),
            forall|j: int| 1 <= j < i ==> is_word_char(#[trigger] name@[j]),
        decreases n - i,
    {
        let c = name.get_char(i);
        if !word_char(c) {
            assert(!is_word_char(name@[i as int]));
            return false;
        }
        i = i + 1;
    }
    true
}

/// Is this a well-formed function (value) name: lowercase first letter,
/// alphanumeric or underscore afterwards?
pub fn is_valid_fn_name(name: &str) -> (r: bool)
    ensures
        r == is_value_chars(name@),
{
    let n: usize = name.unicode_len();
    if n == 0 {
        return false;
    }
    let first = name.get_char(0);
    let fc = first as u32;
    if !(97 <= fc && fc <= 122) {
        assert(!is_lower_char(name@[0]));
        return false;
    }
    let mut i: usize = 1;
    while i < n
        invariant
            1 <= i <= n,
            n == name@.len(),
            is_lower_char(name@[0]),
            forall|j: int| 1 <= j < i ==> is_word_char(#[trigger] name@[j]),
        decreases n - i,
    {
        let c = name.get_char(i);
        if !word_char(c) {
            assert(!is_word_char(name@[i as int]));
            return false;
        }
        i = i + 1;
    }
    true
}

/// Is this a well-formed type name?  Same rule as the type-casing
/// dispatch predicate, offered under the name callers of the function
/// grammar use.
pub fn is_valid_fn_type(name: &str) -> (r: bool)
    ensures
        r == is_type_chars(name@),
{
    is_type(name)
}

/// Decide `is_word_char` on one character.
fn word_char(c: char) -> (r: bool)
    ensures
        r == is_word_char(c),
{
    let u = c as u32;
    (65 <= u && u <= 90) || (97 <= u && u <= 122) || (48 <= u && u <= 57) || u == 95
}

/// The numeric value of a sequence of decimal digits, most significant
/// first.
pub open spec fn decimal_value(s: Seq<char>) -> int
    decreases s.len(),
{
    if s.len() == 0 {
        0
    } else {
        decimal_value(s.drop_last()) * 10 + (s.last() as int - '0' as int)
    }
}

/// Every character is a decimal digit.
pub open spec fn all_digits(s: Seq<char>) -> bool {
    forall|i: int| 0 <= i < s.len() ==> is_digit_char(#[trigger] s[i])
}

/// What parsing a decimal literal into an unsigned value bounded by
/// `bound` yields: the digits' value when the text is one or more digits
/// and the value fits, nothing otherwise.
pub open spec fn spec_parse_decimal(s: Seq<char>, bound: int) -> Option<int> {
    if s.len() > 0 && all_digits(s) && decimal_value(s) <= bound {
        Some(decimal_value(s))
    } else {
        None
    }
}

/// Appending digits never decreases the value of a digit string.
proof fn lemma_decimal_value_prefix_le(s: Seq<char>, i: int)
    requires
        0 <= i <= s.len(),
        all_digits(s),
    ensures
        decimal_value(s.take(i)) <= decimal_value(s),
        0 <= decimal_value(s),
    decreases s.len() - i,
{
    if i == s.len() {
        assert(s.take(i) =~= s);
        lemma_decimal_value_nonneg(s);
    } else {
        lemma_decimal_value_prefix_le(s, i + 1);
        lemma_decimal_value_nonneg(s.take(i));
        assert(s.take(i + 1).drop_last() =~= s.take(i));
        assert(decimal_value(s.take(i + 1)) == decimal_value(s.take(i)) * 10 + (s[i] as int
            - '0' as int));
    }
}

/// The value of a digit string is never negative.
proof fn lemma_decimal_value_nonneg(s: Seq<char>)
    requires
        all_digits(s),
    ensures
        0 <= decimal_value(s),
    decreases s.len(),
{
    if s.len() > 0 {
        assert(all_digits(s.drop_last())) by {
            assert(forall|i: int| 0 <= i < s.len() - 1 ==> is_digit_char(#[trigger] s[i]));
        }
        lemma_decimal_value_nonneg(s.drop_last());
    }
}

/// Parse a decimal literal as an unsigned 128-bit value.
pub fn parse_decimal_u128(s: &str) -> (r: Option<u128>)
    ensures
        match r {
            Some(v) => spec_parse_decimal(s@, u128::MAX as int) == Some(v as int),
            None => spec_parse_decimal(s@, u128::MAX as int) is None,
        },
{
    let n: usize = s.unicode_len();
    if n == 0 {
        return None;
    }
    let mut acc: u128 = 0;
    let mut i: usize = 0;
    while i < n
        invariant
            0 <= i <= n,
            n == s@.len(),
            forall|j: int| 0 <= j < i ==> is_digit_char(#[trigger] s@[j]),
            acc == decimal_value(s@.take(i as int)),
        decreases n - i,
    {
        let c = s.get_char(i);
        let u = c as u32;
        if !(48 <= u && u <= 57) {
            assert(!is_digit_char(s@[i as int]));
            return None;
        }
        let d: u128 = (u - 48) as u128;
        assert(d == s@[i as int] as int - '0' as int);
        let shifted = match acc.checked_mul(10) {
            Some(x) => x,
            None => {
                proof {
                    lemma_value_grows_past(s@, i as int, d as int);
                }
                return None;
            },
        };
        let next = match shifted.checked_add(d) {
            Some(x) => x,
            None => {
                proof {
                    lemma_value_grows_past(s@, i as int, d as int);
                }
                return None;
            },
        };
        assert(s@.take(i + 1).drop_last() =~= s@.take(i as int));
        acc = next;
        i = i + 1;
    }
    assert(s@.take(n as int) =~= s@);
    Some(acc)
}

/// If the running value overflows at position `i`, the whole literal's
/// value exceeds the 128-bit bound (when all its characters are digits).
proof fn lemma_value_grows_past(s: Seq<char>, i: int, d: int)
    requires
        0 <= i < s.len(),
        d == s[i] as int - '0' as int,
        forall|j: int| 0 <= j < i ==> is_digit_char(#[trigger] s[j]),
        decimal_value(s.take(i)) * 10 + d > u128::MAX,
    ensures
        all_digits(s) ==> decimal_value(s) > u128::MAX,
{
    if all_digits(s) {
        assert(s.take(i + 1).drop_last() =~= s.take(i));
        assert(decimal_value(s.take(i + 1)) == decimal_value(s.take(i)) * 10 + d);
        lemma_decimal_value_prefix_le(s, i + 1);
    }
}

/// Parse a decimal literal as an unsigned 32-bit value: array sizes and
/// loop bounds must fit this type.
pub fn parse_decimal_u32(s: &str) -> (r: Option<u32>)
    ensures
        match r {
            Some(v) => spec_parse_decimal(s@, u32::MAX as int) == Some(v as int),
            None => spec_parse_decimal(s@, u32::MAX as int) is None,
        },
{
    match parse_decimal_u128(s) {
        Some(v) => {
            if v <= 0xffff_ffff {
                Some(v as u32)
            } else {
                None
            }
        },
        None => {
            proof {
                if s@.len() > 0 && all_digits(s@) {
                    lemma_decimal_value_nonneg(s@);
                }
            }
            None
        },
    }
}

/// Compare a string with a literal.
pub fn str_eq_string(s: &String, lit: &str) -> (r: bool)
    ensures
        r == (s@ == lit@),
{
    let owned: String = lit.to_owned();
    *s == owned
}

} // verus!
