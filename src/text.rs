use vstd::prelude::*;
use vstd::string::StringExecFns;

verus! {

/// What `str::to_lowercase` returns for the given characters.
pub uninterp spec fn lower_of(s: Seq<char>) -> Seq<char>;

/// Whether `needle` occurs as a contiguous run of characters in `hay`.
pub open spec fn has_infix(hay: Seq<char>, needle: Seq<char>) -> bool {
    exists|i: int| 0 <= i <= hay.len() - needle.len() && #[trigger] hay.subrange(i, i + needle.len()) == needle
}

/// Relies on `str::to_lowercase`: the result depends on the characters alone.
#[verifier::external_body]
fn lowercase(s: &str) -> (r: String)
    ensures
        r@ == lower_of(s@),
{
    s.to_lowercase()
}

/// Relies on `str::contains` with a `&str` pattern: true iff `needle` is a substring of `hay`.
#[verifier::external_body]
fn contains_text(hay: &str, needle: &str) -> (r: bool)
    ensures
        r == has_infix(hay@, needle@),
{
    hay.contains(needle)
}

/// The fixed block list of phrases found in credential, MFA and CAPTCHA prompts,
/// matched against already lower-cased text. The last phrase is the Spanish `código`,
/// written with its accented `ó` (`\u{f3}`).
pub open spec fn is_blocked_phrase(t: Seq<char>) -> bool {
    ||| has_infix(t, "password"@)
    ||| has_infix(t, "contrase"@)
    ||| has_infix(t, "otp"@)
    ||| has_infix(t, "2fa"@)
    ||| has_infix(t, "mfa"@)
    ||| has_infix(t, "captcha"@)
    ||| has_infix(t, "verification code"@)
    ||| has_infix(t, "c\u{f3}digo"@)
}

/// Whether already lower-cased text holds one of the blocked phrases.
pub fn reject_lowered_text(t: &str) -> (r: bool)
    ensures
        r == is_blocked_phrase(t@),
{
    contains_text(t, "password") || contains_text(t, "contrase") || contains_text(t, "otp")
        || contains_text(t, "2fa") || contains_text(t, "mfa") || contains_text(t, "captcha")
        || contains_text(t, "verification code") || contains_text(t, "c\u{f3}digo")
}

/// Content guard: true when the text, compared case-insensitively, holds a phrase of
/// the block list. A best-effort heuristic, not a guarantee.
pub fn reject_sensitive_text(text: &str) -> (r: bool)
    ensures
        r == is_blocked_phrase(lower_of(text@)),
{
    let t = lowercase(text);
    reject_lowered_text(t.as_str())
}

/// ASCII lower-casing of one character; other characters are unchanged.
pub open spec fn ascii_lower(c: char) -> char {
    if 'A' <= c && c <= 'Z' {
        ((c as u8) + 32) as char
    } else {
        c
    }
}

/// Whether a confirmation value reads `yes`, ignoring ASCII case.
pub open spec fn is_yes(v: Seq<char>) -> bool {
    v.len() == 3 && ascii_lower(v[0]) == 'y' && ascii_lower(v[1]) == 'e' && ascii_lower(v[2]) == 's'
}

fn ascii_lower_char(c: char) -> (r: char)
    ensures
        r == ascii_lower(c),
{
    if 'A' <= c && c <= 'Z' {
        ((c as u8) + 32) as char
    } else {
        c
    }
}

/// Whether a confirmation signal is present and reads `yes` in any ASCII case.
pub fn is_confirmed(signal: Option<&str>) -> (r: bool)
    ensures
        r == (signal is Some && is_yes(signal->0@)),
{
    match signal {
        None => false,
        Some(v) => {
            if v.unicode_len() != 3 {
                false
            } else {
                ascii_lower_char(v.get_char(0)) == 'y' && ascii_lower_char(v.get_char(1)) == 'e'
                    && ascii_lower_char(v.get_char(2)) == 's'
            }
        }
    }
}

/// Whether two strings hold the same characters.
pub fn same_text(a: &str, b: &str) -> (r: bool)
    ensures
        r == (a@ == b@),
{
    let a_owned = a.to_owned();
    let b_owned = b.to_owned();
    a_owned == b_owned
}

/// The decimal digit character for `d < 10`.
pub open spec fn digit_char(d: nat) -> char {
    ((d + 48) as u8) as char
}

/// The decimal representation of `n`, without leading zeros.
pub open spec fn decimal(n: nat) -> Seq<char>
    decreases n,
{
    if n < 10 {
        seq![digit_char(n)]
    } else {
        decimal(n / 10).push(digit_char(n % 10))
    }
}

/// The arm token made from a clock reading: `t` followed by its decimal digits.
pub open spec fn token_text(nanos: nat) -> Seq<char> {
    seq!['t'] + decimal(nanos)
}

/// The one-character string of the decimal digit `d`.
fn digit_str(d: u64) -> (r: &'static str)
    requires
        d < 10,
    ensures
        r@ == seq![digit_char(d as nat)],
{
    proof {
        reveal_strlit("0");
        reveal_strlit("1");
        reveal_strlit("2");
        reveal_strlit("3");
        reveal_strlit("4");
        reveal_strlit("5");
        reveal_strlit("6");
        reveal_strlit("7");
        reveal_strlit("8");
        reveal_strlit("9");
    }
    if d == 0 {
        "0"
    } else if d == 1 {
        "1"
    } else if d == 2 {
        "2"
    } else if d == 3 {
        "3"
    } else if d == 4 {
        "4"
    } else if d == 5 {
        "5"
    } else if d == 6 {
        "6"
    } else if d == 7 {
        "7"
    } else if d == 8 {
        "8"
    } else {
        "9"
    }
}

/// The decimal representation of `n`, without leading zeros.
pub fn decimal_string(n: u64) -> (r: String)
    ensures
        r@ == decimal(n as nat),
    decreases n,
{
    if n < 10 {
        String::from_str(digit_str(n))
    } else {
        let mut s = decimal_string(n / 10);
        s.append(digit_str(n % 10));
        s
    }
}

/// The arm token made from a clock reading: `t` followed by its decimal digits.
/// The token is a session nonce drawn from a clock reading, not a cryptographic secret:
/// production use calls for a cryptographically random generator.
pub fn gen_token(nanos: u64) -> (r: String)
    ensures
        r@ == token_text(nanos as nat),
{
    proof {
        reveal_strlit("t");
    }
    let mut t = String::from_str("t");
    let digits = decimal_string(nanos);
    t.append(digits.as_str());
    t
}

/// The last character of a decimal representation is the last digit.
proof fn lemma_decimal_last(n: nat)
    ensures
        decimal(n).len() > 0,
        decimal(n).last() == digit_char(n % 10),
    decreases n,
{
    if n >= 10 {
        lemma_decimal_last(n / 10);
    }
}

/// Readings that end in different decimal digits give different tokens.
pub proof fn lemma_token_text_differs(a: nat, b: nat)
    requires
        a % 10 != b % 10,
    ensures
        token_text(a) != token_text(b),
{
    lemma_decimal_last(a);
    lemma_decimal_last(b);
    assert(token_text(a).last() == decimal(a).last());
    assert(token_text(b).last() == decimal(b).last());
    assert(digit_char(a % 10) != digit_char(b % 10));
}

} // verus!
