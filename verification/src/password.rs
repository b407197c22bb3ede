//! The password rules shown while signing up, mirroring the backend's own
//! validation: 10 to 72 characters, at least one
//! lowercase letter, one uppercase letter, one digit and one special
//! character from a fixed set.

use vstd::prelude::*;
use crate::text::{chars_of, is_ascii_digit};

verus! {

/// Unicode's `Lowercase` property, as std's `char::is_lowercase` reads it.
pub uninterp spec fn unicode_lowercase(c: char) -> bool;

/// Unicode's `Uppercase` property, as std's `char::is_uppercase` reads it.
pub uninterp spec fn unicode_uppercase(c: char) -> bool;

/// std's `char::is_lowercase`: whether `c` has Unicode's `Lowercase`
/// property. The property's table is not restated; the result is named.
#[verifier::external_body]
fn char_is_lowercase(c: char) -> (r: bool)
    ensures
        r == unicode_lowercase(c),
{
    c.is_lowercase()
}

/// std's `char::is_uppercase`: whether `c` has Unicode's `Uppercase`
/// property. The property's table is not restated; the result is named.
#[verifier::external_body]
fn char_is_uppercase(c: char) -> (r: bool)
    ensures
        r == unicode_uppercase(c),
{
    c.is_uppercase()
}

/// The special characters a password may use to meet the special-character
/// rule.
pub open spec fn special_chars() -> Seq<char> {
    seq![
        '!', '@', '#', '$', '%', '^', '&', '*', '(', ')', '_', '+', '-', '=', '[', ']', '{', '}',
        '|', ';', ':', ',', '.', '<', '>', '?', '/', '~', '`', '"', '\'', '\\',
    ]
}

/// Whether `c` is one of the special characters.
pub fn is_special_char(c: char) -> (r: bool)
    ensures
        r == special_chars().contains(c),
{
    let r = c == '!' || c == '@' || c == '#' || c == '$' || c == '%' || c == '^' || c == '&' || c
        == '*' || c == '(' || c == ')' || c == '_' || c == '+' || c == '-' || c == '=' || c == '['
        || c == ']' || c == '{' || c == '}' || c == '|' || c == ';' || c == ':' || c == ','
        || c == '.' || c == '<' || c == '>' || c == '?' || c == '/' || c == '~' || c == '`' || c
        == '"' || c == '\'' || c == '\\';
    proof {
        let s = special_chars();
        if r {
            assert(s.contains(c)) by {
                if c == '!' { assert(s[0] == c); }
                else if c == '@' { assert(s[1] == c); }
                else if c == '#' { assert(s[2] == c); }
                else if c == '$' { assert(s[3] == c); }
                else if c == '%' { assert(s[4] == c); }
                else if c == '^' { assert(s[5] == c); }
                else if c == '&' { assert(s[6] == c); }
                else if c == '*' { assert(s[7] == c); }
                else if c == '(' { assert(s[8] == c); }
                else if c == ')' { assert(s[9] == c); }
                else if c == '_' { assert(s[10] == c); }
                else if c == '+' { assert(s[11] == c); }
                else if c == '-' { assert(s[12] == c); }
                else if c == '=' { assert(s[13] == c); }
                else if c == '[' { assert(s[14] == c); }
                else if c == ']' { assert(s[15] == c); }
                else if c == '{' { assert(s[16] == c); }
                else if c == '}' { assert(s[17] == c); }
                else if c == '|' { assert(s[18] == c); }
                else if c == ';' { assert(s[19] == c); }
                else if c == ':' { assert(s[20] == c); }
                else if c == ',' { assert(s[21] == c); }
                else if c == '.' { assert(s[22] == c); }
                else if c == '<' { assert(s[23] == c); }
                else if c == '>' { assert(s[24] == c); }
                else if c == '?' { assert(s[25] == c); }
                else if c == '/' { assert(s[26] == c); }
                else if c == '~' { assert(s[27] == c); }
                else if c == '`' { assert(s[28] == c); }
                else if c == '"' { assert(s[29] == c); }
                else if c == '\'' { assert(s[30] == c); }
                else { assert(s[31] == c); }
            }
        }
    }
    r
}

/// Which of the password rules a password meets.
#[derive(Clone, Copy, Debug, PartialEq, Eq, Structural)]
pub struct PasswordChecks {
    pub long_enough: bool,
    pub has_lower: bool,
    pub has_upper: bool,
    pub has_digit: bool,
    pub has_special: bool,
}

/// The four kinds of character a password must hold.
pub enum CharKind {
    Lowercase,
    Uppercase,
    Digit,
    Special,
}

pub open spec fn is_kind(kind: CharKind, c: char) -> bool {
    match kind {
        CharKind::Lowercase => unicode_lowercase(c),
        CharKind::Uppercase => unicode_uppercase(c),
        CharKind::Digit => is_ascii_digit(c),
        CharKind::Special => special_chars().contains(c),
    }
}

/// Whether `s` holds a character of the given kind.
pub open spec fn has_char_of_kind(s: Seq<char>, kind: CharKind) -> bool {
    exists|i: int| 0 <= i < s.len() && #[trigger] is_kind(kind, s[i])
}

/// The rules met by the password whose characters are `s`.
pub open spec fn password_checks_spec(s: Seq<char>) -> PasswordChecks {
    PasswordChecks {
        long_enough: 10 <= s.len() <= 72,
        has_lower: has_char_of_kind(s, CharKind::Lowercase),
        has_upper: has_char_of_kind(s, CharKind::Uppercase),
        has_digit: has_char_of_kind(s, CharKind::Digit),
        has_special: has_char_of_kind(s, CharKind::Special),
    }
}

impl PasswordChecks {
    /// Whether every rule is met.
    pub fn all_met(&self) -> (r: bool)
        ensures
            r == (self.long_enough && self.has_lower && self.has_upper && self.has_digit
                && self.has_special),
    {
        self.long_enough && self.has_lower && self.has_upper && self.has_digit && self.has_special
    }
}

/// The password rules that `password` meets.
pub fn password_checks(password: &str) -> (r: PasswordChecks)
    ensures
        r == password_checks_spec(password@),
{
    let chars = chars_of(password);
    let long_enough = chars.len() >= 10 && chars.len() <= 72;
    let mut has_lower = false;
    let mut has_upper = false;
    let mut has_digit = false;
    let mut has_special = false;
    let mut i: usize = 0;
    while i < chars.len()
        invariant
            i <= chars@.len(),
            has_lower == has_char_of_kind(chars@.take(i as int), CharKind::Lowercase),
            has_upper == has_char_of_kind(chars@.take(i as int), CharKind::Uppercase),
            has_digit == has_char_of_kind(chars@.take(i as int), CharKind::Digit),
            has_special == has_char_of_kind(chars@.take(i as int), CharKind::Special),
        decreases chars@.len() - i,
    {
        let c = chars[i];
        let ghost prev = chars@.take(i as int);
        let ghost next = chars@.take(i + 1);
        assert(next =~= prev.push(c));
        if char_is_lowercase(c) {
            has_lower = true;
        }
        if char_is_uppercase(c) {
            has_upper = true;
        }
        if '0' <= c && c <= '9' {
            has_digit = true;
        }
        if is_special_char(c) {
            has_special = true;
        }
        proof {
            assert forall|kind: CharKind| #[trigger] has_char_of_kind(next, kind) == (
            has_char_of_kind(prev, kind) || is_kind(kind, c)) by {
                if has_char_of_kind(next, kind) {
                    let k = choose|k: int| 0 <= k < next.len() && #[trigger] is_kind(kind, next[k]);
                    if k < prev.len() {
                        assert(prev[k] == next[k]);
                    }
                }
                if has_char_of_kind(prev, kind) {
                    let k = choose|k: int| 0 <= k < prev.len() && #[trigger] is_kind(kind, prev[k]);
                    assert(next[k] == prev[k]);
                }
                if is_kind(kind, c) {
                    assert(next[prev.len() as int] == c);
                }
            }
            assert(has_char_of_kind(next, CharKind::Lowercase) == (has_char_of_kind(prev, CharKind::Lowercase) || unicode_lowercase(c)));
            assert(has_char_of_kind(next, CharKind::Uppercase) == (has_char_of_kind(prev, CharKind::Uppercase) || unicode_uppercase(c)));
            assert(has_char_of_kind(next, CharKind::Digit) == (has_char_of_kind(prev, CharKind::Digit) || is_ascii_digit(c)));
            assert(has_char_of_kind(next, CharKind::Special) == (has_char_of_kind(prev, CharKind::Special) || special_chars().contains(c)));
        }
        i = i + 1;
    }
    assert(chars@.take(chars@.len() as int) =~= chars@);
    PasswordChecks { long_enough, has_lower, has_upper, has_digit, has_special }
}

/// What each sign-up rule asks of a password, read character by character:
/// its length is 10 to 72 characters; some character has Unicode's
/// `Lowercase` property; some character has Unicode's `Uppercase` property;
/// some character is an ASCII digit; some character is one of
/// `!@#$%^&*()_+-=[]{}|;:,.<>?/~` followed by a backquote, a double quote, a
/// single quote and a backslash.
pub proof fn lemma_password_rules_meaning(s: Seq<char>)
    ensures
        password_checks_spec(s).long_enough <==> 10 <= s.len() <= 72,
        password_checks_spec(s).has_lower <==> exists|i: int|
            0 <= i < s.len() && unicode_lowercase(#[trigger] s[i]),
        password_checks_spec(s).has_upper <==> exists|i: int|
            0 <= i < s.len() && unicode_uppercase(#[trigger] s[i]),
        password_checks_spec(s).has_digit <==> exists|i: int|
            0 <= i < s.len() && '0' <= #[trigger] s[i] <= '9',
        password_checks_spec(s).has_special <==> exists|i: int|
            0 <= i < s.len() && "!@#$%^&*()_+-=[]{}|;:,.<>?/~`\"'\\"@.contains(#[trigger] s[i]),
{
    reveal_strlit("!@#$%^&*()_+-=[]{}|;:,.<>?/~`\"'\\");
    assert(special_chars() =~= "!@#$%^&*()_+-=[]{}|;:,.<>?/~`\"'\\"@);
    if password_checks_spec(s).has_lower {
        let i = choose|i: int| 0 <= i < s.len() && #[trigger] is_kind(CharKind::Lowercase, s[i]);
        assert(unicode_lowercase(s[i]));
    }
    if exists|i: int| 0 <= i < s.len() && unicode_lowercase(#[trigger] s[i]) {
        let i = choose|i: int| 0 <= i < s.len() && unicode_lowercase(#[trigger] s[i]);
        assert(is_kind(CharKind::Lowercase, s[i]));
    }
    if password_checks_spec(s).has_upper {
        let i = choose|i: int| 0 <= i < s.len() && #[trigger] is_kind(CharKind::Uppercase, s[i]);
        assert(unicode_uppercase(s[i]));
    }
    if exists|i: int| 0 <= i < s.len() && unicode_uppercase(#[trigger] s[i]) {
        let i = choose|i: int| 0 <= i < s.len() && unicode_uppercase(#[trigger] s[i]);
        assert(is_kind(CharKind::Uppercase, s[i]));
    }
    if password_checks_spec(s).has_digit {
        let i = choose|i: int| 0 <= i < s.len() && #[trigger] is_kind(CharKind::Digit, s[i]);
        assert('0' <= s[i] <= '9');
    }
    if exists|i: int| 0 <= i < s.len() && '0' <= #[trigger] s[i] <= '9' {
        let i = choose|i: int| 0 <= i < s.len() && '0' <= #[trigger] s[i] <= '9';
        assert(is_kind(CharKind::Digit, s[i]));
    }
    if password_checks_spec(s).has_special {
        let i = choose|i: int| 0 <= i < s.len() && #[trigger] is_kind(CharKind::Special, s[i]);
        assert(special_chars().contains(s[i]));
    }
    if exists|i: int| 0 <= i < s.len() && "!@#$%^&*()_+-=[]{}|;:,.<>?/~`\"'\\"@.contains(#[trigger] s[i]) {
        let i = choose|i: int| 0 <= i < s.len() && "!@#$%^&*()_+-=[]{}|;:,.<>?/~`\"'\\"@.contains(#[trigger] s[i]);
        assert(is_kind(CharKind::Special, s[i]));
    }
}

} // verus!
