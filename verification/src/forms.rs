//! Checks applied to what the user types into the forms before a request is
//! sent, and small choices the pages make about what they show.

use vstd::prelude::*;
use vstd::string::*;
use vstd::utf8::{encode_utf8, is_char_boundary};
use crate::api::Category;
use crate::text::{chars_of, parse_signed, parse_signed_range, trim, trimmed};

verus! {

/// The text of a required field: its trimmed text, or `None` where the
/// field is blank (empty or only white space).
pub fn required_text(input: &str) -> (r: Option<String>)
    ensures
        match r {
            Some(text) => text@ == trim(input@) && text@.len() > 0,
            None => trim(input@).len() == 0,
        },
{
    let text = trimmed(input);
    if text.as_str().is_empty() {
        None
    } else {
        Some(text)
    }
}

/// The spacing of a review step, in days: the trimmed field read as an
/// `i64`, which must be at least 1; `None` otherwise.
pub fn spacing_days(input: &str) -> (r: Option<i64>)
    ensures
        match r {
            Some(days) => parse_signed(trim(input@), i64::MIN as int, i64::MAX as int) == Some(
                days as int,
            ) && days >= 1,
            None => !(parse_signed(trim(input@), i64::MIN as int, i64::MAX as int) matches Some(
                days,
            ) && days >= 1),
        },
{
    let text = trimmed(input);
    let chars = chars_of(text.as_str());
    assert(chars@.subrange(0, chars@.len() as int) =~= chars@);
    match parse_signed_range(&chars, 0, chars.len(), 0x7fff_ffff_ffff_ffff) {
        Some(v) => {
            if v >= 1 {
                Some(v as i64)
            } else {
                None
            }
        },
        None => None,
    }
}

/// An id picked in a `<select>`: the option's value read as an `i64`.
pub fn chosen_id(value: &str) -> (r: Option<i64>)
    ensures
        match r {
            Some(id) => parse_signed(value@, i64::MIN as int, i64::MAX as int) == Some(id as int),
            None => parse_signed(value@, i64::MIN as int, i64::MAX as int) is None,
        },
{
    let chars = chars_of(value);
    assert(chars@.subrange(0, chars@.len() as int) =~= chars@);
    match parse_signed_range(&chars, 0, chars.len(), 0x7fff_ffff_ffff_ffff) {
        Some(v) => Some(v as i64),
        None => None,
    }
}

/// What the password forms say when the confirmation differs.
pub const PASSWORD_MISMATCH: &'static str = "Passwords do not match.";

/// Whether the new password and its confirmation are the same text.
pub fn passwords_match(password: &String, confirmation: &String) -> (r: bool)
    ensures
        r == (password@ == confirmation@),
{
    password.eq(confirmation)
}

/// The position of the first category with this id, or `None`.
pub fn find_category(categories: &Vec<Category>, id: i64) -> (r: Option<usize>)
    ensures
        match r {
            Some(i) => i < categories@.len() && categories@[i as int].id == id && forall|k: int|
                0 <= k < i ==> #[trigger] categories@[k].id != id,
            None => forall|k: int| 0 <= k < categories@.len() ==> #[trigger] categories@[k].id != id,
        },
{
    let mut i: usize = 0;
    while i < categories.len()
        invariant
            i <= categories@.len(),
            forall|k: int| 0 <= k < i ==> #[trigger] categories@[k].id != id,
        decreases categories@.len() - i,
    {
        if categories[i].id == id {
            return Some(i);
        }
        i = i + 1;
    }
    None
}

/// The category picked in the new-question form: the one already picked,
/// else the first category once categories are loaded.
pub fn category_choice(current: Option<i64>, categories: &Vec<Category>) -> (r: Option<i64>)
    ensures
        current is Some ==> r == current,
        current is None ==> r == if categories@.len() > 0 {
            Some(categories@[0].id)
        } else {
            None
        },
{
    match current {
        Some(id) => Some(id),
        None => {
            if categories.len() > 0 {
                Some(categories[0].id)
            } else {
                None
            }
        },
    }
}

/// The due date shown on a question: the first 10 bytes of its
/// `next_review_date` (the `YYYY-MM-DD` part) where they end on a character
/// boundary, else the whole text, as `get(..10).unwrap_or(..)` does.
pub fn due_date_label(next_review_date: &str) -> (r: String)
    ensures
        if is_char_boundary(next_review_date.spec_bytes(), 10) {
            encode_utf8(r@) == next_review_date.spec_bytes().take(10)
        } else {
            r@ == next_review_date@
        },
{
    if next_review_date.is_char_boundary(10) {
        let (head, _) = next_review_date.split_at(10);
        String::from_str(head)
    } else {
        String::from_str(next_review_date)
    }
}

} // verus!
