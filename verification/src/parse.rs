//! Pair parsing: split a string at the first occurrence of a separator
//! character and parse both halves independently.

use vstd::prelude::*;

verus! {

/// Holds when `sep` occurs somewhere in `s`.
pub open spec fn sep_present(s: Seq<char>, sep: char) -> bool {
    exists|i: int| 0 <= i < s.len() && s[i] == sep
}

/// Holds when `i` is the index of the first occurrence of `sep` in `s`.
pub open spec fn is_first_sep(s: Seq<char>, sep: char, i: int) -> bool {
    &&& 0 <= i < s.len()
    &&& s[i] == sep
    &&& forall|j: int| 0 <= j < i ==> s[j] != sep
}

/// Index of the first occurrence of `separator` in `input`, if any.
fn find_separator(input: &str, separator: char) -> (r: Option<usize>)
    ensures
        (match r {
            Some(i) => is_first_sep(input@, separator, i as int),
            None => !sep_present(input@, separator),
        }),
{
    let len = input.unicode_len();
    let mut i: usize = 0;
    while i < len
        invariant
            len == input@.len(),
            i <= len,
            forall|j: int| 0 <= j < i ==> input@[j] != separator,
        decreases len - i,
    {
        if input.get_char(i) == separator {
            return Some(i);
        }
        i = i + 1;
    }
    None
}

/// Splits `input` at the first occurrence of `separator`: everything before
/// it on the left, everything after it (further separators included) on the
/// right. Fails exactly when the separator does not occur.
pub fn split_pair<'a>(input: &'a str, separator: char) -> (r: Option<(&'a str, &'a str)>)
    ensures
        (match r {
            None => !sep_present(input@, separator),
            Some((left, right)) => exists|i: int|
                {
                    &&& is_first_sep(input@, separator, i)
                    &&& left@ == input@.subrange(0, i)
                    &&& right@ == input@.subrange(i + 1, input@.len() as int)
                },
        }),
{
    match find_separator(input, separator) {
        None => None,
        Some(index) => {
            let len = input.unicode_len();
            let left = input.substring_char(0, index);
            let right = input.substring_char(index + 1, len);
            Some((left, right))
        },
    }
}

/// Pairs up two independently parsed halves: a pair exactly when both halves
/// parsed, failure as soon as either one did not.
pub fn combine_parsed<T>(left: Option<T>, right: Option<T>) -> (r: Option<(T, T)>)
    ensures
        (match (left, right) {
            (Some(a), Some(b)) => r == Some((a, b)),
            _ => r is None,
        }),
{
    match (left, right) {
        (Some(a), Some(b)) => Some((a, b)),
        _ => None,
    }
}

/// Relies on `core::str::FromStr::from_str`: parses `s` under `T`'s standard
/// parse rule, `None` on any malformed input. Nothing further is assumed of
/// which strings a caller-chosen `T` accepts.
#[verifier::external_body]
fn parse_value<T: core::str::FromStr>(s: &str) -> (r: Option<T>) {
    T::from_str(s).ok()
}

/// Splits `input` at the first occurrence of `separator` and parses the two
/// halves under `T`'s standard parse rule. Without the separator the result
/// is `None`; with it, the result is the pair exactly when both halves parse,
/// and `None` as soon as either half is rejected.
pub fn parse_pair<T: core::str::FromStr>(input: &str, separator: char) -> (r: Option<(T, T)>)
    ensures
        !sep_present(input@, separator) ==> r is None,
{
    match split_pair(input, separator) {
        None => None,
        Some((left, right)) => combine_parsed(parse_value(left), parse_value(right)),
    }
}

} // verus!
