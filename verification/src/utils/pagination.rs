//! Which window of a listing a request asks for.

use crate::errors::Error;
use vstd::prelude::*;
use vstd::string::StringSliceAdditionalSpecFns;
use vstd::utf8::{is_ascii_chars, is_ascii_chars_encode_utf8, is_ascii_chars_nat_bound};

verus! {

/// Where a listing starts when the request does not say.
pub const DEFAULT_OFFSET: u64 = 0;

/// How many entries a page holds when the request does not say.
pub const DEFAULT_LIMIT: u64 = 100;

/// The most entries a single page may hold.
pub const MAX_LIMIT: u64 = 100;

/// The window of a listing: `limit` entries, after skipping `offset`.
#[derive(Debug, Clone, Copy, PartialEq, Eq, Structural)]
pub struct Pagination {
    pub offset: u64,
    pub limit: u64,
}

/// Whether `c` is a decimal digit.
pub open spec fn is_digit(c: char) -> bool {
    48 <= c as nat <= 57
}

/// Whether `s` consists of decimal digits only.
pub open spec fn all_digits(s: Seq<char>) -> bool {
    forall|i: int| 0 <= i < s.len() ==> is_digit(#[trigger] s[i])
}

/// The number that the digits of `s` spell, read in base ten.
pub open spec fn digits_value(s: Seq<char>) -> nat
    decreases s.len(),
{
    if s.len() == 0 {
        0
    } else {
        10 * digits_value(s.drop_last()) + (s.last() as nat - 48) as nat
    }
}

/// The number that `s` names: `s` must be one or more decimal digits, with
/// no sign and no blanks, and name a number that fits in 64 bits.
pub open spec fn number_of(s: Seq<char>) -> Option<u64> {
    if s.len() > 0 && all_digits(s) && digits_value(s) <= u64::MAX {
        Some(digits_value(s) as u64)
    } else {
        None
    }
}

/// A longer run of digits never spells a smaller number than its beginning.
proof fn lemma_digits_value_grows(s: Seq<char>, k: int)
    requires
        0 <= k <= s.len(),
        all_digits(s),
    ensures
        digits_value(s.take(k)) <= digits_value(s),
    decreases s.len() - k,
{
    if k == s.len() {
        assert(s.take(k) =~= s);
    } else {
        lemma_digits_value_grows(s, k + 1);
        assert(s.take(k + 1).drop_last() =~= s.take(k));
        assert(is_digit(s[k]));
    }
}

/// A decimal digit is an ASCII character.
proof fn lemma_digit_is_ascii(c: char)
    requires
        is_digit(c),
    ensures
        '\0' <= c && c <= '\u{7f}',
{
}

/// Decimal digits are ASCII characters.
proof fn lemma_digits_are_ascii(s: Seq<char>)
    requires
        all_digits(s),
    ensures
        is_ascii_chars(s),
{
    assert forall|i: int| 0 <= i < s.len() implies '\0' <= #[trigger] s[i] && s[i] <= '\u{7f}' by {
        assert(is_digit(s[i]));
        lemma_digit_is_ascii(s[i]);
    }
}

/// Reads an unsigned decimal number.
pub fn parse_number(text: &str) -> (n: Option<u64>)
    ensures
        n == number_of(text@),
{
    proof {
        if all_digits(text@) {
            lemma_digits_are_ascii(text@);
        }
    }
    if !text.is_ascii() {
        return None;
    }
    let bytes = text.as_bytes();
    proof {
        is_ascii_chars_encode_utf8(text@);
        is_ascii_chars_nat_bound(text@);
        assert forall|j: int| 0 <= j < text@.len() implies bytes@[j] as nat == (
        #[trigger] text@[j]) as nat by {
            let c = text@[j];
            assert((c as nat) < 128);
            assert(c as u8 == bytes@[j]);
        }
    }
    if bytes.len() == 0 {
        return None;
    }
    let mut value: u64 = 0;
    let mut i: usize = 0;
    assert(text@.take(0) =~= Seq::<char>::empty());
    while i < bytes.len()
        invariant
            i <= bytes@.len(),
            bytes@.len() == text@.len(),
            forall|j: int| 0 <= j < text@.len() ==> bytes@[j] as nat == (#[trigger] text@[j]) as nat,
            all_digits(text@.take(i as int)),
            value == digits_value(text@.take(i as int)),
        decreases bytes@.len() - i,
    {
        let b = bytes[i];
        let ghost c = text@[i as int];
        assert(b as nat == c as nat);
        if b < 48 || b > 57 {
            assert(!is_digit(text@[i as int]));
            return None;
        }
        let digit: u64 = (b - 48) as u64;
        proof {
            assert(text@.take(i + 1).drop_last() =~= text@.take(i as int));
            assert(text@.take(i + 1).last() == c);
            assert(is_digit(c));
            assert(all_digits(text@.take(i + 1))) by {
                assert forall|j: int| 0 <= j < i + 1 implies is_digit(
                    #[trigger] text@.take(i + 1)[j],
                ) by {
                    if j < i {
                        assert(text@.take(i + 1)[j] == text@.take(i as int)[j]);
                    }
                }
            }
            if all_digits(text@) {
                lemma_digits_value_grows(text@, i + 1);
            }
        }
        if value > (u64::MAX - digit) / 10 {
            return None;
        }
        value = value * 10 + digit;
        i += 1;
    }
    assert(text@.take(i as int) =~= text@);
    Some(value)
}

impl Pagination {
    /// The window asked for by the raw `offset` and `limit` of a request, if
    /// they are acceptable: a parameter that is absent takes its default, one
    /// that is present must be a number, and the limit must lie between one
    /// and [`MAX_LIMIT`].
    pub open spec fn requested(offset: Option<Seq<char>>, limit: Option<Seq<char>>) -> Option<
        Pagination,
    > {
        let offset_read = match offset {
            None => Some(DEFAULT_OFFSET),
            Some(text) => number_of(text),
        };
        let limit_read = match limit {
            None => Some(DEFAULT_LIMIT),
            Some(text) => number_of(text),
        };
        if offset_read is Some && limit_read is Some && 1 <= limit_read->0 <= MAX_LIMIT {
            Some(Pagination { offset: offset_read->0, limit: limit_read->0 })
        } else {
            None
        }
    }

    /// Reads the window from the raw query parameters. What is not acceptable
    /// is refused as a bad request, never adjusted.
    pub fn from_query(offset: Option<&str>, limit: Option<&str>) -> (r: Result<Pagination, Error>)
        ensures
            match Pagination::requested(
                match offset {
                    Some(t) => Some(t@),
                    None => None,
                },
                match limit {
                    Some(t) => Some(t@),
                    None => None,
                },
            ) {
                Some(p) => r == Ok::<Pagination, Error>(p),
                None => r matches Err(Error::BadRequest(b)) && b.message@
                    == "Invalid pagination parameters"@,
            },
    {
        let offset_read = match offset {
            None => Some(DEFAULT_OFFSET),
            Some(text) => parse_number(text),
        };
        let limit_read = match limit {
            None => Some(DEFAULT_LIMIT),
            Some(text) => parse_number(text),
        };
        match (offset_read, limit_read) {
            (Some(offset), Some(limit)) => {
                if 1 <= limit && limit <= MAX_LIMIT {
                    Ok(Pagination { offset, limit })
                } else {
                    Err(Error::bad_request_with_message("Invalid pagination parameters".to_owned()))
                }
            },
            _ => Err(Error::bad_request_with_message("Invalid pagination parameters".to_owned())),
        }
    }
}

impl Default for Pagination {
    fn default() -> (p: Self)
        ensures
            p == (Pagination { offset: DEFAULT_OFFSET, limit: DEFAULT_LIMIT }),
    {
        Pagination { offset: DEFAULT_OFFSET, limit: DEFAULT_LIMIT }
    }
}

} // verus!
