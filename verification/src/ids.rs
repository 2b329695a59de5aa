//! Parsing of the `{id}` path parameter: surrounding whitespace is trimmed,
//! one optional leading `+` is allowed, and the rest must be decimal digits
//! whose value fits in a `u32`. Anything else is a client error, never a
//! crash.
use vstd::prelude::*;

use crate::digits::{
    all_digits,
    char_to_digit,
    dec_rep,
    digits_val,
    is_digit,
    lemma_dec_rep_val,
    lemma_digits_val_prefix,
};
use crate::model::ApiError;
use crate::text::{is_space, trim, trim_end_spec, trim_spec, trim_start_spec};

verus! {

/// The digit part of a raw id: the input with surrounding whitespace and one
/// optional leading `+` removed.
pub open spec fn id_digits(raw: Seq<char>) -> Seq<char> {
    let t = trim_spec(raw);
    if t.len() > 0 && t[0] == '+' {
        t.drop_first()
    } else {
        t
    }
}

/// Whether a raw id parses: its digit part is non-empty, all digits, and its
/// value fits in a `u32`.
pub open spec fn id_is_valid(raw: Seq<char>) -> bool {
    let d = id_digits(raw);
    d.len() > 0 && all_digits(d) && digits_val(d) <= u32::MAX
}

/// The number a valid raw id denotes.
pub open spec fn id_value(raw: Seq<char>) -> nat {
    digits_val(id_digits(raw))
}

/// Round trip with the decimal renderer: the canonical decimal text of any
/// number in range is a valid id and parses back to that number.
pub proof fn lemma_dec_rep_is_valid_id(n: nat)
    requires
        n <= u32::MAX,
    ensures
        id_is_valid(dec_rep(n)),
        id_value(dec_rep(n)) == n,
{
    lemma_dec_rep_val(n);
    let s = dec_rep(n);
    assert(is_digit(s[0]));
    assert(!is_space(s[0]) && s[0] != '+');
    assert(is_digit(s.last()));
    assert(!is_space(s.last()));
    assert(trim_start_spec(s) == s);
    assert(trim_end_spec(s) == s);
    assert(trim_spec(s) == s);
    assert(id_digits(s) == s);
}

/// Parse the `{id}` path parameter. Exactly the well-formed inputs succeed;
/// every other input is reported as a parse error.
pub fn parse_user_id(raw: &str) -> (r: Result<u32, ApiError>)
    ensures
        id_is_valid(raw@) ==> r == Ok::<u32, ApiError>(id_value(raw@) as u32),
        !id_is_valid(raw@) ==> r == Err::<u32, ApiError>(ApiError::ParseError),
{
    let t = trim(raw);
    let n = t.unicode_len();
    let mut start: usize = 0;
    if n > 0 && t.get_char(0) == '+' {
        start = 1;
    }
    proof {
        assert(id_digits(raw@) =~= t@.subrange(start as int, n as int));
    }
    if start >= n {
        return Err(ApiError::ParseError);
    }
    let ghost d = id_digits(raw@);
    let mut acc: u64 = 0;
    let mut j: usize = start;
    while j < n
        invariant
            start <= j <= n,
            n == t@.len(),
            t@ == trim_spec(raw@),
            d == id_digits(raw@),
            d == t@.subrange(start as int, n as int),
            acc <= u32::MAX,
            all_digits(t@.subrange(start as int, j as int)),
            acc == digits_val(t@.subrange(start as int, j as int)),
        decreases n - j,
    {
        let c = t.get_char(j);
        let dv = match char_to_digit(c) {
            Some(v) => v,
            None => {
                proof {
                    assert(!is_digit(d[j - start]));
                }
                return Err(ApiError::ParseError);
            },
        };
        proof {
            assert(t@.subrange(start as int, j + 1).drop_last() =~= t@.subrange(
                start as int,
                j as int,
            ));
            assert(t@.subrange(start as int, j + 1).last() == t@[j as int]);
        }
        acc = acc * 10 + dv;
        if acc > u32::MAX as u64 {
            proof {
                assert(d.subrange(0, j + 1 - start) =~= t@.subrange(start as int, j + 1));
                lemma_digits_val_prefix(d, j + 1 - start);
            }
            return Err(ApiError::ParseError);
        }
        j = j + 1;
    }
    proof {
        assert(t@.subrange(start as int, n as int) =~= d);
    }
    Ok(acc as u32)
}

} // verus!
