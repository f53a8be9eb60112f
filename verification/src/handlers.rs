//! Request-level helpers shared by the route handlers: base 36 identifier
//! parsing and the request body shapes for uploads.

use vstd::prelude::*;

verus! {

/// The value of one base 36 digit; letters of either case count.
pub open spec fn b36_digit(c: char) -> Option<int> {
    let u = c as u32;
    if 48 <= u && u <= 57 {
        Some((u - 48) as int)
    } else if 97 <= u && u <= 122 {
        Some((u - 97 + 10) as int)
    } else if 65 <= u && u <= 90 {
        Some((u - 65 + 10) as int)
    } else {
        None
    }
}

/// The numeric value of a run of base 36 digits, or `None` as soon as one
/// character is no digit.
pub open spec fn b36_digits_value(s: Seq<char>) -> Option<int>
    decreases s.len(),
{
    if s.len() == 0 {
        Some(0)
    } else {
        match b36_digits_value(s.drop_last()) {
            Some(v) => match b36_digit(s.last()) {
                Some(d) => Some(v * 36 + d),
                None => None,
            },
            None => None,
        }
    }
}

/// What parsing `s` as a base 36 `i32` accepts and returns: an optional
/// sign, then at least one digit, with a value inside the `i32` range.
pub open spec fn spec_id_from_b36(s: Seq<char>) -> Option<i32> {
    let negative = s.len() > 0 && s[0] == '-';
    let signed = s.len() > 0 && (s[0] == '+' || s[0] == '-');
    let digits = if signed {
        s.skip(1)
    } else {
        s
    };
    if digits.len() == 0 {
        None
    } else {
        match b36_digits_value(digits) {
            Some(v) => {
                let sv = if negative {
                    -v
                } else {
                    v
                };
                if i32::MIN <= sv <= i32::MAX {
                    Some(sv as i32)
                } else {
                    None
                }
            }
            None => None,
        }
    }
}

/// A digit run's value is defined and non-negative together with every
/// prefix's, and no prefix exceeds the whole.
proof fn lemma_b36_prefix(s: Seq<char>, i: int)
    requires
        0 <= i <= s.len(),
        b36_digits_value(s) is Some,
    ensures
        b36_digits_value(s.take(i)) is Some,
        0 <= b36_digits_value(s.take(i)).unwrap() <= b36_digits_value(s).unwrap(),
    decreases s.len(),
{
    if s.len() == 0 {
        assert(s.take(i) =~= s);
    } else {
        let dl = s.drop_last();
        lemma_b36_prefix(dl, dl.len() as int);
        assert(dl.take(dl.len() as int) =~= dl);
        if i == s.len() {
            assert(s.take(i) =~= s);
        } else {
            assert(s.take(i) =~= dl.take(i));
            lemma_b36_prefix(dl, i);
        }
    }
}

/// One non-digit anywhere leaves the whole run without a value.
proof fn lemma_b36_invalid_digit(s: Seq<char>, i: int)
    requires
        0 <= i < s.len(),
        b36_digit(s[i]) is None,
    ensures
        b36_digits_value(s) is None,
    decreases s.len(),
{
    if i < s.len() - 1 {
        let dl = s.drop_last();
        assert(dl[i] == s[i]);
        lemma_b36_invalid_digit(dl, i);
    }
}

/// Parses a base 36 ID, letters of either case and an optional sign
/// accepted, rejecting anything else and any value outside the `i32`
/// range.
pub fn id_from_b36(s: &str) -> (r: Option<i32>)
    ensures
        r == spec_id_from_b36(s@),
{
    let n = s.unicode_len();
    if n == 0 {
        return None;
    }
    let first = s.get_char(0);
    let negative = first == '-';
    let signed = first == '+' || first == '-';
    let start: usize = if signed {
        1
    } else {
        0
    };
    let ghost digits = if signed {
        s@.skip(1)
    } else {
        s@
    };
    if n == start {
        return None;
    }
    let mut acc: u64 = 0;
    let mut over = false;
    let mut i: usize = start;
    while i < n
        invariant
            n == s@.len(),
            n > start,
            start <= i <= n,
            start <= 1,
            start == 1 <==> signed,
            signed == (s@[0] == '+' || s@[0] == '-'),
            negative == (s@[0] == '-'),
            digits == (if signed {
                s@.skip(1)
            } else {
                s@
            }),
            digits.len() == n - start,
            !over ==> b36_digits_value(digits.take(i - start)) == Some(acc as int),
            !over ==> acc <= 0x80000000,
            over ==> (b36_digits_value(digits.take(i - start)) matches Some(v) && v
                > 0x80000000),
        decreases n - i,
    {
        let c = s.get_char(i);
        proof {
            assert(digits[i - start] == s@[i as int]);
        }
        let u = c as u32;
        let dv: u64 = if 48 <= u && u <= 57 {
            (u - 48) as u64
        } else if 97 <= u && u <= 122 {
            (u - 87) as u64
        } else if 65 <= u && u <= 90 {
            (u - 55) as u64
        } else {
            proof {
                lemma_b36_invalid_digit(digits, i - start);
            }
            return None;
        };
        proof {
            assert(b36_digit(digits[i - start]) == Some(dv as int));
            assert(digits.take(i - start + 1).drop_last() =~= digits.take(i - start));
            assert(digits.take(i - start + 1).last() == digits[i - start]);
        }
        if !over {
            acc = acc * 36 + dv;
            if acc > 0x80000000 {
                over = true;
            }
        }
        i += 1;
    }
    proof {
        assert(digits.take(n - start) =~= digits);
    }
    if over {
        return None;
    }
    if negative {
        if acc == 0x80000000 {
            Some(i32::MIN)
        } else {
            Some(-(acc as i32))
        }
    } else {
        if acc > 0x7FFFFFFF {
            None
        } else {
            Some(acc as i32)
        }
    }
}

/// Request body when PUTting files.
pub struct PutFile {
    pub base64: String,
    pub filename: String,
}

impl PutFile {
    /// The raw file bytes carried in the body, if its base64 payload is
    /// valid.
    pub fn decode_contents(&self) -> (r: Option<Vec<u8>>)
        ensures
            r is Some <==> crate::auth::b64_decoded(self.base64@) is Some,
            r matches Some(v) ==> crate::auth::b64_decoded(self.base64@) == Some(v@),
    {
        crate::auth::b64_decode(self.base64.as_str())
    }
}

/// Request body when PUTting links.
pub struct PutLink {
    pub forward: String,
}

/// Request body when PUTting texts.
pub struct PutText {
    pub contents: String,
}

} // verus!
