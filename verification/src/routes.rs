//! Route-level helpers: identifier parsing and formatting in base 36, HTML
//! escaping for displayed text, and the request body shapes for link and
//! text uploads. The HTTP plumbing around them lives in the program, not
//! here.

use crate::handlers::{b36_digit, b36_digits_value, id_from_b36, spec_id_from_b36};
use crate::reject::FiliteRejection;
use vstd::prelude::*;

verus! {

/// Where the first dot stands in an identifier path segment.
pub open spec fn is_first_dot(s: Seq<char>, i: int) -> bool {
    &&& 0 <= i < s.len()
    &&& s[i] == '.'
    &&& forall|j: int| 0 <= j < i ==> s[j] != '.'
}

/// The identifier with any file extension removed: everything before the
/// first dot.
pub open spec fn spec_id_prefix(s: Seq<char>) -> Seq<char> {
    if exists|i: int| is_first_dot(s, i) {
        s.take(choose|i: int| is_first_dot(s, i))
    } else {
        s
    }
}

/// What parsing a request path segment as an ID accepts and returns: the
/// segment before any file extension, read in base 36.
pub open spec fn spec_parse_id(s: Seq<char>) -> Option<i32> {
    spec_id_from_b36(spec_id_prefix(s))
}

/// Parses an ID from a path segment, ignoring any file extension; anything
/// unreadable is a 400-equivalent rejection.
pub fn parse_id(id: &str) -> (r: Result<i32, FiliteRejection>)
    ensures
        r matches Ok(n) ==> spec_parse_id(id@) == Some(n),
        r is Err ==> spec_parse_id(id@) is None && (r matches Err(rej) && rej matches
            FiliteRejection::BadRequest(m) && m@ == "Invalid ID"@),
{
    let n = id.unicode_len();
    let mut i: usize = 0;
    let mut end = n;
    let mut found = false;
    while i < n
        invariant_except_break
            !found,
        invariant
            n == id@.len(),
            i <= n,
            !found ==> end == n && (forall|j: int| 0 <= j < i ==> id@[j] != '.'),
            found ==> is_first_dot(id@, end as int),
            end <= n,
        ensures
            end <= n == id@.len(),
            found ==> is_first_dot(id@, end as int),
            !found ==> end == n && (forall|j: int| 0 <= j < id@.len() ==> id@[j] != '.'),
        decreases n - i,
    {
        if id.get_char(i) == '.' {
            end = i;
            found = true;
            break;
        }
        i += 1;
    }
    proof {
        if found {
            let k = choose|k: int| is_first_dot(id@, k);
            assert(is_first_dot(id@, end as int));
            if k < end as int {
                assert(id@[k] != '.');
            } else if k > end as int {
                assert(id@[end as int] != '.');
            }
        } else {
            assert forall|k: int| !is_first_dot(id@, k) by {
                if 0 <= k < id@.len() {
                    assert(id@[k] != '.');
                }
            }
            assert(id@.take(n as int) =~= id@);
        }
    }
    let prefix = id.substring_char(0, end);
    proof {
        assert(prefix@ =~= id@.take(end as int));
    }
    match id_from_b36(prefix) {
        Some(v) => Ok(v),
        None => Err(FiliteRejection::BadRequest("Invalid ID".to_owned())),
    }
}

/// The character writing one base 36 digit, lower case.
pub open spec fn spec_b36_digit_char(d: int) -> char {
    if d < 10 {
        ((48 + d) as u8) as char
    } else {
        ((87 + d) as u8) as char
    }
}

/// The base 36 writing of a non-negative value, lower-case digits, no
/// leading zeros.
pub open spec fn spec_to_b36(v: int) -> Seq<char>
    decreases v,
{
    if v < 36 {
        seq![spec_b36_digit_char(v)]
    } else {
        spec_to_b36(v / 36) + seq![spec_b36_digit_char(v % 36)]
    }
}

/// The base 36 writing of an ID: a minus sign and the magnitude for
/// negative values.
pub open spec fn spec_id_to_str(id: int) -> Seq<char> {
    if id < 0 {
        seq!['-'] + spec_to_b36(-id)
    } else {
        spec_to_b36(id)
    }
}

/// One base 36 digit as its lower-case character.
fn b36_digit_char(d: u32) -> (c: char)
    requires
        d < 36,
    ensures
        c == spec_b36_digit_char(d as int),
{
    if d < 10 {
        ((48 + d) as u8) as char
    } else {
        ((87 + d) as u8) as char
    }
}

/// The base 36 writing of a non-negative value.
fn to_b36(v: u32) -> (s: String)
    ensures
        s@ == spec_to_b36(v as int),
    decreases v,
{
    if v < 36 {
        let mut s = String::new();
        crate::util::push_char(&mut s, b36_digit_char(v));
        proof {
            assert(s@ =~= spec_to_b36(v as int));
        }
        s
    } else {
        let mut s = to_b36(v / 36);
        crate::util::push_char(&mut s, b36_digit_char(v % 36));
        proof {
            assert(s@ =~= spec_to_b36(v as int));
        }
        s
    }
}

/// Writes an ID the way the routes show it: base 36, lower case, a minus
/// sign for negative values.
pub fn id_to_str(id: i32) -> (s: String)
    ensures
        s@ == spec_id_to_str(id as int),
{
    if id < 0 {
        let magnitude = (-(id as i64)) as u32;
        let mut s = String::new();
        crate::util::push_char(&mut s, '-');
        let rest = to_b36(magnitude);
        s.append(rest.as_str());
        proof {
            assert(s@ =~= spec_id_to_str(id as int));
        }
        s
    } else {
        to_b36(id as u32)
    }
}

/// A base 36 digit character reads back as its value.
proof fn lemma_digit_char_value(d: int)
    requires
        0 <= d < 36,
    ensures
        b36_digit(spec_b36_digit_char(d)) is Some,
        b36_digit(spec_b36_digit_char(d)) == Some(d),
{
    if d < 10 {
        assert(spec_b36_digit_char(d) as u32 == 48 + d);
    } else {
        assert(spec_b36_digit_char(d) as u32 == 87 + d);
    }
}

/// The base 36 writing of a non-negative value is at least one character,
/// every character a digit, and reads back as the value.
proof fn lemma_to_b36_value(v: int)
    requires
        v >= 0,
    ensures
        spec_to_b36(v).len() >= 1,
        forall|i: int|
            0 <= i < spec_to_b36(v).len() ==> b36_digit(#[trigger] spec_to_b36(v)[i]) is Some,
        b36_digits_value(spec_to_b36(v)) == Some(v),
    decreases v,
{
    if v < 36 {
        lemma_digit_char_value(v);
        let s = spec_to_b36(v);
        assert(s.drop_last() =~= Seq::<char>::empty());
        assert(s.last() == spec_b36_digit_char(v));
        assert(b36_digits_value(s.drop_last()) == Some(0int));
        assert(b36_digits_value(s) == Some(0int * 36 + v));
    } else {
        vstd::arithmetic::div_mod::lemma_fundamental_div_mod(v, 36);
        lemma_to_b36_value(v / 36);
        lemma_digit_char_value(v % 36);
        let a = spec_to_b36(v / 36);
        let s = spec_to_b36(v);
        assert(s.drop_last() =~= a);
        assert(s.last() == spec_b36_digit_char(v % 36));
        assert(b36_digits_value(s) == Some((v / 36) * 36 + v % 36));
    }
}

/// Writing an identifier in base 36 and reading it back returns the same
/// identifier: the two directions are inverse.
pub proof fn lemma_b36_round_trip(id: i32)
    ensures
        spec_id_from_b36(spec_id_to_str(id as int)) == Some(id),
{
    if id >= 0 {
        let s = spec_to_b36(id as int);
        lemma_to_b36_value(id as int);
        assert(b36_digit(s[0]) is Some);
        assert(s[0] != '+' && s[0] != '-') by {
            if s[0] == '+' || s[0] == '-' {
                assert(b36_digit(s[0]) is None);
            }
        }
    } else {
        let m = -(id as int);
        let s = spec_id_to_str(id as int);
        lemma_to_b36_value(m);
        assert(s[0] == '-');
        assert(s.skip(1) =~= spec_to_b36(m));
    }
}

/// What one character becomes inside an HTML element.
pub open spec fn spec_escape_char(c: char) -> Seq<char> {
    if c == '&' {
        "&amp;"@
    } else if c == '<' {
        "&lt;"@
    } else if c == '>' {
        "&gt;"@
    } else {
        seq![c]
    }
}

/// Text with `&`, `<` and `>` replaced by their HTML entities.
pub open spec fn spec_escape_html(s: Seq<char>) -> Seq<char>
    decreases s.len(),
{
    if s.len() == 0 {
        Seq::<char>::empty()
    } else {
        spec_escape_char(s[0]) + spec_escape_html(s.drop_first())
    }
}

/// The escaping of a sequence one character longer.
proof fn lemma_escape_take_step(s: Seq<char>, i: int)
    requires
        0 <= i < s.len(),
    ensures
        spec_escape_html(s.take(i + 1)) == spec_escape_html(s.take(i)) + spec_escape_char(s[i]),
    decreases i,
{
    if i == 0 {
        assert(s.take(1) =~= seq![s[0]]);
        assert(s.take(1).drop_first() =~= Seq::<char>::empty());
        assert(s.take(0) =~= Seq::<char>::empty());
        assert(spec_escape_html(s.take(1)) =~= spec_escape_html(s.take(0)) + spec_escape_char(
            s[0],
        ));
    } else {
        let t = s.drop_first();
        lemma_escape_take_step(t, i - 1);
        assert(s.take(i + 1).drop_first() =~= t.take(i));
        assert(s.take(i).drop_first() =~= t.take(i - 1));
        assert(s.take(i + 1)[0] == s[0]);
        assert(s.take(i)[0] == s[0]);
        assert(t[i - 1] == s[i]);
        assert(spec_escape_html(s.take(i + 1)) == spec_escape_char(s[0]) + spec_escape_html(
            t.take(i),
        ));
        assert(spec_escape_html(s.take(i)) == spec_escape_char(s[0]) + spec_escape_html(
            t.take(i - 1),
        ));
        assert(spec_escape_html(s.take(i)) + spec_escape_char(s[i]) =~= spec_escape_char(s[0])
            + (spec_escape_html(t.take(i - 1)) + spec_escape_char(t[i - 1])));
    }
}

/// Escapes text to be inserted in a HTML element.
pub fn escape_html(text: &str) -> (r: String)
    ensures
        r@ == spec_escape_html(text@),
{
    let n = text.unicode_len();
    let mut out = String::new();
    let mut i: usize = 0;
    while i < n
        invariant
            n == text@.len(),
            i <= n,
            out@ == spec_escape_html(text@.take(i as int)),
        decreases n - i,
    {
        let c = text.get_char(i);
        proof {
            lemma_escape_take_step(text@, i as int);
        }
        if c == '&' {
            out.append("&amp;");
        } else if c == '<' {
            out.append("&lt;");
        } else if c == '>' {
            out.append("&gt;");
        } else {
            crate::util::push_char(&mut out, c);
        }
        i += 1;
    }
    proof {
        assert(text@.take(n as int) =~= text@);
    }
    out
}

/// Request body when PUTting links.
pub struct PutPostLink {
    pub forward: String,
}

/// Request body when PUTting texts.
pub struct PutPostText {
    pub contents: String,
    pub highlight: bool,
}

} // verus!
