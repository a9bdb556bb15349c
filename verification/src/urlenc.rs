//! Percent-encoding of query-string components.
//!
//! A query value keeps the unreserved characters (letters, digits,
//! `-` `.` `_` `~`) and writes every other byte as `%` followed by two
//! uppercase hexadecimal digits.  Only ASCII input is encoded here; the
//! values this flow encodes (endpoint parts, client identifier, redirect
//! URL, tokens) are ASCII by construction.

use vstd::prelude::*;

use crate::external::push_char;

verus! {

/// A character that query-string encoding keeps as it is.
pub open spec fn is_unreserved(c: char) -> bool {
    ('A' <= c && c <= 'Z') || ('a' <= c && c <= 'z') || ('0' <= c && c <= '9') || c == '-' || c
        == '.' || c == '_' || c == '~'
}

/// The uppercase hexadecimal digit for a value below sixteen.
pub open spec fn hex_digit(n: int) -> char {
    if n == 0 {
        '0'
    } else if n == 1 {
        '1'
    } else if n == 2 {
        '2'
    } else if n == 3 {
        '3'
    } else if n == 4 {
        '4'
    } else if n == 5 {
        '5'
    } else if n == 6 {
        '6'
    } else if n == 7 {
        '7'
    } else if n == 8 {
        '8'
    } else if n == 9 {
        '9'
    } else if n == 10 {
        'A'
    } else if n == 11 {
        'B'
    } else if n == 12 {
        'C'
    } else if n == 13 {
        'D'
    } else if n == 14 {
        'E'
    } else {
        'F'
    }
}

/// What one character encodes to.
pub open spec fn encoded_char(c: char) -> Seq<char> {
    if is_unreserved(c) {
        seq![c]
    } else {
        seq!['%', hex_digit(c as int / 16), hex_digit(c as int % 16)]
    }
}

/// What a whole component encodes to.
pub open spec fn encoded(s: Seq<char>) -> Seq<char>
    decreases s.len(),
{
    if s.len() == 0 {
        Seq::empty()
    } else {
        encoded(s.drop_last()) + encoded_char(s.last())
    }
}

fn hex_digit_char(n: u8) -> (r: char)
    requires
        n < 16,
    ensures
        r == hex_digit(n as int),
{
    if n == 0 {
        '0'
    } else if n == 1 {
        '1'
    } else if n == 2 {
        '2'
    } else if n == 3 {
        '3'
    } else if n == 4 {
        '4'
    } else if n == 5 {
        '5'
    } else if n == 6 {
        '6'
    } else if n == 7 {
        '7'
    } else if n == 8 {
        '8'
    } else if n == 9 {
        '9'
    } else if n == 10 {
        'A'
    } else if n == 11 {
        'B'
    } else if n == 12 {
        'C'
    } else if n == 13 {
        'D'
    } else if n == 14 {
        'E'
    } else {
        'F'
    }
}

/// Appends the encoding of the ASCII component `s` to `out`.
pub fn append_encoded(out: &mut String, s: &str)
    requires
        vstd::string::is_ascii(s),
    ensures
        final(out)@ == old(out)@ + encoded(s@),
{
    let len = s.unicode_len();
    let mut i: usize = 0;
    while i < len
        invariant
            vstd::string::is_ascii(s),
            len == s@.len(),
            i <= len,
            out@ == old(out)@ + encoded(s@.subrange(0, i as int)),
        decreases len - i,
    {
        let b = s.get_ascii(i);
        let c = b as char;
        proof {
            assert(s@[i as int] as u8 == b);
            assert(c == s@[i as int]);
        }
        if (65 <= b && b <= 90) || (97 <= b && b <= 122) || (48 <= b && b <= 57) || b == 45 || b
            == 46 || b == 95 || b == 126 {
            push_char(out, c);
            proof {
                assert(is_unreserved(c));
                assert(encoded_char(c) =~= seq![c]);
            }
        } else {
            push_char(out, '%');
            push_char(out, hex_digit_char(b / 16));
            push_char(out, hex_digit_char(b % 16));
            proof {
                assert(!is_unreserved(c));
                assert(c as int == b as int);
                assert(encoded_char(c) =~= seq![
                    '%',
                    hex_digit(b as int / 16),
                    hex_digit(b as int % 16),
                ]);
            }
        }
        proof {
            let pre = s@.subrange(0, i as int);
            let cur = s@.subrange(0, i + 1);
            assert(cur.drop_last() =~= pre);
            assert(cur.last() == s@[i as int]);
            assert(out@ =~= old(out)@ + encoded(cur));
        }
        i += 1;
    }
    proof {
        assert(s@.subrange(0, s@.len() as int) =~= s@);
    }
}

/// The encoding of one ASCII component as its own string.
pub fn encode_component(s: &str) -> (r: String)
    requires
        vstd::string::is_ascii(s),
    ensures
        r@ == encoded(s@),
{
    let mut out = String::new();
    append_encoded(&mut out, s);
    out
}

/// Encoding an unreserved-only component changes nothing; in particular
/// the tokens this flow generates (which are base64url) pass through
/// unchanged into the authorization URL.
pub proof fn lemma_unreserved_encodes_to_itself(s: Seq<char>)
    requires
        forall|i: int| 0 <= i < s.len() ==> is_unreserved(#[trigger] s[i]),
    ensures
        encoded(s) == s,
    decreases s.len(),
{
    if s.len() == 0 {
        assert(encoded(s) =~= s);
    } else {
        assert(forall|i: int| 0 <= i < s.drop_last().len() ==> is_unreserved(
            #[trigger] s.drop_last()[i],
        ));
        lemma_unreserved_encodes_to_itself(s.drop_last());
        assert(is_unreserved(s.last()));
        assert(encoded(s) =~= s.drop_last() + seq![s.last()]);
        assert(s.drop_last() + seq![s.last()] =~= s);
    }
}

} // verus!
