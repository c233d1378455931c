//! Parsing the textual port setting.

use vstd::prelude::*;

verus! {

/// The port the server listens on when no setting is given.
pub const DEFAULT_PORT: u16 = 3000;

/// Whether `c` is a decimal digit.
pub open spec fn is_dec_digit(c: char) -> bool {
    '0' <= c && c <= '9'
}

/// The value of the decimal digit `c`.
pub open spec fn digit_value(c: char) -> int
    recommends
        is_dec_digit(c),
{
    c as u32 - '0' as u32
}

/// Whether every character of `s` is a decimal digit.
pub open spec fn all_dec_digits(s: Seq<char>) -> bool {
    forall|i: int| 0 <= i < s.len() ==> is_dec_digit(#[trigger] s[i])
}

/// The number that the digit string `s` denotes, most significant digit
/// first; 0 for the empty string.
pub open spec fn dec_value(s: Seq<char>) -> int
    recommends
        all_dec_digits(s),
    decreases s.len(),
{
    if s.len() == 0 {
        0
    } else {
        dec_value(s.drop_last()) * 10 + digit_value(s.last())
    }
}

/// A port setting is well formed when it is a nonempty digit string whose
/// value fits a 16-bit port number.
pub open spec fn valid_port_text(s: Seq<char>) -> bool {
    &&& 1 <= s.len()
    &&& all_dec_digits(s)
    &&& dec_value(s) <= 65535
}

/// A digit string denotes a nonnegative number.
proof fn lemma_dec_value_nonneg(s: Seq<char>)
    requires
        all_dec_digits(s),
    ensures
        dec_value(s) >= 0,
    decreases s.len(),
{
    if s.len() > 0 {
        assert(all_dec_digits(s.drop_last()));
        lemma_dec_value_nonneg(s.drop_last());
    }
}

/// Extending a digit string can only grow its value: the value of any
/// prefix is at most the value of the whole string.
proof fn lemma_dec_value_prefix_le(s: Seq<char>, i: int)
    requires
        all_dec_digits(s),
        0 <= i <= s.len(),
    ensures
        dec_value(s.take(i)) <= dec_value(s),
    decreases s.len() - i,
{
    if i == s.len() {
        assert(s.take(i) =~= s);
    } else {
        assert(s.take(i + 1).drop_last() =~= s.take(i));
        assert(all_dec_digits(s.take(i)));
        lemma_dec_value_nonneg(s.take(i));
        assert(dec_value(s.take(i + 1)) == dec_value(s.take(i)) * 10 + digit_value(s[i]));
        lemma_dec_value_prefix_le(s, i + 1);
    }
}

/// Parses a port number: succeeds exactly on nonempty decimal digit strings
/// whose value is at most 65535, and returns that value.
pub fn parse_port(s: &str) -> (r: Option<u16>)
    ensures
        r is Some <==> valid_port_text(s@),
        r matches Some(p) ==> p as int == dec_value(s@),
{
    let len = s.unicode_len();
    if len == 0 {
        return None;
    }
    let mut acc: u32 = 0;
    let mut i: usize = 0;
    while i < len
        invariant
            len == s@.len(),
            0 < len,
            0 <= i <= len,
            all_dec_digits(s@.take(i as int)),
            acc as int == dec_value(s@.take(i as int)),
            acc <= 65535,
        decreases len - i,
    {
        let c = s.get_char(i);
        if c < '0' || c > '9' {
            assert(!is_dec_digit(s@[i as int]));
            return None;
        }
        let d: u32 = c as u32 - '0' as u32;
        let next: u32 = acc * 10 + d;
        proof {
            assert(s@.take(i as int + 1).drop_last() =~= s@.take(i as int));
            assert(s@.take(i as int + 1).last() == s@[i as int]);
            assert(all_dec_digits(s@.take(i as int + 1)));
            assert(next as int == dec_value(s@.take(i as int + 1)));
        }
        if next > 65535 {
            proof {
                if all_dec_digits(s@) {
                    lemma_dec_value_prefix_le(s@, i as int + 1);
                }
            }
            return None;
        }
        acc = next;
        i = i + 1;
    }
    proof {
        assert(s@.take(len as int) =~= s@);
    }
    Some(acc as u16)
}

/// Resolves the port the server should use: the default when no setting is
/// present, the parsed setting when it is well formed, and nothing (the
/// caller must fail fast) when it is malformed.
pub fn resolve_port(setting: Option<&str>) -> (r: Option<u16>)
    ensures
        setting is None ==> r == Some(DEFAULT_PORT),
        setting matches Some(s) ==> (r is Some <==> valid_port_text(s@)),
        setting matches Some(s) ==> (r matches Some(p) ==> p as int == dec_value(s@)),
{
    match setting {
        None => Some(DEFAULT_PORT),
        Some(s) => parse_port(s),
    }
}

} // verus!
