//! Decimal text: rendering unsigned numbers and parsing them back, with the
//! exact value semantics the settings layer needs.

use vstd::prelude::*;
use vstd::string::StrSliceExecFns;
use vstd::string::StringExecFns;

verus! {

pub open spec fn spec_is_digit(c: char) -> bool {
    '0' <= c && c <= '9'
}

pub open spec fn spec_digit_val(c: char) -> int {
    c as int - '0' as int
}

pub open spec fn spec_digit_char(d: int) -> char {
    if d == 0 {
        '0'
    } else if d == 1 {
        '1'
    } else if d == 2 {
        '2'
    } else if d == 3 {
        '3'
    } else if d == 4 {
        '4'
    } else if d == 5 {
        '5'
    } else if d == 6 {
        '6'
    } else if d == 7 {
        '7'
    } else if d == 8 {
        '8'
    } else {
        '9'
    }
}

/// The decimal rendering of `n`, most significant digit first, no sign and no
/// leading zero (`0` itself excepted).
pub open spec fn spec_dec_of(n: nat) -> Seq<char>
    decreases n,
{
    if n < 10 {
        seq![spec_digit_char(n as int)]
    } else {
        spec_dec_of(n / 10) + seq![spec_digit_char((n % 10) as int)]
    }
}

/// The numeric value of a digit string, 0 for the empty string.
pub open spec fn spec_dec_value(s: Seq<char>) -> int
    decreases s.len(),
{
    if s.len() == 0 {
        0
    } else {
        spec_dec_value(s.drop_last()) * 10 + spec_digit_val(s.last())
    }
}

pub open spec fn spec_all_digits(s: Seq<char>) -> bool {
    forall|i: int| 0 <= i < s.len() ==> spec_is_digit(s[i])
}

/// A digit string parses to a `u64` exactly when it is non-empty and its
/// value fits.
pub open spec fn spec_parses_to_u64(s: Seq<char>) -> bool {
    s.len() > 0 && spec_all_digits(s) && spec_dec_value(s) <= u64::MAX
}

fn digit_str(d: u64) -> (r: &'static str)
    requires
        d < 10,
    ensures
        r@ =~= seq![spec_digit_char(d as int)],
{
    proof {
        reveal_strlit("0");
        reveal_strlit("1");
        reveal_strlit("2");
        reveal_strlit("3");
        reveal_strlit("4");
        reveal_strlit("5");
        reveal_strlit("6");
        reveal_strlit("7");
        reveal_strlit("8");
        reveal_strlit("9");
    }
    if d == 0 {
        "0"
    } else if d == 1 {
        "1"
    } else if d == 2 {
        "2"
    } else if d == 3 {
        "3"
    } else if d == 4 {
        "4"
    } else if d == 5 {
        "5"
    } else if d == 6 {
        "6"
    } else if d == 7 {
        "7"
    } else if d == 8 {
        "8"
    } else {
        "9"
    }
}

/// Renders `n` in decimal.
pub fn u64_to_dec(n: u64) -> (r: String)
    ensures
        r@ == spec_dec_of(n as nat),
    decreases n,
{
    if n < 10 {
        digit_str(n).to_owned()
    } else {
        let head = u64_to_dec(n / 10);
        let r = head.concat(digit_str(n % 10));
        proof {
            assert(r@ =~= spec_dec_of(n as nat));
        }
        r
    }
}

/// The value of every proper prefix of a digit string is at most the value of
/// the whole string.
proof fn lemma_prefix_value_le(s: Seq<char>, i: int)
    requires
        spec_all_digits(s),
        0 <= i <= s.len(),
    ensures
        spec_dec_value(s.subrange(0, i)) <= spec_dec_value(s),
        spec_dec_value(s) >= 0,
    decreases s.len() - i,
{
    if i == s.len() {
        assert(s.subrange(0, i) =~= s);
        lemma_value_nonneg(s);
    } else {
        lemma_prefix_value_le(s, i + 1);
        let p = s.subrange(0, i);
        let q = s.subrange(0, i + 1);
        assert(q.drop_last() =~= p);
        lemma_value_nonneg(p);
    }
}

proof fn lemma_value_nonneg(s: Seq<char>)
    requires
        spec_all_digits(s),
    ensures
        spec_dec_value(s) >= 0,
    decreases s.len(),
{
    if s.len() > 0 {
        assert(spec_all_digits(s.drop_last()));
        lemma_value_nonneg(s.drop_last());
    }
}

/// Parses a decimal digit string into a `u64`. Returns `None` exactly for
/// text that is empty, has a non-digit, or names a value above `u64::MAX`.
pub fn parse_u64(s: &str) -> (r: Option<u64>)
    ensures
        match r {
            Some(v) => spec_parses_to_u64(s@) && v == spec_dec_value(s@),
            None => !spec_parses_to_u64(s@),
        },
{
    let n = s.unicode_len();
    if n == 0 {
        return None;
    }
    let mut acc: u64 = 0;
    let mut i: usize = 0;
    while i < n
        invariant
            n == s@.len(),
            0 < n,
            i <= n,
            spec_all_digits(s@.subrange(0, i as int)),
            acc == spec_dec_value(s@.subrange(0, i as int)),
        decreases n - i,
    {
        let c = s.get_char(i);
        if !('0' <= c && c <= '9') {
            assert(!spec_is_digit(s@[i as int]));
            return None;
        }
        let d: u64 = (c as u32 as u64) - 48;
        proof {
            assert(s@.subrange(0, i as int + 1).drop_last() =~= s@.subrange(0, i as int));
        }
        if acc > (u64::MAX - d) / 10 {
            proof {
                if spec_parses_to_u64(s@) {
                    lemma_prefix_value_le(s@, i as int + 1);
                }
            }
            return None;
        }
        acc = acc * 10 + d;
        i = i + 1;
    }
    proof {
        assert(s@.subrange(0, n as int) =~= s@);
    }
    Some(acc)
}

/// Rendering a number and parsing the text back yields the number: the
/// rendering is all digits, never empty, and its value is exact, so a
/// setting written by the renderer always reads back as itself.
pub proof fn lemma_dec_round_trip(n: nat)
    ensures
        spec_dec_of(n).len() >= 1,
        spec_all_digits(spec_dec_of(n)),
        spec_dec_value(spec_dec_of(n)) == n,
    decreases n,
{
    if n < 10 {
        let s = spec_dec_of(n);
        assert(s.len() == 1);
        assert(spec_is_digit(s[0]));
        assert(s.drop_last() =~= Seq::<char>::empty());
        assert(s.last() == spec_digit_char(n as int));
        assert(spec_dec_value(Seq::<char>::empty()) == 0);
        assert(spec_dec_value(s) == spec_digit_val(spec_digit_char(n as int)));
        assert(spec_digit_val(spec_digit_char(n as int)) == n);
    } else {
        lemma_dec_round_trip(n / 10);
        let head = spec_dec_of(n / 10);
        let s = spec_dec_of(n);
        let c = spec_digit_char((n % 10) as int);
        assert(s =~= head + seq![c]);
        assert(s.drop_last() =~= head);
        assert(s.last() == c);
        assert forall|i: int| 0 <= i < s.len() implies spec_is_digit(s[i]) by {
            if i < head.len() as int {
                assert(s[i] == head[i]);
            }
        }
        assert(spec_dec_value(s) == spec_dec_value(head) * 10 + spec_digit_val(c));
        assert(spec_digit_val(c) == n % 10);
    }
}

/// Parses boolean text: exactly `true` and `false` are accepted.
pub fn parse_bool(s: &str) -> (r: Option<bool>)
    ensures
        r == spec_parse_bool(s@),
{
    if s.to_owned() == String::from_str("true") {
        Some(true)
    } else if s.to_owned() == String::from_str("false") {
        Some(false)
    } else {
        None
    }
}

pub open spec fn spec_parse_bool(s: Seq<char>) -> Option<bool> {
    if s == "true"@ {
        Some(true)
    } else if s == "false"@ {
        Some(false)
    } else {
        None
    }
}

/// Renders boolean text the way [`parse_bool`] reads it.
pub fn bool_to_text(b: bool) -> (r: String)
    ensures
        r@ == spec_bool_text(b),
{
    if b {
        String::from_str("true")
    } else {
        String::from_str("false")
    }
}

pub open spec fn spec_bool_text(b: bool) -> Seq<char> {
    if b {
        "true"@
    } else {
        "false"@
    }
}

/// Rendering a boolean and parsing the text back yields the boolean.
pub proof fn lemma_bool_round_trip(b: bool)
    ensures
        spec_parse_bool(spec_bool_text(b)) == Some(b),
{
    reveal_strlit("true");
    reveal_strlit("false");
    assert("true"@.len() != "false"@.len());
}

} // verus!
