//! Byte and text helpers for the wire format.
use vstd::prelude::*;
use vstd::utf8::{decode_utf8, valid_utf8};

verus! {

/// Whether `t` occurs in `s` starting at index `i`.
pub open spec fn occurs_at<A>(s: Seq<A>, t: Seq<A>, i: int) -> bool {
    0 <= i && i + t.len() <= s.len() && s.subrange(i, i + t.len()) == t
}

/// Whether `s` begins with `t`.
pub open spec fn starts_with<A>(s: Seq<A>, t: Seq<A>) -> bool {
    occurs_at(s, t, 0)
}

/// Whether `s` ends with `t`.
pub open spec fn ends_with<A>(s: Seq<A>, t: Seq<A>) -> bool {
    occurs_at(s, t, s.len() - t.len())
}

/// Whether `t` occurs anywhere in `s`.
pub open spec fn contains_seq<A>(s: Seq<A>, t: Seq<A>) -> bool {
    exists|i: int| occurs_at(s, t, i)
}

/// The decimal digit for `d` in `0..10`.
pub open spec fn digit_char(d: int) -> char {
    if d == 0 {
        '0'
    } else if d == 1 {
        '1'
    } else if d == 2 {
        '2'
    } else if d == 3 {
        '3'
    } else if d == 4 {
        '4'
    } else if d == 5 {
        '5'
    } else if d == 6 {
        '6'
    } else if d == 7 {
        '7'
    } else if d == 8 {
        '8'
    } else {
        '9'
    }
}

/// The decimal digits of `n`, most significant first, without leading zeros.
pub open spec fn digits(n: nat) -> Seq<char>
    decreases n,
{
    if n < 10 {
        seq![digit_char(n as int)]
    } else {
        digits(n / 10).push(digit_char((n % 10) as int))
    }
}

/// The decimal text of `n`, with a leading `-` when it is negative.
pub open spec fn decimal(n: int) -> Seq<char> {
    if n < 0 {
        seq!['-'] + digits((-n) as nat)
    } else {
        digits(n as nat)
    }
}

/// Whether `t` occurs in `s` at index `i`.
pub fn bytes_match_at(s: &[u8], t: &[u8], i: usize) -> (r: bool)
    requires
        i + t@.len() <= s@.len(),
    ensures
        r == occurs_at(s@, t@, i as int),
{
    let n = s.len();
    let mut j: usize = 0;
    while j < t.len()
        invariant
            n == s@.len(),
            i + t@.len() <= s@.len(),
            j <= t@.len(),
            forall|k: int| 0 <= k < j ==> s@[i + k] == t@[k],
        decreases t@.len() - j,
    {
        if s[i + j] != t[j] {
            assert(s@.subrange(i as int, i + t@.len())[j as int] != t@[j as int]);
            return false;
        }
        j = j + 1;
    }
    assert(s@.subrange(i as int, i + t@.len()) =~= t@);
    true
}

/// Whether `s` ends with `t`.
pub fn bytes_end_with(s: &[u8], t: &[u8]) -> (r: bool)
    ensures
        r == ends_with(s@, t@),
{
    if t.len() > s.len() {
        return false;
    }
    bytes_match_at(s, t, s.len() - t.len())
}

/// Whether `s` begins with `t`.
pub fn bytes_start_with(s: &[u8], t: &[u8]) -> (r: bool)
    ensures
        r == starts_with(s@, t@),
{
    if t.len() > s.len() {
        return false;
    }
    bytes_match_at(s, t, 0)
}

/// Whether `t` occurs anywhere in `s`.
pub fn bytes_contain(s: &[u8], t: &[u8]) -> (r: bool)
    ensures
        r == contains_seq(s@, t@),
{
    if t.len() > s.len() {
        return false;
    }
    if t.len() == 0 {
        assert(s@.subrange(0, 0) =~= t@);
        assert(occurs_at(s@, t@, 0));
        return true;
    }
    let bound = s.len() - t.len() + 1;
    let mut i: usize = 0;
    while i < bound
        invariant
            bound + t@.len() == s@.len() + 1,
            forall|k: int| 0 <= k < i ==> !occurs_at(s@, t@, k),
        decreases bound - i,
    {
        if bytes_match_at(s, t, i) {
            return true;
        }
        i = i + 1;
    }
    false
}

/// Appends the decimal digits of `n` to `s`.
pub fn push_digits(s: &mut String, n: u32)
    ensures
        final(s)@ == old(s)@ + digits(n as nat),
    decreases n,
{
    if n >= 10 {
        push_digits(s, n / 10);
    }
    let d = n % 10;
    let text = if d == 0 {
        "0"
    } else if d == 1 {
        "1"
    } else if d == 2 {
        "2"
    } else if d == 3 {
        "3"
    } else if d == 4 {
        "4"
    } else if d == 5 {
        "5"
    } else if d == 6 {
        "6"
    } else if d == 7 {
        "7"
    } else if d == 8 {
        "8"
    } else {
        "9"
    };
    proof {
        reveal_strlit("0");
        reveal_strlit("1");
        reveal_strlit("2");
        reveal_strlit("3");
        reveal_strlit("4");
        reveal_strlit("5");
        reveal_strlit("6");
        reveal_strlit("7");
        reveal_strlit("8");
        reveal_strlit("9");
    }
    assert(text@ =~= seq![digit_char(d as int)]);
    s.append(text);
}

/// Appends the decimal text of `n` to `s`.
pub fn push_decimal(s: &mut String, n: i32)
    ensures
        final(s)@ == old(s)@ + decimal(n as int),
{
    if n < 0 {
        proof {
            reveal_strlit("-");
        }
        s.append("-");
        let magnitude = (0i64 - n as i64) as u32;
        push_digits(s, magnitude);
        assert(final(s)@ =~= old(s)@ + decimal(n as int));
    } else {
        push_digits(s, n as u32);
    }
}

/// Relies on `String::from_utf8`: it accepts exactly the byte sequences that
/// are valid UTF-8, and the string it builds has those bytes.
#[verifier::external_body]
pub(crate) fn utf8_text(bytes: Vec<u8>) -> (r: Option<String>)
    ensures
        r is Some <==> valid_utf8(bytes@),
        r is Some ==> r->0@ == decode_utf8(bytes@),
{
    String::from_utf8(bytes).ok()
}

} // verus!
