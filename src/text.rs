//! Text helpers: decimal ports, address rendering and column padding.

use unicode_width::UnicodeWidthStr;
use vstd::prelude::*;

verus! {

/// True for the ASCII digits `0` to `9`.
pub open spec fn is_digit(c: char) -> bool {
    '0' <= c && c <= '9'
}

/// Every character of `s` is an ASCII digit.
pub open spec fn all_digits(s: Seq<char>) -> bool {
    forall|i: int| 0 <= i < s.len() ==> is_digit(#[trigger] s[i])
}

/// The number that a run of decimal digits denotes.
pub open spec fn digits_value(s: Seq<char>) -> nat
    decreases s.len(),
{
    if s.len() == 0 {
        0
    } else {
        digits_value(s.drop_last()) * 10 + (s.last() as nat - '0' as nat) as nat
    }
}

/// The digits that follow an optional leading `+`.
pub open spec fn unsigned_part(s: Seq<char>) -> Seq<char> {
    if s.len() > 0 && s[0] == '+' {
        s.drop_first()
    } else {
        s
    }
}

/// What parsing `s` as a `u16` in base ten gives: an optional `+`, then one
/// or more digits whose value fits in sixteen bits.
pub open spec fn parse_u16(s: Seq<char>) -> Option<u16> {
    let d = unsigned_part(s);
    if d.len() > 0 && all_digits(d) && digits_value(d) <= u16::MAX {
        Some(digits_value(d) as u16)
    } else {
        None
    }
}

/// The decimal digit character for `d < 10`.
pub open spec fn digit_char(d: nat) -> char {
    ((d + '0' as nat) as u32) as char
}

/// The shortest decimal rendering of `n`.
pub open spec fn decimal(n: nat) -> Seq<char>
    decreases n,
{
    if n < 10 {
        seq![digit_char(n)]
    } else {
        decimal(n / 10).push(digit_char(n % 10))
    }
}

/// `n` space characters.
pub open spec fn spaces(n: nat) -> Seq<char> {
    Seq::new(n, |i: int| ' ')
}

/// `s`, followed by enough spaces to bring its display width `current` up
/// to `width`; unchanged when it is already that wide.
pub open spec fn padded(s: Seq<char>, current: nat, width: nat) -> Seq<char> {
    if current >= width {
        s
    } else {
        s + spaces((width - current) as nat)
    }
}

/// A host, with `:port` appended unless the port is the default 22.
pub open spec fn address_of(host: Seq<char>, port: u16) -> Seq<char> {
    if port == 22 {
        host
    } else {
        host + seq![':'] + decimal(port as nat)
    }
}

/// The number of terminal columns that `s` occupies.
pub uninterp spec fn display_width_of(s: Seq<char>) -> nat;

/// Relies on `unicode_width::UnicodeWidthStr::width` for `str`: the column
/// count of a string, wide characters counting two; the empty string has none.
#[verifier::external_body]
pub(crate) fn display_width(s: &str) -> (r: usize)
    ensures
        r as nat == display_width_of(s@),
        s@.len() == 0 ==> r == 0,
{
    s.width()
}

proof fn lemma_digits_value_prefix(s: Seq<char>, k: int)
    requires
        0 <= k <= s.len(),
    ensures
        digits_value(s.subrange(0, k)) <= digits_value(s),
    decreases s.len() - k,
{
    if k < s.len() {
        lemma_digits_value_prefix(s, k + 1);
        assert(s.subrange(0, k + 1).drop_last() =~= s.subrange(0, k));
    } else {
        assert(s.subrange(0, k) =~= s);
    }
}

/// Parses a port number written in base ten, as `str::parse::<u16>` does.
pub fn parse_u16_decimal(s: &str) -> (r: Option<u16>)
    ensures
        r == parse_u16(s@),
{
    let n = s.unicode_len();
    let mut start: usize = 0;
    if n > 0 && s.get_char(0) == '+' {
        start = 1;
    }
    proof {
        assert(unsigned_part(s@) =~= s@.subrange(start as int, n as int));
    }
    let ghost d = unsigned_part(s@);
    if start >= n {
        return None;
    }
    let mut i: usize = start;
    let mut acc: u32 = 0;
    while i < n
        invariant
            start <= i <= n,
            n == s@.len(),
            d =~= s@.subrange(start as int, n as int),
            d == unsigned_part(s@),
            acc as nat == digits_value(d.subrange(0, i - start)),
            acc <= 65535,
            all_digits(d.subrange(0, i - start)),
        decreases n - i,
    {
        let c = s.get_char(i);
        let ghost pre = d.subrange(0, i - start);
        let ghost next = d.subrange(0, i + 1 - start);
        assert(next.drop_last() =~= pre);
        assert(next.last() == c);
        if !('0' <= c && c <= '9') {
            assert(!is_digit(d[i - start]));
            assert(!all_digits(d));
            assert(parse_u16(s@) is None);
            return None;
        }
        let v = acc * 10 + (c as u32 - '0' as u32);
        if v > 65535 {
            proof {
                assert(digits_value(next) == digits_value(pre) * 10 + (c as nat - '0' as nat));
                lemma_digits_value_prefix(d, i + 1 - start);
                assert(digits_value(d) > u16::MAX);
                assert(parse_u16(s@) is None);
            }
            return None;
        }
        acc = v;
        i = i + 1;
        assert(all_digits(next)) by {
            assert forall|j: int| 0 <= j < next.len() implies is_digit(#[trigger] next[j]) by {
                if j < pre.len() {
                    assert(next[j] == pre[j]);
                }
            }
        }
    }
    assert(d.subrange(0, i - start) =~= d);
    Some(acc as u16)
}

/// The one-character string for a decimal digit.
fn digit_text(d: u16) -> (r: &'static str)
    requires
        d < 10,
    ensures
        r@ == seq![digit_char(d as nat)],
{
    proof {
        reveal_strlit("0");
        reveal_strlit("1");
        reveal_strlit("2");
        reveal_strlit("3");
        reveal_strlit("4");
        reveal_strlit("5");
        reveal_strlit("6");
        reveal_strlit("7");
        reveal_strlit("8");
        reveal_strlit("9");
    }
    match d {
        0 => "0",
        1 => "1",
        2 => "2",
        3 => "3",
        4 => "4",
        5 => "5",
        6 => "6",
        7 => "7",
        8 => "8",
        _ => "9",
    }
}

/// Renders a port number in decimal, without leading zeros.
pub fn decimal_string(n: u16) -> (r: String)
    ensures
        r@ == decimal(n as nat),
    decreases n,
{
    if n < 10 {
        String::from_str(digit_text(n))
    } else {
        let mut s = decimal_string(n / 10);
        s.append(digit_text(n % 10));
        s
    }
}

/// Joins a host and a port for display: the bare host for port 22, else
/// `host:port`.
pub fn display_address(host: &str, port: u16) -> (r: String)
    ensures
        r@ == address_of(host@, port),
{
    let mut r = String::from_str(host);
    if port != 22 {
        proof {
            reveal_strlit(":");
        }
        r.append(":");
        let p = decimal_string(port);
        r.append(p.as_str());
    }
    r
}

/// Right-pads `s`, whose display width is `current`, with spaces up to
/// `width` columns; a string at least that wide is returned unchanged.
pub fn pad_to_width(s: &str, current: usize, width: usize) -> (r: String)
    ensures
        r@ == padded(s@, current as nat, width as nat),
{
    let mut r = String::from_str(s);
    if current < width {
        let mut k: usize = current;
        proof {
            reveal_strlit(" ");
        }
        while k < width
            invariant
                current <= k <= width,
                r@ =~= s@ + spaces((k - current) as nat),
                " "@ == seq![' '],
            decreases width - k,
        {
            r.append(" ");
            k = k + 1;
            assert(r@ =~= s@ + spaces((k - current) as nat));
        }
    }
    r
}

/// Pads `s` to `width` terminal columns, measuring wide characters as such.
pub fn pad_display(s: &str, width: usize) -> (r: String)
    ensures
        r@ == padded(s@, display_width_of(s@), width as nat),
{
    let w = display_width(s);
    pad_to_width(s, w, width)
}

} // verus!
