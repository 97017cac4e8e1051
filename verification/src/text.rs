//! Verified text building: decimal renderings, dotted-quad addresses,
//! fixed-width padding and byte-list renderings, each pinned to a spec-level
//! character sequence.

use vstd::prelude::*;
use vstd::string::StringExecFns;
use crate::color::Ipv4Address;

verus! {

/// The character for one decimal digit.
pub open spec fn dec_digit_char(d: int) -> char
    recommends
        0 <= d <= 9,
{
    if d == 0 {
        '0'
    } else if d == 1 {
        '1'
    } else if d == 2 {
        '2'
    } else if d == 3 {
        '3'
    } else if d == 4 {
        '4'
    } else if d == 5 {
        '5'
    } else if d == 6 {
        '6'
    } else if d == 7 {
        '7'
    } else if d == 8 {
        '8'
    } else {
        '9'
    }
}

/// The decimal rendering of a nonnegative number, most significant digit
/// first, with no leading zeros (zero itself renders as one digit).
pub open spec fn dec_str(n: int) -> Seq<char>
    recommends
        n >= 0,
    decreases n,
{
    if n < 10 {
        seq![dec_digit_char(n)]
    } else {
        dec_str(n / 10).push(dec_digit_char(n % 10))
    }
}

/// A run of `n` spaces (empty when `n` is not positive).
pub open spec fn spaces(n: int) -> Seq<char>
    decreases n,
{
    if n <= 0 {
        Seq::<char>::empty()
    } else {
        spaces(n - 1).push(' ')
    }
}

/// `s` right-aligned in a field of `width` characters; text wider than the
/// field is kept whole.
pub open spec fn pad_left(s: Seq<char>, width: int) -> Seq<char> {
    spaces(width - s.len()) + s
}

/// `s` left-aligned in a field of `width` characters; text wider than the
/// field is kept whole.
pub open spec fn pad_right(s: Seq<char>, width: int) -> Seq<char> {
    s + spaces(width - s.len())
}

/// The dotted-quad rendering of an IPv4 address.
pub open spec fn ipv4_text(a: Ipv4Address) -> Seq<char> {
    dec_str(a.o1 as int) + seq!['.'] + dec_str(a.o2 as int) + seq!['.'] + dec_str(a.o3 as int)
        + seq!['.'] + dec_str(a.o4 as int)
}

/// The first `count` bytes of `b` rendered as a bracketed, comma-separated
/// decimal list, the closing bracket still missing.
pub open spec fn byte_list_prefix(b: Seq<u8>, count: int) -> Seq<char>
    recommends
        0 <= count <= b.len(),
    decreases count,
{
    if count <= 0 {
        seq!['[']
    } else if count == 1 {
        byte_list_prefix(b, 0) + dec_str(b[0] as int)
    } else {
        byte_list_prefix(b, count - 1) + seq![',', ' '] + dec_str(b[count - 1] as int)
    }
}

/// A byte sequence rendered as a bracketed, comma-separated decimal list.
pub open spec fn byte_list_text(b: Seq<u8>) -> Seq<char> {
    byte_list_prefix(b, b.len() as int) + seq![']']
}

/// One decimal digit as a borrowed one-character string.
fn digit_str(d: u8) -> (s: &'static str)
    requires
        d <= 9,
    ensures
        s@ == seq![dec_digit_char(d as int)],
{
    proof {
        reveal_strlit("0");
        reveal_strlit("1");
        reveal_strlit("2");
        reveal_strlit("3");
        reveal_strlit("4");
        reveal_strlit("5");
        reveal_strlit("6");
        reveal_strlit("7");
        reveal_strlit("8");
        reveal_strlit("9");
    }
    let s = if d == 0 {
        "0"
    } else if d == 1 {
        "1"
    } else if d == 2 {
        "2"
    } else if d == 3 {
        "3"
    } else if d == 4 {
        "4"
    } else if d == 5 {
        "5"
    } else if d == 6 {
        "6"
    } else if d == 7 {
        "7"
    } else if d == 8 {
        "8"
    } else {
        "9"
    };
    proof {
        assert(s@ =~= seq![dec_digit_char(d as int)]);
    }
    s
}

/// Append the decimal rendering of `n` to `out`.
pub fn append_dec_u16(out: &mut String, n: u16)
    ensures
        final(out)@ == old(out)@ + dec_str(n as int),
    decreases n,
{
    if n < 10 {
        out.append(digit_str(n as u8));
        proof {
            assert(out@ =~= old(out)@ + dec_str(n as int));
        }
    } else {
        append_dec_u16(out, n / 10);
        out.append(digit_str((n % 10) as u8));
        proof {
            assert(out@ =~= old(out)@ + dec_str(n as int));
        }
    }
}

/// Append the decimal rendering of `n` to `out`.
pub fn append_dec_u8(out: &mut String, n: u8)
    ensures
        final(out)@ == old(out)@ + dec_str(n as int),
{
    append_dec_u16(out, n as u16)
}

/// How many characters the decimal rendering of `n` has.
pub fn dec_u16_len(n: u16) -> (len: usize)
    ensures
        len == dec_str(n as int).len(),
{
    proof {
        lemma_dec_str_len(n as int);
    }
    if n < 10 {
        1
    } else if n < 100 {
        2
    } else if n < 1000 {
        3
    } else if n < 10000 {
        4
    } else {
        5
    }
}

/// The decimal rendering of `n` has one character per digit of `n`.
pub proof fn lemma_dec_str_len(n: int)
    requires
        0 <= n <= 65535,
    ensures
        n < 10 ==> dec_str(n).len() == 1,
        10 <= n < 100 ==> dec_str(n).len() == 2,
        100 <= n < 1000 ==> dec_str(n).len() == 3,
        1000 <= n < 10000 ==> dec_str(n).len() == 4,
        10000 <= n ==> dec_str(n).len() == 5,
    decreases n,
{
    if n >= 10 {
        lemma_dec_str_len(n / 10);
    }
}

/// Append the dotted-quad rendering of `a` to `out`.
pub fn append_ipv4(out: &mut String, a: &Ipv4Address)
    ensures
        final(out)@ == old(out)@ + ipv4_text(*a),
{
    proof {
        reveal_strlit(".");
    }
    append_dec_u8(out, a.o1);
    out.append(".");
    append_dec_u8(out, a.o2);
    out.append(".");
    append_dec_u8(out, a.o3);
    out.append(".");
    append_dec_u8(out, a.o4);
    proof {
        assert("."@ =~= seq!['.']);
        assert(out@ =~= old(out)@ + ipv4_text(*a));
    }
}

/// How many characters the dotted-quad rendering of `a` has.
pub fn ipv4_text_len(a: &Ipv4Address) -> (len: usize)
    ensures
        len == ipv4_text(*a).len(),
{
    proof {
        lemma_dec_str_len(a.o1 as int);
        lemma_dec_str_len(a.o2 as int);
        lemma_dec_str_len(a.o3 as int);
        lemma_dec_str_len(a.o4 as int);
    }
    let l1 = dec_u16_len(a.o1 as u16);
    let l2 = dec_u16_len(a.o2 as u16);
    let l3 = dec_u16_len(a.o3 as u16);
    let l4 = dec_u16_len(a.o4 as u16);
    l1 + l2 + l3 + l4 + 3
}

/// Append `n` spaces to `out`.
pub fn append_spaces(out: &mut String, n: usize)
    ensures
        final(out)@ == old(out)@ + spaces(n as int),
{
    let mut i: usize = 0;
    proof {
        reveal_strlit(" ");
        assert(out@ =~= old(out)@ + spaces(0));
    }
    while i < n
        invariant
            0 <= i <= n,
            out@ == old(out)@ + spaces(i as int),
        decreases n - i,
    {
        out.append(" ");
        proof {
            reveal_strlit(" ");
            assert(" "@ =~= seq![' ']);
            assert(out@ =~= old(out)@ + spaces(i as int + 1));
        }
        i = i + 1;
    }
}

/// Append the bracketed decimal list rendering of `payload` to `out`.
pub fn append_byte_list(out: &mut String, payload: &Vec<u8>)
    ensures
        final(out)@ == old(out)@ + byte_list_text(payload@),
{
    proof {
        reveal_strlit("[");
        reveal_strlit("]");
        reveal_strlit(", ");
        assert("["@ =~= seq!['[']);
        assert("]"@ =~= seq![']']);
        assert(", "@ =~= seq![',', ' ']);
    }
    out.append("[");
    let n = payload.len();
    let mut i: usize = 0;
    while i < n
        invariant
            0 <= i <= n,
            n == payload@.len(),
            out@ == old(out)@ + byte_list_prefix(payload@, i as int),
        decreases n - i,
    {
        if i > 0 {
            out.append(", ");
        }
        append_dec_u8(out, payload[i]);
        proof {
            reveal_strlit(", ");
            assert(", "@ =~= seq![',', ' ']);
            assert(byte_list_prefix(payload@, 0) == seq!['[']);
            assert(out@ =~= old(out)@ + byte_list_prefix(payload@, i as int + 1));
        }
        i = i + 1;
    }
    out.append("]");
    proof {
        assert(out@ =~= old(out)@ + byte_list_text(payload@));
    }
}

} // verus!
