//! Rendering of typed values into URL query strings: decimal numbers,
//! percent-encoding of text, and `key=value` pair lists.

use vstd::prelude::*;
use vstd::utf8::char_is_scalar;
use vstd::utf8::encode_scalar;

verus! {

/// The character standing for a value below sixteen, upper case.
pub open spec fn spec_hex_char(d: u8) -> char {
    match d {
        0 => '0',
        1 => '1',
        2 => '2',
        3 => '3',
        4 => '4',
        5 => '5',
        6 => '6',
        7 => '7',
        8 => '8',
        9 => '9',
        10 => 'A',
        11 => 'B',
        12 => 'C',
        13 => 'D',
        14 => 'E',
        _ => 'F',
    }
}

fn hex_char(d: u8) -> (c: char)
    requires
        d < 16,
    ensures
        c == spec_hex_char(d),
{
    match d {
        0 => '0',
        1 => '1',
        2 => '2',
        3 => '3',
        4 => '4',
        5 => '5',
        6 => '6',
        7 => '7',
        8 => '8',
        9 => '9',
        10 => 'A',
        11 => 'B',
        12 => 'C',
        13 => 'D',
        14 => 'E',
        _ => 'F',
    }
}

/// The decimal rendering of a number, without sign or leading zeros
/// (a lone zero renders as "0").
pub open spec fn spec_dec(n: nat) -> Seq<char>
    decreases n,
{
    if n < 10 {
        seq![spec_hex_char(n as u8)]
    } else {
        spec_dec(n / 10) + seq![spec_hex_char((n % 10) as u8)]
    }
}

/// A query component travels these characters unescaped: ASCII letters,
/// digits, `-`, `.`, `_` and `~`.
pub open spec fn is_unreserved(c: char) -> bool {
    let n = c as u32;
    (0x61 <= n && n <= 0x7A)  // a-z
     || (0x41 <= n && n <= 0x5A)  // A-Z
     || (0x30 <= n && n <= 0x39)  // 0-9
     || n == 0x2D || n == 0x2E || n == 0x5F || n == 0x7E
}

/// `%XY`, the escape of a single byte.
pub open spec fn spec_pct_byte(b: u8) -> Seq<char> {
    seq!['%', spec_hex_char(b / 16), spec_hex_char(b % 16)]
}

pub open spec fn spec_pct_bytes(bs: Seq<u8>) -> Seq<char>
    decreases bs.len(),
{
    if bs.len() == 0 {
        Seq::empty()
    } else {
        spec_pct_byte(bs[0]) + spec_pct_bytes(bs.drop_first())
    }
}

/// Percent-encoding of one character: unreserved characters stand for
/// themselves, every other character becomes the escapes of its UTF-8 bytes.
pub open spec fn spec_encode_char(c: char) -> Seq<char> {
    if is_unreserved(c) {
        seq![c]
    } else {
        spec_pct_bytes(encode_scalar(c as u32))
    }
}

/// Percent-encoding of a whole text.
pub open spec fn spec_encode(s: Seq<char>) -> Seq<char>
    decreases s.len(),
{
    if s.len() == 0 {
        Seq::empty()
    } else {
        spec_encode_char(s[0]) + spec_encode(s.drop_first())
    }
}

/// One rendered pair, both sides percent-encoded.
pub open spec fn spec_pair(k: Seq<char>, v: Seq<char>) -> Seq<char> {
    spec_encode(k) + seq!['='] + spec_encode(v)
}

/// A pair list rendered as `k1=v1&k2=v2&...`; empty for no pairs.
pub open spec fn spec_render_pairs(ps: Seq<(Seq<char>, Seq<char>)>) -> Seq<char>
    decreases ps.len(),
{
    if ps.len() == 0 {
        Seq::empty()
    } else if ps.len() == 1 {
        spec_pair(ps[0].0, ps[0].1)
    } else {
        spec_render_pairs(ps.drop_last()) + seq!['&'] + spec_pair(ps.last().0, ps.last().1)
    }
}

proof fn lemma_pct_bytes_nil()
    ensures
        spec_pct_bytes(Seq::<u8>::empty()) == Seq::<char>::empty(),
{
}

proof fn lemma_pct_bytes_cons(b: u8, rest: Seq<u8>)
    ensures
        spec_pct_bytes(seq![b] + rest) == spec_pct_byte(b) + spec_pct_bytes(rest),
{
    assert((seq![b] + rest)[0] == b);
    assert((seq![b] + rest).drop_first() =~= rest);
}

/// Relies on `String::push` of std: appends exactly one character.
#[verifier::external_body]
pub(crate) fn push_char(s: &mut String, c: char)
    ensures
        final(s)@ == old(s)@.push(c),
{
    s.push(c);
}

fn push_pct_byte(s: &mut String, b: u8)
    ensures
        final(s)@ == old(s)@ + spec_pct_byte(b),
{
    push_char(s, '%');
    push_char(s, hex_char(b / 16));
    push_char(s, hex_char(b % 16));
    proof {
        assert(old(s)@.push('%').push(spec_hex_char(b / 16)).push(spec_hex_char(b % 16)) =~= old(
            s,
        )@ + spec_pct_byte(b));
    }
}

fn push_encoded_char(s: &mut String, c: char)
    ensures
        final(s)@ == old(s)@ + spec_encode_char(c),
{
    let n = c as u32;
    if (0x61 <= n && n <= 0x7A) || (0x41 <= n && n <= 0x5A) || (0x30 <= n && n <= 0x39) || n
        == 0x2D || n == 0x2E || n == 0x5F || n == 0x7E {
        push_char(s, c);
        proof {
            assert(old(s)@.push(c) =~= old(s)@ + seq![c]);
        }
    } else {
        proof {
            char_is_scalar(c);
        }
        if n <= 0x7F {
            push_pct_byte(s, (n & 0x7F) as u8);
            proof {
                let bs = encode_scalar(c as u32);
                let b0: u8 = (n & 0x7F) as u8;
                assert(bs =~= seq![b0] + Seq::<u8>::empty());
                lemma_pct_bytes_cons(b0, Seq::<u8>::empty());
                lemma_pct_bytes_nil();
                assert(old(s)@ + spec_pct_byte(b0) =~= old(s)@ + spec_pct_bytes(bs));
            }
        } else if n <= 0x7FF {
            let b0: u8 = 0xC0 | (((n >> 6) & 0x1F) as u8);
            let b1: u8 = 0x80 | ((n & 0x3F) as u8);
            push_pct_byte(s, b0);
            push_pct_byte(s, b1);
            proof {
                let bs = encode_scalar(c as u32);
                assert(bs =~= seq![b0] + (seq![b1] + Seq::<u8>::empty()));
                lemma_pct_bytes_cons(b0, seq![b1] + Seq::<u8>::empty());
                lemma_pct_bytes_cons(b1, Seq::<u8>::empty());
                lemma_pct_bytes_nil();
                assert(old(s)@ + spec_pct_byte(b0) + spec_pct_byte(b1) =~= old(s)@ + spec_pct_bytes(
                    bs,
                ));
            }
        } else if n <= 0xFFFF {
            let b0: u8 = 0xE0 | (((n >> 12) & 0x0F) as u8);
            let b1: u8 = 0x80 | (((n >> 6) & 0x3F) as u8);
            let b2: u8 = 0x80 | ((n & 0x3F) as u8);
            push_pct_byte(s, b0);
            push_pct_byte(s, b1);
            push_pct_byte(s, b2);
            proof {
                let bs = encode_scalar(c as u32);
                assert(bs =~= seq![b0] + (seq![b1] + (seq![b2] + Seq::<u8>::empty())));
                lemma_pct_bytes_cons(b0, seq![b1] + (seq![b2] + Seq::<u8>::empty()));
                lemma_pct_bytes_cons(b1, seq![b2] + Seq::<u8>::empty());
                lemma_pct_bytes_cons(b2, Seq::<u8>::empty());
                lemma_pct_bytes_nil();
                assert(old(s)@ + spec_pct_byte(b0) + spec_pct_byte(b1) + spec_pct_byte(b2) =~= old(
                    s,
                )@ + spec_pct_bytes(bs));
            }
        } else {
            let b0: u8 = 0xF0 | (((n >> 18) & 0x7) as u8);
            let b1: u8 = 0x80 | (((n >> 12) & 0x3F) as u8);
            let b2: u8 = 0x80 | (((n >> 6) & 0x3F) as u8);
            let b3: u8 = 0x80 | ((n & 0x3F) as u8);
            push_pct_byte(s, b0);
            push_pct_byte(s, b1);
            push_pct_byte(s, b2);
            push_pct_byte(s, b3);
            proof {
                let bs = encode_scalar(c as u32);
                assert(bs =~= seq![b0] + (seq![b1] + (seq![b2] + (seq![b3] + Seq::<u8>::empty()))));
                lemma_pct_bytes_cons(b0, seq![b1] + (seq![b2] + (seq![b3] + Seq::<u8>::empty())));
                lemma_pct_bytes_cons(b1, seq![b2] + (seq![b3] + Seq::<u8>::empty()));
                lemma_pct_bytes_cons(b2, seq![b3] + Seq::<u8>::empty());
                lemma_pct_bytes_cons(b3, Seq::<u8>::empty());
                lemma_pct_bytes_nil();
                assert(old(s)@ + spec_pct_byte(b0) + spec_pct_byte(b1) + spec_pct_byte(b2)
                    + spec_pct_byte(b3) =~= old(s)@ + spec_pct_bytes(bs));
            }
        }
    }
}

proof fn lemma_encode_snoc(s: Seq<char>, c: char)
    ensures
        spec_encode(s.push(c)) == spec_encode(s) + spec_encode_char(c),
    decreases s.len(),
{
    if s.len() == 0 {
        assert(s.push(c)[0] == c);
        assert(s.push(c).drop_first() =~= Seq::<char>::empty());
        assert(spec_encode(Seq::<char>::empty()) == Seq::<char>::empty());
        assert(spec_encode(s.push(c)) == spec_encode_char(c) + Seq::<char>::empty());
        assert(spec_encode_char(c) + Seq::<char>::empty() =~= spec_encode(s) + spec_encode_char(c));
    } else {
        assert(s.push(c)[0] == s[0]);
        assert(s.push(c).drop_first() =~= s.drop_first().push(c));
        lemma_encode_snoc(s.drop_first(), c);
        assert(spec_encode(s.push(c)) == spec_encode_char(s[0]) + (spec_encode(s.drop_first())
            + spec_encode_char(c)));
        assert(spec_encode_char(s[0]) + (spec_encode(s.drop_first()) + spec_encode_char(c)) =~= (
        spec_encode_char(s[0]) + spec_encode(s.drop_first())) + spec_encode_char(c));
    }
}

/// Appends the percent-encoding of `input` onto `s`.
pub(crate) fn push_encoded(s: &mut String, input: &str)
    ensures
        final(s)@ == old(s)@ + spec_encode(input@),
{
    let len = input.unicode_len();
    let mut i: usize = 0;
    while i < len
        invariant
            i <= len,
            len == input@.len(),
            s@ == old(s)@ + spec_encode(input@.take(i as int)),
        decreases len - i,
    {
        let c = input.get_char(i);
        push_encoded_char(s, c);
        proof {
            assert(input@.take(i + 1) =~= input@.take(i as int).push(input@[i as int]));
            lemma_encode_snoc(input@.take(i as int), input@[i as int]);
        }
        i += 1;
    }
    proof {
        assert(input@.take(len as int) =~= input@);
    }
}

/// Appends the decimal rendering of `n` onto `s`.
pub(crate) fn push_dec(s: &mut String, n: u32)
    ensures
        final(s)@ == old(s)@ + spec_dec(n as nat),
    decreases n,
{
    if n < 10 {
        push_char(s, hex_char(n as u8));
        proof {
            assert(old(s)@.push(spec_hex_char(n as u8)) =~= old(s)@ + spec_dec(n as nat));
        }
    } else {
        push_dec(s, n / 10);
        push_char(s, hex_char((n % 10) as u8));
        proof {
            assert((old(s)@ + spec_dec((n / 10) as nat)).push(spec_hex_char((n % 10) as u8)) =~=
            old(s)@ + spec_dec(n as nat));
        }
    }
}

/// Renders a pair list as a query string, `k1=v1&k2=v2&...`.
pub fn render_pairs(pairs: &Vec<(String, String)>) -> (r: String)
    ensures
        r@ == spec_render_pairs(pairs.deep_view()),
{
    let ghost dv = pairs.deep_view();
    proof {
        assert(dv.len() == pairs@.len());
    }
    let mut s = String::new();
    let mut i: usize = 0;
    while i < pairs.len()
        invariant
            i <= pairs@.len(),
            dv == pairs.deep_view(),
            dv.len() == pairs@.len(),
            s@ == spec_render_pairs(dv.take(i as int)),
        decreases pairs@.len() - i,
    {
        if i > 0 {
            push_char(&mut s, '&');
        }
        let ghost s_mid = s@;
        let pair = &pairs[i];
        push_encoded(&mut s, pair.0.as_str());
        push_char(&mut s, '=');
        push_encoded(&mut s, pair.1.as_str());
        proof {
            assert(dv[i as int] == (pairs@[i as int].0@, pairs@[i as int].1@));
            assert(s@ =~= s_mid + spec_pair(dv[i as int].0, dv[i as int].1));
            assert(dv.take(i + 1).drop_last() =~= dv.take(i as int));
            assert(dv.take(i + 1).last() == dv[i as int]);
            assert(s@ =~= spec_render_pairs(dv.take(i + 1)));
        }
        i += 1;
    }
    proof {
        assert(dv.take(dv.len() as int) =~= dv);
    }
    s
}

} // verus!
