//! Verified base64 codec. The widget receives the drawing surface's
//! serialized contents as a `data:` URL and recovers the raw image bytes by
//! decoding the base64 payload; the encoder states the format the host's
//! serializer produces, which lets the round trip be proved.

use vstd::prelude::*;
use crate::text::ascii_to_string;
use crate::text::chars_of_bytes;

verus! {

/// The 6-bit value a base64 alphabet character stands for, or -1 if the
/// character is not in the alphabet.
pub open spec fn b64_char_val(c: char) -> int {
    let u = c as int;
    if 65 <= u && u <= 90 {
        u - 65
    } else if 97 <= u && u <= 122 {
        u - 71
    } else if 48 <= u && u <= 57 {
        u + 4
    } else if u == 43 {
        62
    } else if u == 47 {
        63
    } else {
        -1
    }
}

/// The base64 alphabet character for a 6-bit value.
pub open spec fn b64_char(v: int) -> char {
    if v < 26 {
        ((65 + v) as u8) as char
    } else if v < 52 {
        ((71 + v) as u8) as char
    } else if v < 62 {
        ((v - 4) as u8) as char
    } else if v == 62 {
        '+'
    } else {
        '/'
    }
}

/// The alphabet and its values are inverse to each other, and no alphabet
/// character is the padding character.
pub proof fn lemma_b64_char_val(v: int)
    requires
        0 <= v < 64,
    ensures
        b64_char_val(b64_char(v)) == v,
        b64_char(v) != '=',
{
}

/// The bytes a base64 text stands for: groups of four characters carry three
/// bytes, with `=` padding closing a short final group. `None` when the text
/// is not well-formed base64.
pub open spec fn spec_base64_decode(s: Seq<char>) -> Option<Seq<u8>>
    decreases s.len(),
{
    if s.len() == 0 {
        Some(Seq::empty())
    } else if s.len() < 4 {
        None
    } else {
        let v0 = b64_char_val(s[0]);
        let v1 = b64_char_val(s[1]);
        if v0 < 0 || v1 < 0 {
            None
        } else if s.len() == 4 && s[2] == '=' && s[3] == '=' {
            Some(seq![(v0 * 4 + v1 / 16) as u8])
        } else if s.len() == 4 && s[3] == '=' {
            let v2 = b64_char_val(s[2]);
            if v2 < 0 {
                None
            } else {
                Some(seq![(v0 * 4 + v1 / 16) as u8, ((v1 % 16) * 16 + v2 / 4) as u8])
            }
        } else {
            let v2 = b64_char_val(s[2]);
            let v3 = b64_char_val(s[3]);
            if v2 < 0 || v3 < 0 {
                None
            } else {
                match spec_base64_decode(s.skip(4)) {
                    Some(rest) => Some(
                        seq![
                            (v0 * 4 + v1 / 16) as u8,
                            ((v1 % 16) * 16 + v2 / 4) as u8,
                            ((v2 % 4) * 64 + v3) as u8,
                        ] + rest,
                    ),
                    None => None,
                }
            }
        }
    }
}

/// The base64 text for a byte sequence, with `=` padding on a short final
/// group.
pub open spec fn spec_base64_encode(b: Seq<u8>) -> Seq<char>
    decreases b.len(),
{
    if b.len() == 0 {
        Seq::empty()
    } else if b.len() == 1 {
        let b0 = b[0] as int;
        seq![b64_char(b0 / 4), b64_char((b0 % 4) * 16), '=', '=']
    } else if b.len() == 2 {
        let b0 = b[0] as int;
        let b1 = b[1] as int;
        seq![b64_char(b0 / 4), b64_char((b0 % 4) * 16 + b1 / 16), b64_char((b1 % 16) * 4), '=']
    } else {
        let b0 = b[0] as int;
        let b1 = b[1] as int;
        let b2 = b[2] as int;
        seq![
            b64_char(b0 / 4),
            b64_char((b0 % 4) * 16 + b1 / 16),
            b64_char((b1 % 16) * 4 + b2 / 64),
            b64_char(b2 % 64),
        ] + spec_base64_encode(b.skip(3))
    }
}

/// Decoding an encoded byte sequence gives the bytes back.
pub proof fn lemma_base64_round_trip(b: Seq<u8>)
    ensures
        spec_base64_decode(spec_base64_encode(b)) == Some(b),
    decreases b.len(),
{
    if b.len() == 0 {
        assert(b =~= Seq::<u8>::empty());
    } else if b.len() == 1 {
        let b0 = b[0] as int;
        lemma_b64_char_val(b0 / 4);
        lemma_b64_char_val((b0 % 4) * 16);
        let s = spec_base64_encode(b);
        let v0 = b64_char_val(s[0]);
        let v1 = b64_char_val(s[1]);
        assert(v0 == b0 / 4 && v1 == (b0 % 4) * 16);
        assert(v0 * 4 + v1 / 16 == b0);
        assert(spec_base64_decode(s) == Some(seq![(v0 * 4 + v1 / 16) as u8]));
        assert(seq![(v0 * 4 + v1 / 16) as u8] =~= b);
    } else if b.len() == 2 {
        let b0 = b[0] as int;
        let b1 = b[1] as int;
        lemma_b64_char_val(b0 / 4);
        lemma_b64_char_val((b0 % 4) * 16 + b1 / 16);
        lemma_b64_char_val((b1 % 16) * 4);
        let s = spec_base64_encode(b);
        let v0 = b64_char_val(s[0]);
        let v1 = b64_char_val(s[1]);
        let v2 = b64_char_val(s[2]);
        assert(v0 * 4 + v1 / 16 == b0);
        assert((v1 % 16) * 16 + v2 / 4 == b1);
        assert(seq![(v0 * 4 + v1 / 16) as u8, ((v1 % 16) * 16 + v2 / 4) as u8] =~= b);
    } else {
        let b0 = b[0] as int;
        let b1 = b[1] as int;
        let b2 = b[2] as int;
        lemma_b64_char_val(b0 / 4);
        lemma_b64_char_val((b0 % 4) * 16 + b1 / 16);
        lemma_b64_char_val((b1 % 16) * 4 + b2 / 64);
        lemma_b64_char_val(b2 % 64);
        let s = spec_base64_encode(b);
        let v0 = b64_char_val(s[0]);
        let v1 = b64_char_val(s[1]);
        let v2 = b64_char_val(s[2]);
        let v3 = b64_char_val(s[3]);
        assert(v0 * 4 + v1 / 16 == b0);
        assert((v1 % 16) * 16 + v2 / 4 == b1);
        assert((v2 % 4) * 64 + v3 == b2);
        lemma_base64_round_trip(b.skip(3));
        assert(s.skip(4) =~= spec_base64_encode(b.skip(3)));
        assert(s.len() == 4 + spec_base64_encode(b.skip(3)).len());
        assert(spec_base64_encode(b.skip(3)).len() == 0 ==> b.skip(3).len() == 0);
        assert(seq![
            (v0 * 4 + v1 / 16) as u8,
            ((v1 % 16) * 16 + v2 / 4) as u8,
            ((v2 % 4) * 64 + v3) as u8,
        ] + b.skip(3) =~= b);
    }
}

/// The 6-bit value for `c`, or -1; the executable side of `b64_char_val`.
fn b64_val(c: char) -> (v: i32)
    ensures
        v == b64_char_val(c),
{
    let u = c as u32;
    if 65 <= u && u <= 90 {
        (u - 65) as i32
    } else if 97 <= u && u <= 122 {
        (u - 71) as i32
    } else if 48 <= u && u <= 57 {
        (u + 4) as i32
    } else if u == 43 {
        62
    } else if u == 47 {
        63
    } else {
        -1
    }
}

/// Appends the bytes the base64 text `s` stands for to `out`; `false` when
/// `s` is not well-formed, in which case `out` may hold a partial result.
fn decode_push(s: &str, out: &mut Vec<u8>) -> (ok: bool)
    ensures
        match spec_base64_decode(s@) {
            Some(bs) => ok && final(out)@ == old(out)@ + bs,
            None => !ok,
        },
    decreases s@.len(),
{
    let len = s.unicode_len();
    if len == 0 {
        proof {
            assert(old(out)@ + Seq::<u8>::empty() =~= old(out)@);
        }
        return true;
    }
    if len < 4 {
        return false;
    }
    let v0 = b64_val(s.get_char(0));
    let v1 = b64_val(s.get_char(1));
    if v0 < 0 || v1 < 0 {
        return false;
    }
    let c2 = s.get_char(2);
    let c3 = s.get_char(3);
    if len == 4 && c2 == '=' && c3 == '=' {
        out.push((v0 * 4 + v1 / 16) as u8);
        proof {
            assert(final(out)@ =~= old(out)@ + spec_base64_decode(s@).unwrap());
        }
        return true;
    }
    if len == 4 && c3 == '=' {
        let v2 = b64_val(c2);
        if v2 < 0 {
            return false;
        }
        out.push((v0 * 4 + v1 / 16) as u8);
        out.push(((v1 % 16) * 16 + v2 / 4) as u8);
        proof {
            assert(final(out)@ =~= old(out)@ + spec_base64_decode(s@).unwrap());
        }
        return true;
    }
    let v2 = b64_val(c2);
    let v3 = b64_val(c3);
    if v2 < 0 || v3 < 0 {
        return false;
    }
    out.push((v0 * 4 + v1 / 16) as u8);
    out.push(((v1 % 16) * 16 + v2 / 4) as u8);
    out.push(((v2 % 4) * 64 + v3) as u8);
    let ghost mid = out@;
    let rest = s.substring_char(4, len);
    let ok = decode_push(rest, out);
    proof {
        assert(rest@ =~= s@.skip(4));
        if ok {
            match spec_base64_decode(s@.skip(4)) {
                Some(tail) => {
                    assert(final(out)@ =~= old(out)@ + (seq![
                        (v0 * 4 + v1 / 16) as u8,
                        ((v1 % 16) * 16 + v2 / 4) as u8,
                        ((v2 % 4) * 64 + v3) as u8,
                    ] + tail));
                },
                None => {},
            }
        }
    }
    ok
}

/// The bytes the base64 text `s` stands for, or `None` when `s` is not
/// well-formed base64.
pub fn base64_decode(s: &str) -> (r: Option<Vec<u8>>)
    ensures
        match r {
            Some(v) => spec_base64_decode(s@) == Some(v@),
            None => spec_base64_decode(s@) is None,
        },
{
    let mut out: Vec<u8> = Vec::new();
    let ok = decode_push(s, &mut out);
    if ok {
        Some(out)
    } else {
        None
    }
}

/// The ASCII code of the alphabet character for the 6-bit value `v`.
fn encode_val(v: u8) -> (r: u8)
    requires
        v < 64,
    ensures
        r < 128,
        r as char == b64_char(v as int),
{
    if v < 26 {
        65 + v
    } else if v < 52 {
        71 + v
    } else if v < 62 {
        v - 4
    } else if v == 62 {
        43
    } else {
        47
    }
}

/// Appends the base64 text for `b[i..]` to `out`, as ASCII codes.
fn encode_push(b: &Vec<u8>, i: usize, out: &mut Vec<u8>)
    requires
        i <= b@.len(),
        forall|k: int| 0 <= k < old(out)@.len() ==> old(out)@[k] < 128,
    ensures
        forall|k: int| 0 <= k < final(out)@.len() ==> final(out)@[k] < 128,
        chars_of_bytes(final(out)@) == chars_of_bytes(old(out)@) + spec_base64_encode(
            b@.skip(i as int),
        ),
    decreases b@.len() - i,
{
    let n = b.len();
    if i == n {
        proof {
            assert(b@.skip(i as int) =~= Seq::<u8>::empty());
            assert(chars_of_bytes(old(out)@) + Seq::<char>::empty() =~= chars_of_bytes(
                old(out)@,
            ));
        }
        return ;
    }
    let remaining = n - i;
    let b0 = b[i];
    if remaining == 1 {
        out.push(encode_val(b0 / 4));
        out.push(encode_val((b0 % 4) * 16));
        out.push(61);
        out.push(61);
        proof {
            assert(('=' as int) == 61);
            assert(chars_of_bytes(final(out)@) =~= chars_of_bytes(old(out)@)
                + spec_base64_encode(b@.skip(i as int)));
        }
    } else if remaining == 2 {
        let b1 = b[i + 1];
        out.push(encode_val(b0 / 4));
        out.push(encode_val((b0 % 4) * 16 + b1 / 16));
        out.push(encode_val((b1 % 16) * 4));
        out.push(61);
        proof {
            assert(('=' as int) == 61);
            assert(chars_of_bytes(final(out)@) =~= chars_of_bytes(old(out)@)
                + spec_base64_encode(b@.skip(i as int)));
        }
    } else {
        let b1 = b[i + 1];
        let b2 = b[i + 2];
        out.push(encode_val(b0 / 4));
        out.push(encode_val((b0 % 4) * 16 + b1 / 16));
        out.push(encode_val((b1 % 16) * 4 + b2 / 64));
        out.push(encode_val(b2 % 64));
        let ghost mid = out@;
        encode_push(b, i + 3, out);
        proof {
            assert(b@.skip(i as int).skip(3) =~= b@.skip(i + 3));
            assert(chars_of_bytes(mid) =~= chars_of_bytes(old(out)@) + seq![
                b64_char((b0 as int) / 4),
                b64_char(((b0 as int) % 4) * 16 + (b1 as int) / 16),
                b64_char(((b1 as int) % 16) * 4 + (b2 as int) / 64),
                b64_char((b2 as int) % 64),
            ]);
            assert(chars_of_bytes(final(out)@) =~= chars_of_bytes(old(out)@)
                + spec_base64_encode(b@.skip(i as int)));
        }
    }
}

/// The base64 text for `bytes`, as `spec_base64_encode` describes it.
pub fn base64_encode(bytes: &Vec<u8>) -> (r: String)
    ensures
        r@ == spec_base64_encode(bytes@),
{
    let mut out: Vec<u8> = Vec::new();
    encode_push(bytes, 0, &mut out);
    proof {
        assert(bytes@.skip(0) =~= bytes@);
    }
    ascii_to_string(out)
}

} // verus!
