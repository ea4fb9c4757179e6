//! URL-safe Base64 (RFC 4648, alphabet with `-` and `_`, padded with `=`),
//! the encoding that every Qiniu token and signature uses.

use crate::text::{ascii_chars, ascii_string, bytes_are_ascii};
use vstd::prelude::*;

verus! {

/// The padding byte `=`.
pub const PAD: u8 = 61;

/// The alphabet character of a sextet (a value below 64).
pub open spec fn sextet_char(v: u8) -> u8 {
    if v < 26 {
        (v + 65) as u8
    } else if v < 52 {
        (v - 26 + 97) as u8
    } else if v < 62 {
        (v - 52 + 48) as u8
    } else if v == 62 {
        45u8
    } else {
        95u8
    }
}

/// The sextet that an alphabet character stands for, if it is one.
pub open spec fn char_sextet(c: u8) -> Option<u8> {
    if 65 <= c <= 90 {
        Some((c - 65) as u8)
    } else if 97 <= c <= 122 {
        Some((c - 97 + 26) as u8)
    } else if 48 <= c <= 57 {
        Some((c - 48 + 52) as u8)
    } else if c == 45 {
        Some(62u8)
    } else if c == 95 {
        Some(63u8)
    } else {
        None
    }
}

pub open spec fn sx0(b0: u8) -> u8 {
    b0 >> 2u8
}

pub open spec fn sx1(b0: u8, b1: u8) -> u8 {
    ((b0 & 3u8) << 4u8) | (b1 >> 4u8)
}

pub open spec fn sx2(b1: u8, b2: u8) -> u8 {
    ((b1 & 15u8) << 2u8) | (b2 >> 6u8)
}

pub open spec fn sx3(b2: u8) -> u8 {
    b2 & 63u8
}

pub open spec fn oc0(s0: u8, s1: u8) -> u8 {
    (s0 << 2u8) | (s1 >> 4u8)
}

pub open spec fn oc1(s1: u8, s2: u8) -> u8 {
    (s1 << 4u8) | (s2 >> 2u8)
}

pub open spec fn oc2(s2: u8, s3: u8) -> u8 {
    (s2 << 6u8) | s3
}

/// The four characters that encode the group `b0 b1 b2`, of which the first
/// `n` bytes are data (the rest of the group is padding).
pub open spec fn encoded_group(b0: u8, b1: u8, b2: u8, n: int) -> Seq<u8> {
    seq![
        sextet_char(sx0(b0)),
        sextet_char(sx1(b0, b1)),
        if n >= 2 { sextet_char(sx2(b1, b2)) } else { PAD },
        if n >= 3 { sextet_char(sx3(b2)) } else { PAD },
    ]
}

/// URL-safe, padded Base64 encoding of `data`.
pub open spec fn urlsafe_encoding(data: Seq<u8>) -> Seq<u8>
    decreases data.len(),
{
    if data.len() == 0 {
        seq![]
    } else if data.len() == 1 {
        encoded_group(data[0], 0, 0, 1)
    } else if data.len() == 2 {
        encoded_group(data[0], data[1], 0, 2)
    } else {
        encoded_group(data[0], data[1], data[2], 3) + urlsafe_encoding(data.skip(3))
    }
}

/// Decoding of URL-safe, padded Base64 text: the data whose encoding is
/// `text`, or `None` where `text` is no such encoding.
pub open spec fn urlsafe_decoding(text: Seq<u8>) -> Option<Seq<u8>>
    decreases text.len(),
{
    if text.len() == 0 {
        Some(seq![])
    } else if text.len() < 4 {
        None
    } else {
        let c0 = char_sextet(text[0]);
        let c1 = char_sextet(text[1]);
        let c2 = char_sextet(text[2]);
        let c3 = char_sextet(text[3]);
        if c0 is Some && c1 is Some && c2 is Some && c3 is Some {
            match urlsafe_decoding(text.skip(4)) {
                Some(rest) => Some(
                    seq![
                        oc0(c0->0, c1->0),
                        oc1(c1->0, c2->0),
                        oc2(c2->0, c3->0),
                    ] + rest,
                ),
                None => None,
            }
        } else if c0 is Some && c1 is Some && c2 is Some && text[3] == PAD && text.len() == 4 && (
        c2->0 & 3u8) == 0 {
            Some(seq![oc0(c0->0, c1->0), oc1(c1->0, c2->0)])
        } else if c0 is Some && c1 is Some && text[2] == PAD && text[3] == PAD && text.len() == 4
            && (c1->0 & 15u8) == 0 {
            Some(seq![oc0(c0->0, c1->0)])
        } else {
            None
        }
    }
}


proof fn lemma_sextet_char(v: u8)
    requires
        v < 64,
    ensures
        char_sextet(sextet_char(v)) == Some(v),
        sextet_char(v) != PAD,
        sextet_char(v) < 128,
{
}

proof fn lemma_char_sextet(c: u8)
    ensures
        char_sextet(c) matches Some(v) ==> v < 64 && sextet_char(v) == c,
        char_sextet(PAD) is None,
{
}

proof fn lemma_group_roundtrip(b0: u8, b1: u8, b2: u8)
    ensures
        sx0(b0) < 64,
        sx1(b0, b1) < 64,
        sx2(b1, b2) < 64,
        sx3(b2) < 64,
        oc0(sx0(b0), sx1(b0, b1)) == b0,
        oc1(sx1(b0, b1), sx2(b1, b2)) == b1,
        oc2(sx2(b1, b2), sx3(b2)) == b2,
        sx2(b1, 0) & 3u8 == 0,
        sx1(b0, 0) & 15u8 == 0,
        sx3(0) == 0,
        sx2(0, 0) == 0,
{
    assert(sx0(b0) < 64 && sx1(b0, b1) < 64 && sx2(b1, b2) < 64 && sx3(b2) < 64) by (bit_vector);
    assert(oc0(sx0(b0), sx1(b0, b1)) == b0) by (bit_vector);
    assert(oc1(sx1(b0, b1), sx2(b1, b2)) == b1) by (bit_vector);
    assert(oc2(sx2(b1, b2), sx3(b2)) == b2) by (bit_vector);
    assert(sx2(b1, 0) & 3u8 == 0) by (bit_vector);
    assert(sx1(b0, 0) & 15u8 == 0) by (bit_vector);
    assert(sx3(0) == 0 && sx2(0, 0) == 0) by (bit_vector);
}

proof fn lemma_sextets_roundtrip(s0: u8, s1: u8, s2: u8, s3: u8)
    requires
        s0 < 64,
        s1 < 64,
        s2 < 64,
        s3 < 64,
    ensures
        sx0(oc0(s0, s1)) == s0,
        sx1(oc0(s0, s1), oc1(s1, s2)) == s1,
        sx2(oc1(s1, s2), oc2(s2, s3)) == s2,
        sx3(oc2(s2, s3)) == s3,
        (s2 & 3u8) == 0 ==> sx2(oc1(s1, s2), 0) == s2,
        (s1 & 15u8) == 0 ==> sx1(oc0(s0, s1), 0) == s1,
{
    assert(s0 < 64 && s1 < 64 ==> sx0(oc0(s0, s1)) == s0) by (bit_vector);
    assert(s0 < 64 && s1 < 64 && s2 < 64 ==> sx1(oc0(s0, s1), oc1(s1, s2)) == s1) by (bit_vector);
    assert(s1 < 64 && s2 < 64 && s3 < 64 ==> sx2(oc1(s1, s2), oc2(s2, s3)) == s2) by (bit_vector);
    assert(s2 < 64 && s3 < 64 ==> sx3(oc2(s2, s3)) == s3) by (bit_vector);
    assert(s1 < 64 && s2 < 64 && (s2 & 3u8) == 0 ==> sx2(oc1(s1, s2), 0) == s2) by (bit_vector);
    assert(s0 < 64 && s1 < 64 && (s1 & 15u8) == 0 ==> sx1(oc0(s0, s1), 0) == s1) by (bit_vector);
}

/// The encoding is four characters for each started group of three bytes,
/// and all of it is ASCII.
pub proof fn lemma_encoding_shape(data: Seq<u8>)
    ensures
        urlsafe_encoding(data).len() == 4 * ((data.len() + 2) / 3),
        bytes_are_ascii(urlsafe_encoding(data)),
    decreases data.len(),
{
    if data.len() > 0 {
        let b0 = data[0];
        let b1 = if data.len() > 1 { data[1] } else { 0 };
        let b2 = if data.len() > 2 { data[2] } else { 0 };
        lemma_group_roundtrip(b0, b1, b2);
        lemma_sextet_char(sx0(b0));
        lemma_sextet_char(sx1(b0, b1));
        lemma_sextet_char(sx2(b1, b2));
        lemma_sextet_char(sx3(b2));
        if data.len() > 3 {
            lemma_encoding_shape(data.skip(3));
            assert((data.len() + 2) / 3 == (data.skip(3).len() + 2) / 3 + 1);
            assert(urlsafe_encoding(data) == encoded_group(b0, b1, b2, 3) + urlsafe_encoding(
                data.skip(3),
            ));
            assert(urlsafe_encoding(data).len() == 4 + urlsafe_encoding(data.skip(3)).len());
        } else {
            assert(urlsafe_encoding(data) == encoded_group(b0, b1, b2, data.len() as int)
                + urlsafe_encoding(data.skip(3)) || urlsafe_encoding(data) == encoded_group(
                b0,
                b1,
                b2,
                data.len() as int,
            ));
            assert((data.len() + 2) / 3 == 1);
        }
    } else {
        assert((data.len() + 2) / 3 == 0);
    }
}

/// The encoding holds only alphabet characters and `=`: no `:` among them.
pub proof fn lemma_encoding_has_no_colon(data: Seq<u8>)
    ensures
        forall|i: int| 0 <= i < urlsafe_encoding(data).len() ==> #[trigger] urlsafe_encoding(data)[i] != 58u8,
    decreases data.len(),
{
    if data.len() > 0 {
        let b0 = data[0];
        let b1 = if data.len() > 1 { data[1] } else { 0 };
        let b2 = if data.len() > 2 { data[2] } else { 0 };
        lemma_group_roundtrip(b0, b1, b2);
        lemma_sextet_char(sx0(b0));
        lemma_sextet_char(sx1(b0, b1));
        lemma_sextet_char(sx2(b1, b2));
        lemma_sextet_char(sx3(b2));
        let g = encoded_group(b0, b1, b2, if data.len() >= 3 { 3 } else { data.len() as int });
        assert forall|i: int| 0 <= i < g.len() implies #[trigger] g[i] != 58u8 by {}
        if data.len() > 3 {
            lemma_encoding_has_no_colon(data.skip(3));
            let r = urlsafe_encoding(data.skip(3));
            assert(urlsafe_encoding(data) == g + r);
            assert forall|i: int| 0 <= i < urlsafe_encoding(data).len() implies #[trigger] urlsafe_encoding(data)[i] != 58u8 by {
                if i < 4 {
                    assert(urlsafe_encoding(data)[i] == g[i]);
                } else {
                    assert(urlsafe_encoding(data)[i] == r[i - 4]);
                }
            }
        } else if data.len() == 3 {
            assert(urlsafe_encoding(data.skip(3)) =~= Seq::<u8>::empty());
            assert(urlsafe_encoding(data) =~= g);
        } else {
            assert(urlsafe_encoding(data) == g);
        }
    }
}

/// Decoding gives back what was encoded.
pub proof fn lemma_decode_encode(data: Seq<u8>)
    ensures
        urlsafe_decoding(urlsafe_encoding(data)) == Some(data),
    decreases data.len(),
{
    if data.len() > 0 {
        let b0 = data[0];
        let b1 = if data.len() > 1 { data[1] } else { 0 };
        let b2 = if data.len() > 2 { data[2] } else { 0 };
        lemma_group_roundtrip(b0, b1, b2);
        lemma_sextet_char(sx0(b0));
        lemma_sextet_char(sx1(b0, b1));
        lemma_sextet_char(sx2(b1, b2));
        lemma_sextet_char(sx3(b2));
        lemma_char_sextet(PAD);
        let text = urlsafe_encoding(data);
        if data.len() > 3 {
            lemma_decode_encode(data.skip(3));
            assert(text.skip(4) =~= urlsafe_encoding(data.skip(3)));
            assert(seq![b0, b1, b2] + data.skip(3) =~= data);
        } else if data.len() == 3 {
            assert(text.skip(4) =~= Seq::<u8>::empty());
            assert(seq![b0, b1, b2] + Seq::<u8>::empty() =~= data);
        } else if data.len() == 2 {
            assert(seq![b0, b1] =~= data);
        } else {
            assert(seq![b0] =~= data);
        }
    }
}

/// Whatever decodes is the encoding of what it decodes to.
pub proof fn lemma_encode_decode(text: Seq<u8>)
    ensures
        urlsafe_decoding(text) matches Some(data) ==> urlsafe_encoding(data) == text,
    decreases text.len(),
{
    if text.len() >= 4 {
        lemma_char_sextet(text[0]);
        lemma_char_sextet(text[1]);
        lemma_char_sextet(text[2]);
        lemma_char_sextet(text[3]);
        let c0 = char_sextet(text[0]);
        let c1 = char_sextet(text[1]);
        let c2 = char_sextet(text[2]);
        let c3 = char_sextet(text[3]);
        if c0 is Some && c1 is Some && c2 is Some && c3 is Some {
            lemma_encode_decode(text.skip(4));
            lemma_sextets_roundtrip(c0->0, c1->0, c2->0, c3->0);
            if let Some(rest) = urlsafe_decoding(text.skip(4)) {
                let data = urlsafe_decoding(text)->0;
                let head = seq![
                    oc0(c0->0, c1->0),
                    oc1(c1->0, c2->0),
                    oc2(c2->0, c3->0),
                ];
                assert(data =~= head + rest);
                assert(data.skip(3) =~= rest);
                assert(text =~= seq![text[0], text[1], text[2], text[3]] + text.skip(4));
                if rest.len() == 0 {
                    assert(urlsafe_encoding(rest) =~= Seq::<u8>::empty());
                }
            }
        } else if c0 is Some && c1 is Some && c2 is Some && text[3] == PAD && text.len() == 4 && (
        c2->0 & 3u8) == 0 {
            lemma_sextets_roundtrip(c0->0, c1->0, c2->0, 0);
            assert(urlsafe_encoding(urlsafe_decoding(text)->0) =~= text);
        } else if c0 is Some && c1 is Some && text[2] == PAD && text[3] == PAD && text.len() == 4
            && (c1->0 & 15u8) == 0 {
            lemma_sextets_roundtrip(c0->0, c1->0, 0, 0);
            assert(urlsafe_encoding(urlsafe_decoding(text)->0) =~= text);
        }
    }
}

/// Decoding succeeds on exactly the encodings, and undoes them.
pub proof fn lemma_decoding_inverts_encoding(data: Seq<u8>, text: Seq<u8>)
    ensures
        urlsafe_decoding(text) == Some(data) <==> urlsafe_encoding(data) == text,
{
    lemma_decode_encode(data);
    lemma_encode_decode(text);
}

fn sextet_char_exec(v: u8) -> (c: u8)
    requires
        v < 64,
    ensures
        c == sextet_char(v),
{
    if v < 26 {
        v + 65
    } else if v < 52 {
        v - 26 + 97
    } else if v < 62 {
        v - 52 + 48
    } else if v == 62 {
        45
    } else {
        95
    }
}

fn char_sextet_exec(c: u8) -> (r: Option<u8>)
    ensures
        r == char_sextet(c),
{
    if 65 <= c && c <= 90 {
        Some(c - 65)
    } else if 97 <= c && c <= 122 {
        Some(c - 97 + 26)
    } else if 48 <= c && c <= 57 {
        Some(c - 48 + 52)
    } else if c == 45 {
        Some(62)
    } else if c == 95 {
        Some(63)
    } else {
        None
    }
}

/// URL-safe Base64 encoding of `data`, as bytes.
pub fn urlsafe_bytes(data: &[u8]) -> (out: Vec<u8>)
    ensures
        out@ == urlsafe_encoding(data@),
{
    let n = data.len();
    let mut out: Vec<u8> = Vec::new();
    let mut i: usize = 0;
    assert(data@.skip(0) =~= data@);
    while i < n
        invariant
            i <= n,
            n == data@.len(),
            urlsafe_encoding(data@) =~= out@ + urlsafe_encoding(data@.skip(i as int)),
        decreases n - i,
    {
        let ghost rest = data@.skip(i as int);
        let rem = n - i;
        let b0 = data[i];
        let b1 = if rem > 1 { data[i + 1] } else { 0 };
        let b2 = if rem > 2 { data[i + 2] } else { 0 };
        proof {
            lemma_group_roundtrip(b0, b1, b2);
        }
        let s0 = b0 >> 2u8;
        let s1 = ((b0 & 3u8) << 4u8) | (b1 >> 4u8);
        let s2 = ((b1 & 15u8) << 2u8) | (b2 >> 6u8);
        let s3 = b2 & 63u8;
        assert(s0 == sx0(b0) && s1 == sx1(b0, b1) && s2 == sx2(b1, b2) && s3 == sx3(b2));
        let c0 = sextet_char_exec(s0);
        let c1 = sextet_char_exec(s1);
        let c2 = if rem > 1 { sextet_char_exec(s2) } else { PAD };
        let c3 = if rem > 2 { sextet_char_exec(s3) } else { PAD };
        out.push(c0);
        out.push(c1);
        out.push(c2);
        out.push(c3);
        if rem <= 3 {
            assert(data@.skip(n as int) =~= Seq::<u8>::empty());
            if rem == 3 {
                assert(rest.skip(3) =~= Seq::<u8>::empty());
            }
            i = n;
        } else {
            assert(rest.skip(3) =~= data@.skip(i + 3));
            i = i + 3;
        }
    }
    assert(data@.skip(n as int) =~= Seq::<u8>::empty());
    out
}

/// URL-safe Base64 encoding of `data`, as a string.
pub fn urlsafe(data: &[u8]) -> (s: String)
    ensures
        s@ == ascii_chars(urlsafe_encoding(data@)),
{
    proof {
        lemma_encoding_shape(data@);
    }
    ascii_string(urlsafe_bytes(data))
}

/// Decodes URL-safe, padded Base64 text; `None` where the text is no
/// encoding.
pub fn urlsafe_decode(text: &[u8]) -> (res: Option<Vec<u8>>)
    ensures
        match res {
            Some(v) => urlsafe_decoding(text@) == Some(v@),
            None => urlsafe_decoding(text@) is None,
        },
{
    let n = text.len();
    let mut out: Vec<u8> = Vec::new();
    let mut i: usize = 0;
    assert(text@.skip(0) =~= text@);
    while i < n
        invariant
            i <= n,
            n == text@.len(),
            match urlsafe_decoding(text@.skip(i as int)) {
                Some(rest) => urlsafe_decoding(text@) == Some(out@ + rest),
                None => urlsafe_decoding(text@) is None,
            },
        decreases n - i,
    {
        let ghost rest = text@.skip(i as int);
        if n - i < 4 {
            return None;
        }
        let c0 = char_sextet_exec(text[i]);
        let c1 = char_sextet_exec(text[i + 1]);
        let c2 = char_sextet_exec(text[i + 2]);
        let c3 = char_sextet_exec(text[i + 3]);
        assert(rest[0] == text@[i as int] && rest[1] == text@[i + 1] && rest[2] == text@[i + 2]
            && rest[3] == text@[i + 3]);
        match (c0, c1, c2, c3) {
            (Some(s0), Some(s1), Some(s2), Some(s3)) => {
                let o0 = (s0 << 2u8) | (s1 >> 4u8);
                let o1 = (s1 << 4u8) | (s2 >> 2u8);
                let o2 = (s2 << 6u8) | s3;
                assert(o0 == oc0(s0, s1) && o1 == oc1(s1, s2) && o2 == oc2(s2, s3));
                let ghost before = out@;
                out.push(o0);
                out.push(o1);
                out.push(o2);
                assert(rest.skip(4) =~= text@.skip(i + 4));
                proof {
                    if let Some(r) = urlsafe_decoding(text@.skip(i + 4)) {
                        assert(before + (seq![o0, o1, o2] + r) =~= out@ + r);
                    }
                }
                i = i + 4;
            },
            (Some(s0), Some(s1), Some(s2), None) => {
                if n - i == 4 && text[i + 3] == PAD && (s2 & 3u8) == 0 {
                    let o0 = (s0 << 2u8) | (s1 >> 4u8);
                    let o1 = (s1 << 4u8) | (s2 >> 2u8);
                    assert(o0 == oc0(s0, s1) && o1 == oc1(s1, s2));
                    out.push(o0);
                    out.push(o1);
                    return Some(out);
                } else {
                    return None;
                }
            },
            (Some(s0), Some(s1), None, None) => {
                if n - i == 4 && text[i + 2] == PAD && text[i + 3] == PAD && (s1 & 15u8) == 0 {
                    let o0 = (s0 << 2u8) | (s1 >> 4u8);
                    assert(o0 == oc0(s0, s1));
                    out.push(o0);
                    return Some(out);
                } else {
                    return None;
                }
            },
            _ => {
                return None;
            },
        }
    }
    assert(text@.skip(n as int) =~= Seq::<u8>::empty());
    Some(out)
}

} // verus!
