//! Byte and character helpers shared by the signing code: ASCII views,
//! decimal numbers, case folding and lexicographic order.

use vstd::prelude::*;
use vstd::utf8::*;

verus! {

/// Bytes read as the characters of the same code.
pub open spec fn ascii_chars(b: Seq<u8>) -> Seq<char> {
    b.map_values(|x: u8| x as char)
}

/// Characters read as the bytes of the same code.
pub open spec fn ascii_bytes(c: Seq<char>) -> Seq<u8> {
    c.map_values(|x: char| x as u8)
}

/// Every byte is ASCII.
pub open spec fn bytes_are_ascii(b: Seq<u8>) -> bool {
    forall|i: int| 0 <= i < b.len() ==> #[trigger] b[i] < 128
}

/// The UTF-8 bytes of ASCII characters are their codes.
pub proof fn lemma_ascii_utf8(c: Seq<char>)
    requires
        is_ascii_chars(c),
    ensures
        encode_utf8(c) == ascii_bytes(c),
{
    is_ascii_chars_encode_utf8(c);
    assert(encode_utf8(c) =~= ascii_bytes(c));
}

/// ASCII bytes read as characters are UTF-8 encoded back to themselves.
pub proof fn lemma_ascii_roundtrip(b: Seq<u8>)
    requires
        bytes_are_ascii(b),
    ensures
        encode_utf8(ascii_chars(b)) == b,
{
    let c = ascii_chars(b);
    assert forall|i: int| 0 <= i < c.len() implies '\0' <= #[trigger] c[i] <= '\u{7f}' by {
        assert(b[i] < 128);
    }
    lemma_ascii_utf8(c);
    assert(ascii_bytes(c) =~= b);
}

/// Builds a `String` from ASCII bytes, with `String::from_utf8` of std,
/// which accepts every ASCII byte sequence and keeps each byte as the
/// character of the same code.
#[verifier::external_body]
pub(crate) fn ascii_string(bytes: Vec<u8>) -> (s: String)
    requires
        bytes_are_ascii(bytes@),
    ensures
        s@ == ascii_chars(bytes@),
{
    String::from_utf8(bytes).unwrap()
}

/// Appends the UTF-8 bytes of `s`.
pub fn push_str_bytes(out: &mut Vec<u8>, s: &str)
    ensures
        final(out)@ == old(out)@ + encode_utf8(s@),
{
    let b = s.as_bytes();
    let mut i: usize = 0;
    let ghost start = out@;
    while i < b.len()
        invariant
            i <= b@.len(),
            b@ == encode_utf8(s@),
            out@ == start + b@.subrange(0, i as int),
        decreases b@.len() - i,
    {
        out.push(b[i]);
        assert(b@.subrange(0, i + 1) =~= b@.subrange(0, i as int).push(b@[i as int]));
        i = i + 1;
    }
    assert(b@.subrange(0, b@.len() as int) =~= b@);
}

/// Appends bytes.
pub fn push_bytes(out: &mut Vec<u8>, b: &[u8])
    ensures
        final(out)@ == old(out)@ + b@,
{
    let mut i: usize = 0;
    let ghost start = out@;
    while i < b.len()
        invariant
            i <= b@.len(),
            out@ == start + b@.subrange(0, i as int),
        decreases b@.len() - i,
    {
        out.push(b[i]);
        assert(b@.subrange(0, i + 1) =~= b@.subrange(0, i as int).push(b@[i as int]));
        i = i + 1;
    }
    assert(b@.subrange(0, b@.len() as int) =~= b@);
}

/// The decimal digits of `n`, most significant first, without leading zeros
/// (`0` is one digit).
pub open spec fn decimal(n: nat) -> Seq<u8>
    decreases n,
{
    if n < 10 {
        seq![(48 + n) as u8]
    } else {
        decimal(n / 10).push((48 + n % 10) as u8)
    }
}

pub proof fn lemma_decimal_ascii(n: nat)
    ensures
        bytes_are_ascii(decimal(n)),
        decimal(n).len() >= 1,
    decreases n,
{
    if n >= 10 {
        lemma_decimal_ascii(n / 10);
    }
}

/// The decimal digits of `n`.
pub fn decimal_bytes(n: u64) -> (out: Vec<u8>)
    ensures
        out@ == decimal(n as nat),
    decreases n,
{
    if n < 10 {
        let mut v: Vec<u8> = Vec::new();
        v.push(48 + n as u8);
        v
    } else {
        let mut v = decimal_bytes(n / 10);
        v.push(48 + (n % 10) as u8);
        v
    }
}

/// `n` written in decimal, as `to_string` writes it.
pub fn decimal_string(n: u64) -> (s: String)
    ensures
        s@ == ascii_chars(decimal(n as nat)),
{
    proof {
        lemma_decimal_ascii(n as nat);
    }
    ascii_string(decimal_bytes(n))
}

/// A signed integer written in decimal, as `to_string` writes it: a minus
/// sign before the digits of a negative number.
pub open spec fn signed_decimal(n: int) -> Seq<char> {
    if n < 0 {
        seq!['-'] + ascii_chars(decimal((-n) as nat))
    } else {
        ascii_chars(decimal(n as nat))
    }
}

/// `n` written in decimal, as `to_string` writes it.
pub fn signed_decimal_string(n: i64) -> (s: String)
    ensures
        s@ == signed_decimal(n as int),
{
    if n >= 0 {
        decimal_string(n as u64)
    } else {
        let m: u64 = if n == i64::MIN {
            9223372036854775808u64
        } else {
            (-n) as u64
        };
        let mut bytes: Vec<u8> = Vec::new();
        bytes.push(45u8);
        let digits = decimal_bytes(m);
        let ghost d = digits@;
        let mut i: usize = 0;
        while i < digits.len()
            invariant
                i <= digits@.len(),
                d == digits@,
                bytes@ == seq![45u8] + d.subrange(0, i as int),
            decreases digits@.len() - i,
        {
            bytes.push(digits[i]);
            i = i + 1;
            assert(bytes@ =~= seq![45u8] + d.subrange(0, i as int));
        }
        proof {
            lemma_decimal_ascii(m as nat);
            assert(d.subrange(0, d.len() as int) =~= d);
            assert(ascii_chars(bytes@) =~= seq!['-'] + ascii_chars(d));
        }
        ascii_string(bytes)
    }
}

/// The index of the first byte `x` in `b` at or after `from`, or the length
/// of `b` where there is none.
pub open spec fn index_of_byte(b: Seq<u8>, x: u8, from: int) -> int
    decreases b.len() - from,
{
    if from < 0 || from >= b.len() {
        b.len() as int
    } else if b[from] == x {
        from
    } else {
        index_of_byte(b, x, from + 1)
    }
}

pub proof fn lemma_index_of_byte(b: Seq<u8>, x: u8, from: int)
    requires
        0 <= from <= b.len(),
    ensures
        from <= index_of_byte(b, x, from) <= b.len(),
        index_of_byte(b, x, from) < b.len() ==> b[index_of_byte(b, x, from)] == x,
        forall|j: int| from <= j < index_of_byte(b, x, from) ==> b[j] != x,
    decreases b.len() - from,
{
    if from < b.len() && b[from] != x {
        lemma_index_of_byte(b, x, from + 1);
    }
}

/// The UTF-8 encoding of a concatenation is the concatenation of the
/// encodings.
pub proof fn lemma_encode_utf8_concat(a: Seq<char>, b: Seq<char>)
    ensures
        encode_utf8(a + b) == encode_utf8(a) + encode_utf8(b),
    decreases a.len(),
{
    if a.len() > 0 {
        assert((a + b).drop_first() =~= a.drop_first() + b);
        assert((a + b)[0] == a[0]);
        lemma_encode_utf8_concat(a.drop_first(), b);
        assert(encode_utf8(a + b) =~= encode_utf8(a) + encode_utf8(b));
    } else {
        assert(a + b =~= b);
        assert(encode_utf8(a) =~= Seq::<u8>::empty());
        assert(encode_utf8(a) + encode_utf8(b) =~= encode_utf8(b));
    }
}

/// Where `b[k]` is the first `x` at or after `from`, it is what
/// `index_of_byte` finds.
pub proof fn lemma_index_of_byte_is(b: Seq<u8>, x: u8, from: int, k: int)
    requires
        0 <= from <= k < b.len(),
        b[k] == x,
        forall|j: int| from <= j < k ==> b[j] != x,
    ensures
        index_of_byte(b, x, from) == k,
    decreases k - from,
{
    if from < k {
        lemma_index_of_byte_is(b, x, from + 1, k);
    }
}

/// In valid UTF-8, an ASCII byte starts a character.
pub proof fn lemma_ascii_byte_is_char_boundary(bytes: Seq<u8>, i: int)
    requires
        valid_utf8(bytes),
        0 <= i < bytes.len(),
        bytes[i] < 128,
    ensures
        is_char_boundary(bytes, i),
    decreases bytes.len(),
{
    if i > 0 {
        let n = length_of_first_scalar(bytes);
        assert(valid_first_scalar(bytes));
        assert(i >= n);
        let tail = pop_first_scalar(bytes);
        assert(tail.len() < bytes.len());
        assert(tail[i - n] == bytes[i]);
        lemma_ascii_byte_is_char_boundary(tail, i - n);
    }
}

/// In valid UTF-8 that starts with an ASCII byte, the second byte starts
/// a character (or is the end).
proof fn lemma_boundary_after_ascii_byte(bytes: Seq<u8>)
    requires
        valid_utf8(bytes),
        bytes.len() >= 1,
        bytes[0] < 128,
    ensures
        is_char_boundary(bytes, 1),
{
    assert(length_of_first_scalar(bytes) == 1);
    reveal_with_fuel(is_char_boundary, 2);
}

/// Splits `s` at its first `:`: what comes before it, and what comes after
/// it where there is one.
pub fn split_at_first_colon(s: &str) -> (r: (&str, Option<&str>))
    ensures
        ({
            let b = encode_utf8(s@);
            let i = index_of_byte(b, 58u8, 0);
            &&& encode_utf8(r.0@) == b.take(i)
            &&& match r.1 {
                Some(rest) => i < b.len() && encode_utf8(rest@) == b.skip(i + 1),
                None => i == b.len(),
            }
        }),
{
    let bytes = s.as_bytes();
    let ghost b = encode_utf8(s@);
    proof {
        lemma_index_of_byte(b, 58u8, 0);
        encode_utf8_valid_utf8(s@);
    }
    let mut i: usize = 0;
    while i < bytes.len() && bytes[i] != 58u8
        invariant
            bytes@ == b,
            i <= bytes.len(),
            forall|j: int| 0 <= j < i ==> b[j] != 58u8,
            index_of_byte(b, 58u8, 0) >= i,
            index_of_byte(b, 58u8, 0) <= b.len(),
            index_of_byte(b, 58u8, 0) < b.len() ==> b[index_of_byte(b, 58u8, 0)] == 58u8,
            forall|j: int| 0 <= j < index_of_byte(b, 58u8, 0) ==> b[j] != 58u8,
        decreases bytes.len() - i,
    {
        i = i + 1;
    }
    assert(i == index_of_byte(b, 58u8, 0));
    if i == bytes.len() {
        assert(b.take(i as int) =~= b);
        (s, None)
    } else {
        proof {
            lemma_ascii_byte_is_char_boundary(b, i as int);
        }
        let (head, rest) = s.split_at(i);
        proof {
            encode_utf8_valid_utf8(rest@);
            assert(encode_utf8(rest@)[0] == 58u8);
            lemma_boundary_after_ascii_byte(encode_utf8(rest@));
        }
        let (_, tail) = rest.split_at(1);
        proof {
            assert(encode_utf8(tail@) =~= b.skip(i + 1));
            assert(encode_utf8(head@) =~= b.take(i as int));
        }
        (head, Some(tail))
    }
}

/// ASCII lower case of a byte.
pub open spec fn lower(b: u8) -> u8 {
    if 65 <= b <= 90 {
        (b + 32) as u8
    } else {
        b
    }
}

/// ASCII upper case of a byte.
pub open spec fn upper(b: u8) -> u8 {
    if 97 <= b <= 122 {
        (b - 32) as u8
    } else {
        b
    }
}

/// Equality that ignores ASCII case.
pub open spec fn eq_ignore_ascii_case(a: Seq<u8>, b: Seq<u8>) -> bool {
    a.len() == b.len() && forall|i: int| 0 <= i < a.len() ==> lower(#[trigger] a[i]) == lower(b[i])
}

pub fn lower_exec(b: u8) -> (r: u8)
    ensures
        r == lower(b),
{
    if 65 <= b && b <= 90 {
        b + 32
    } else {
        b
    }
}

pub fn upper_exec(b: u8) -> (r: u8)
    ensures
        r == upper(b),
{
    if 97 <= b && b <= 122 {
        b - 32
    } else {
        b
    }
}

/// Compares two byte strings ignoring ASCII case.
pub fn bytes_eq_ignore_ascii_case(a: &[u8], b: &[u8]) -> (r: bool)
    ensures
        r == eq_ignore_ascii_case(a@, b@),
{
    if a.len() != b.len() {
        return false;
    }
    let mut i: usize = 0;
    while i < a.len()
        invariant
            a@.len() == b@.len(),
            i <= a@.len(),
            forall|j: int| 0 <= j < i ==> lower(#[trigger] a@[j]) == lower(b@[j]),
        decreases a@.len() - i,
    {
        if lower_exec(a[i]) != lower_exec(b[i]) {
            return false;
        }
        i = i + 1;
    }
    true
}

/// Compares two byte strings.
pub fn bytes_eq(a: &[u8], b: &[u8]) -> (r: bool)
    ensures
        r == (a@ == b@),
{
    if a.len() != b.len() {
        return false;
    }
    let mut i: usize = 0;
    while i < a.len()
        invariant
            a@.len() == b@.len(),
            i <= a@.len(),
            forall|j: int| 0 <= j < i ==> #[trigger] a@[j] == b@[j],
        decreases a@.len() - i,
    {
        if a[i] != b[i] {
            return false;
        }
        i = i + 1;
    }
    assert(a@ =~= b@);
    true
}

/// Lexicographic order of byte strings (the order of `Ord` on `[u8]`).
pub open spec fn bytes_lt(a: Seq<u8>, b: Seq<u8>) -> bool
    decreases a.len(),
{
    if a.len() == 0 {
        b.len() > 0
    } else if b.len() == 0 {
        false
    } else if a[0] != b[0] {
        a[0] < b[0]
    } else {
        bytes_lt(a.drop_first(), b.drop_first())
    }
}

pub proof fn lemma_bytes_lt_irreflexive(a: Seq<u8>)
    ensures
        !bytes_lt(a, a),
    decreases a.len(),
{
    if a.len() > 0 {
        lemma_bytes_lt_irreflexive(a.drop_first());
    }
}

pub proof fn lemma_bytes_lt_total(a: Seq<u8>, b: Seq<u8>)
    ensures
        a == b || bytes_lt(a, b) || bytes_lt(b, a),
    decreases a.len(),
{
    if a.len() > 0 && b.len() > 0 && a[0] == b[0] {
        lemma_bytes_lt_total(a.drop_first(), b.drop_first());
        if a.drop_first() == b.drop_first() {
            assert(a =~= seq![a[0]] + a.drop_first());
            assert(b =~= seq![b[0]] + b.drop_first());
        }
    }
}

pub proof fn lemma_bytes_lt_asymmetric(a: Seq<u8>, b: Seq<u8>)
    ensures
        bytes_lt(a, b) ==> !bytes_lt(b, a),
    decreases a.len(),
{
    if a.len() > 0 && b.len() > 0 && a[0] == b[0] {
        lemma_bytes_lt_asymmetric(a.drop_first(), b.drop_first());
    }
}

pub proof fn lemma_bytes_lt_transitive(a: Seq<u8>, b: Seq<u8>, c: Seq<u8>)
    ensures
        bytes_lt(a, b) && bytes_lt(b, c) ==> bytes_lt(a, c),
    decreases a.len(),
{
    if a.len() > 0 && b.len() > 0 && c.len() > 0 && a[0] == b[0] && b[0] == c[0] {
        lemma_bytes_lt_transitive(a.drop_first(), b.drop_first(), c.drop_first());
    }
}

/// `a < b` in lexicographic order.
pub fn bytes_less(a: &[u8], b: &[u8]) -> (r: bool)
    ensures
        r == bytes_lt(a@, b@),
{
    let mut i: usize = 0;
    assert(a@.skip(0) =~= a@);
    assert(b@.skip(0) =~= b@);
    while i < a.len() && i < b.len()
        invariant
            i <= a@.len(),
            i <= b@.len(),
            a@.subrange(0, i as int) == b@.subrange(0, i as int),
            bytes_lt(a@, b@) == bytes_lt(a@.skip(i as int), b@.skip(i as int)),
        decreases a@.len() - i,
    {
        assert(a@.skip(i as int)[0] == a@[i as int]);
        assert(b@.skip(i as int)[0] == b@[i as int]);
        if a[i] != b[i] {
            return a[i] < b[i];
        }
        assert(a@.skip(i as int).drop_first() =~= a@.skip(i + 1));
        assert(b@.skip(i as int).drop_first() =~= b@.skip(i + 1));
        assert(a@.subrange(0, i + 1) =~= a@.subrange(0, i as int).push(a@[i as int]));
        assert(b@.subrange(0, i + 1) =~= b@.subrange(0, i as int).push(b@[i as int]));
        i = i + 1;
    }
    i < b.len()
}

} // verus!
