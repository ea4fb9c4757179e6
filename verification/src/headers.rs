//! HTTP header names and a header map: the parts of a request that the
//! signing algorithms read.

use crate::text::{bytes_eq_ignore_ascii_case, eq_ignore_ascii_case, lower, lower_exec, push_str_bytes, upper, upper_exec};
use vstd::prelude::*;
use vstd::utf8::*;

verus! {

/// A header entry as bytes: name and value.
pub type Entry = (Seq<u8>, Seq<u8>);

/// The byte at `i` of the canonical form of `name`: upper case at the start
/// and after each `-`, lower case elsewhere.
pub open spec fn canonical_byte(name: Seq<u8>, i: int) -> u8 {
    if i == 0 || name[i - 1] == 45 {
        upper(name[i])
    } else {
        lower(name[i])
    }
}

/// The canonical form of a header name (`x-qiniu-abc` becomes `X-Qiniu-Abc`).
pub open spec fn canonical_header_name(name: Seq<u8>) -> Seq<u8> {
    Seq::new(name.len(), |i: int| canonical_byte(name, i))
}

/// Writes a header name in its canonical form.
pub fn make_header_name(name: &[u8]) -> (out: Vec<u8>)
    ensures
        out@ == canonical_header_name(name@),
{
    let mut out: Vec<u8> = Vec::new();
    let mut i: usize = 0;
    while i < name.len()
        invariant
            i <= name@.len(),
            out@.len() == i,
            forall|j: int| 0 <= j < i ==> out@[j] == canonical_byte(name@, j),
        decreases name@.len() - i,
    {
        let b = if i == 0 || name[i - 1] == 45 {
            upper_exec(name[i])
        } else {
            lower_exec(name[i])
        };
        out.push(b);
        i = i + 1;
    }
    assert(out@ =~= canonical_header_name(name@));
    out
}

/// The value of the first entry whose name equals `name` ignoring ASCII case.
pub open spec fn lookup(entries: Seq<Entry>, name: Seq<u8>) -> Option<Seq<u8>>
    decreases entries.len(),
{
    if entries.len() == 0 {
        None
    } else if eq_ignore_ascii_case(entries[0].0, name) {
        Some(entries[0].1)
    } else {
        lookup(entries.drop_first(), name)
    }
}

/// The index of the first entry whose name equals `name` ignoring ASCII
/// case, or the number of entries.
pub open spec fn position(entries: Seq<Entry>, name: Seq<u8>) -> int
    decreases entries.len(),
{
    if entries.len() == 0 {
        0
    } else if eq_ignore_ascii_case(entries[0].0, name) {
        0
    } else {
        1 + position(entries.drop_first(), name)
    }
}

pub proof fn lemma_position(entries: Seq<Entry>, name: Seq<u8>)
    ensures
        0 <= position(entries, name) <= entries.len(),
        forall|j: int|
            0 <= j < position(entries, name) ==> !eq_ignore_ascii_case(
                #[trigger] entries[j].0,
                name,
            ),
        position(entries, name) < entries.len() ==> eq_ignore_ascii_case(
            entries[position(entries, name)].0,
            name,
        ) && lookup(entries, name) == Some(entries[position(entries, name)].1),
        position(entries, name) == entries.len() ==> lookup(entries, name) is None,
    decreases entries.len(),
{
    if entries.len() > 0 && !eq_ignore_ascii_case(entries[0].0, name) {
        lemma_position(entries.drop_first(), name);
        assert forall|j: int| 0 <= j < position(entries, name) implies !eq_ignore_ascii_case(
            #[trigger] entries[j].0,
            name,
        ) by {
            if j > 0 {
                assert(entries[j] == entries.drop_first()[j - 1]);
            }
        }
    }
}

/// The entries after setting the header `name` to `value`: the value of
/// the first entry with that name (ignoring ASCII case) is replaced, else
/// the entry is appended.
pub open spec fn with_header(entries: Seq<Entry>, name: Seq<u8>, value: Seq<u8>) -> Seq<Entry> {
    let k = position(entries, name);
    if k < entries.len() {
        entries.update(k, (entries[k].0, value))
    } else {
        entries.push((name, value))
    }
}

/// After a header is set, reading it (in any case) gives the value set,
/// and every header of another name reads as before.
pub proof fn header_reads_back_what_was_set(entries: Seq<Entry>, name: Seq<u8>, value: Seq<u8>, other: Seq<u8>)
    ensures
        lookup(with_header(entries, name, value), name) == Some(value),
        !eq_ignore_ascii_case(other, name) ==> lookup(with_header(entries, name, value), other)
            == lookup(entries, other),
{
    let after = with_header(entries, name, value);
    lemma_position(entries, name);
    lemma_position(entries, other);
    let k = position(entries, name);
    if k == entries.len() {
        assert(eq_ignore_ascii_case(name, name));
    }
    assert forall|j: int| 0 <= j < after.len() && j != k implies #[trigger] after[j] == entries[j] by {}
    lemma_position(after, name);
    lemma_position(after, other);
    if k < entries.len() {
        assert(after[k].0 == entries[k].0);
    } else {
        assert(after[k] == (name, value));
    }
    let p = position(after, name);
    assert(p <= k) by {
        if p > k {
            assert(!eq_ignore_ascii_case(after[k].0, name));
        }
    }
    assert(p == k) by {
        if p < k {
            assert(after[p] == entries[p]);
        }
    }
    if !eq_ignore_ascii_case(other, name) {
        let q = position(entries, other);
        let q2 = position(after, other);
        let x = after[k].0;
        assert(eq_ignore_ascii_case(x, name));
        if eq_ignore_ascii_case(x, other) {
            assert forall|i: int| 0 <= i < other.len() implies lower(#[trigger] other[i]) == lower(name[i]) by {
                assert(lower(x[i]) == lower(other[i]));
                assert(lower(x[i]) == lower(name[i]));
            }
            assert(false);
        }
        if q < entries.len() {
            assert(q != k);
            assert(after[q] == entries[q]);
            assert(q2 <= q) by {
                if q2 > q {
                    assert(!eq_ignore_ascii_case(after[q].0, other));
                }
            }
            assert(q2 == q) by {
                if q2 < q {
                    if q2 != k {
                        assert(after[q2] == entries[q2]);
                    }
                }
            }
        } else {
            assert(q2 == after.len()) by {
                if q2 < after.len() {
                    if q2 != k {
                        assert(after[q2] == entries[q2]);
                    }
                }
            }
        }
    }
}

/// A map of HTTP headers. A name occurs at most once, ignoring ASCII case;
/// inserting a name that is there replaces its value in place.
#[derive(Clone, Debug)]
pub struct HeaderMap {
    entries: Vec<(String, String)>,
}

impl View for HeaderMap {
    type V = Seq<Entry>;

    closed spec fn view(&self) -> Seq<Entry> {
        Seq::new(
            self.entries@.len(),
            |i: int| (encode_utf8(self.entries@[i].0@), encode_utf8(self.entries@[i].1@)),
        )
    }
}

impl HeaderMap {
    /// An empty map.
    pub fn new() -> (m: Self)
        ensures
            m@ == Seq::<Entry>::empty(),
    {
        let m = HeaderMap { entries: Vec::new() };
        assert(m@ =~= Seq::<Entry>::empty());
        m
    }

    /// The number of entries.
    pub fn len(&self) -> (n: usize)
        ensures
            n == self@.len(),
    {
        self.entries.len()
    }

    /// The value of the header named `name`, ignoring ASCII case.
    pub fn get(&self, name: &str) -> (r: Option<&str>)
        ensures
            match r {
                Some(v) => lookup(self@, encode_utf8(name@)) == Some(encode_utf8(v@)),
                None => lookup(self@, encode_utf8(name@)) is None,
            },
    {
        let k = self.find(name);
        proof {
            lemma_position(self@, encode_utf8(name@));
        }
        if k < self.entries.len() {
            Some(self.entries[k].1.as_str())
        } else {
            None
        }
    }

    /// The index of the entry named `name`, or the number of entries.
    fn find(&self, name: &str) -> (k: usize)
        ensures
            k == position(self@, encode_utf8(name@)),
    {
        let nb = name.as_bytes();
        let mut k: usize = 0;
        proof {
            lemma_position(self@, encode_utf8(name@));
        }
        while k < self.entries.len()
            invariant
                k <= self.entries@.len(),
                nb@ == encode_utf8(name@),
                self@.len() == self.entries@.len(),
                forall|j: int| 0 <= j < k ==> !eq_ignore_ascii_case(#[trigger] self@[j].0, nb@),
                0 <= position(self@, nb@) <= self@.len(),
                forall|j: int|
                    0 <= j < position(self@, nb@) ==> !eq_ignore_ascii_case(
                        #[trigger] self@[j].0,
                        nb@,
                    ),
                position(self@, nb@) < self@.len() ==> eq_ignore_ascii_case(
                    self@[position(self@, nb@)].0,
                    nb@,
                ),
            decreases self.entries@.len() - k,
        {
            let key = self.entries[k].0.as_str().as_bytes();
            assert(key@ == self@[k as int].0);
            if bytes_eq_ignore_ascii_case(key, nb) {
                return k;
            }
            k = k + 1;
        }
        k
    }

    /// Sets the header `name` to `value`, replacing the value of the entry with
    /// that name where there is one.
    pub fn insert(&mut self, name: &str, value: &str)
        ensures
            final(self)@ == with_header(old(self)@, encode_utf8(name@), encode_utf8(value@)),
    {
        let k = self.find(name);
        let ghost before = self@;
        if k < self.entries.len() {
            let key = self.entries[k].0.clone();
            self.entries.set(k, (key, value.to_owned()));
            assert(self@ =~= before.update(k as int, (before[k as int].0, encode_utf8(value@))));
        } else {
            self.entries.push((name.to_owned(), value.to_owned()));
            assert(self@ =~= before.push((encode_utf8(name@), encode_utf8(value@))));
        }
    }

    /// The entries as UTF-8 bytes, in order.
    pub fn entry_bytes(&self) -> (out: Vec<(Vec<u8>, Vec<u8>)>)
        ensures
            out@.len() == self@.len(),
            forall|i: int|
                0 <= i < out@.len() ==> (#[trigger] out@[i]).0@ == self@[i].0 && out@[i].1@
                    == self@[i].1,
    {
        let mut out: Vec<(Vec<u8>, Vec<u8>)> = Vec::new();
        let mut i: usize = 0;
        while i < self.entries.len()
            invariant
                i <= self.entries@.len(),
                self@.len() == self.entries@.len(),
                out@.len() == i,
                forall|j: int|
                    0 <= j < i ==> (#[trigger] out@[j]).0@ == self@[j].0 && out@[j].1@
                        == self@[j].1,
            decreases self.entries@.len() - i,
        {
            let mut name: Vec<u8> = Vec::new();
            push_str_bytes(&mut name, self.entries[i].0.as_str());
            let mut value: Vec<u8> = Vec::new();
            push_str_bytes(&mut value, self.entries[i].1.as_str());
            out.push((name, value));
            i = i + 1;
        }
        out
    }
}

} // verus!
