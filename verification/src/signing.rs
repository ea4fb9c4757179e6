//! The data that Qiniu's request signing algorithms sign: V1 (`QBox`) over
//! path, query and form body; V2 (`Qiniu`) over method, path, query, host,
//! content type, the sorted `X-Qiniu-*` headers and the body.

use crate::headers::{canonical_header_name, make_header_name, Entry, HeaderMap};
use crate::text::{bytes_eq, bytes_less, bytes_lt, decimal, decimal_bytes, push_bytes, push_str_bytes};
use vstd::prelude::*;
use vstd::utf8::*;

verus! {

/// An HTTP method.
#[allow(non_camel_case_types)]
#[derive(Clone, Copy, Debug, PartialEq, Eq, Structural)]
pub enum Method {
    GET,
    POST,
    PUT,
    DELETE,
    HEAD,
    OPTIONS,
    CONNECT,
    PATCH,
    TRACE,
}

/// The name of a method.
pub open spec fn method_name(m: Method) -> Seq<char> {
    match m {
        Method::GET => "GET"@,
        Method::POST => "POST"@,
        Method::PUT => "PUT"@,
        Method::DELETE => "DELETE"@,
        Method::HEAD => "HEAD"@,
        Method::OPTIONS => "OPTIONS"@,
        Method::CONNECT => "CONNECT"@,
        Method::PATCH => "PATCH"@,
        Method::TRACE => "TRACE"@,
    }
}

impl Method {
    /// The name of the method.
    pub fn as_str(&self) -> (s: &'static str)
        ensures
            s@ == method_name(*self),
    {
        match self {
            Method::GET => "GET",
            Method::POST => "POST",
            Method::PUT => "PUT",
            Method::DELETE => "DELETE",
            Method::HEAD => "HEAD",
            Method::OPTIONS => "OPTIONS",
            Method::CONNECT => "CONNECT",
            Method::PATCH => "PATCH",
            Method::TRACE => "TRACE",
        }
    }

    /// The method is idempotent: all but `POST`, `CONNECT` and `PATCH`.
    pub fn is_idempotent(&self) -> (r: bool)
        ensures
            r == !(*self == Method::POST || *self == Method::CONNECT || *self == Method::PATCH),
    {
        match self {
            Method::POST | Method::CONNECT | Method::PATCH => false,
            _ => true,
        }
    }
}

/// The parts of a request URL that signing reads.
#[derive(Clone, Debug)]
pub struct RequestUri {
    pub scheme: Option<String>,
    pub path: String,
    pub query: Option<String>,
    pub host: Option<String>,
    pub port: Option<u16>,
}

/// UTF-8 bytes of an optional string.
pub open spec fn opt_bytes(s: Option<String>) -> Option<Seq<u8>> {
    match s {
        Some(x) => Some(encode_utf8(x@)),
        None => None,
    }
}

/// `?query` where the query is there and not empty.
pub open spec fn query_part(query: Option<Seq<u8>>) -> Seq<u8> {
    match query {
        Some(q) => if q.len() > 0 {
            seq![63u8] + q
        } else {
            seq![]
        },
        None => seq![],
    }
}

/// `application/x-www-form-urlencoded`
pub open spec fn form_mime() -> Seq<u8> {
    encode_utf8("application/x-www-form-urlencoded"@)
}

/// `application/octet-stream`
pub open spec fn octet_stream_mime() -> Seq<u8> {
    encode_utf8("application/octet-stream"@)
}

/// The data that V1 signs: path, `?query`, a newline, and the body where it
/// is signed.
pub open spec fn v1_data(uri: RequestUri, push_body: bool, body: Seq<u8>) -> Seq<u8> {
    encode_utf8(uri.path@) + query_part(opt_bytes(uri.query)) + seq![10u8] + if push_body {
        body
    } else {
        seq![]
    }
}

/// `X-Qiniu-`
pub open spec fn x_qiniu_prefix() -> Seq<u8> {
    seq![88u8, 45u8, 81u8, 105u8, 110u8, 105u8, 117u8, 45u8]
}

/// A canonical header name that V2 signs: longer than `X-Qiniu-` and
/// starting with it.
pub open spec fn is_x_qiniu_name(n: Seq<u8>) -> bool {
    n.len() > 8 && n.subrange(0, 8) == x_qiniu_prefix()
}

/// The `X-Qiniu-*` headers, with canonical names, in the order of the map.
pub open spec fn x_qiniu_entries(h: Seq<Entry>) -> Seq<Entry>
    decreases h.len(),
{
    if h.len() == 0 {
        seq![]
    } else {
        let rest = x_qiniu_entries(h.drop_last());
        let n = canonical_header_name(h.last().0);
        if is_x_qiniu_name(n) {
            rest.push((n, h.last().1))
        } else {
            rest
        }
    }
}

/// Lexicographic order of entries, by name and then by value.
pub open spec fn entry_lt(a: Entry, b: Entry) -> bool {
    bytes_lt(a.0, b.0) || (a.0 == b.0 && bytes_lt(a.1, b.1))
}

/// `x` inserted into `s` before the first entry that is not below it.
pub open spec fn insert_sorted(s: Seq<Entry>, x: Entry) -> Seq<Entry>
    decreases s.len(),
{
    if s.len() == 0 {
        seq![x]
    } else if entry_lt(s[0], x) {
        seq![s[0]] + insert_sorted(s.drop_first(), x)
    } else {
        seq![x] + s
    }
}

/// The entries in ascending order.
pub open spec fn sorted_entries(s: Seq<Entry>) -> Seq<Entry>
    decreases s.len(),
{
    if s.len() == 0 {
        seq![]
    } else {
        insert_sorted(sorted_entries(s.drop_last()), s.last())
    }
}

/// `name: value` and a newline.
pub open spec fn header_line(e: Entry) -> Seq<u8> {
    e.0 + seq![58u8, 32u8] + e.1 + seq![10u8]
}

pub open spec fn header_lines(s: Seq<Entry>) -> Seq<u8>
    decreases s.len(),
{
    if s.len() == 0 {
        seq![]
    } else {
        header_lines(s.drop_last()) + header_line(s.last())
    }
}

/// The lines of the `X-Qiniu-*` headers, sorted.
pub open spec fn x_qiniu_block(h: Seq<Entry>) -> Seq<u8> {
    header_lines(sorted_entries(x_qiniu_entries(h)))
}

/// `\nHost: host` where there is a host.
pub open spec fn host_part(host: Option<Seq<u8>>) -> Seq<u8> {
    match host {
        Some(h) => encode_utf8("\nHost: "@) + h,
        None => seq![],
    }
}

/// `:port` where there is a port.
pub open spec fn port_part(port: Option<u16>) -> Seq<u8> {
    match port {
        Some(p) => seq![58u8] + decimal(p as nat),
        None => seq![],
    }
}

/// `Content-Type: type` and a newline where there is a content type.
pub open spec fn content_type_part(ct: Option<Seq<u8>>) -> Seq<u8> {
    match ct {
        Some(c) => encode_utf8("Content-Type: "@) + c + seq![10u8],
        None => seq![],
    }
}

/// The data that V2 signs.
pub open spec fn v2_data(
    method: Method,
    uri: RequestUri,
    content_type: Option<Seq<u8>>,
    headers: Seq<Entry>,
    push_body: bool,
    body: Seq<u8>,
) -> Seq<u8> {
    encode_utf8(method_name(method)) + seq![32u8] + encode_utf8(uri.path@) + query_part(
        opt_bytes(uri.query),
    ) + host_part(opt_bytes(uri.host)) + port_part(uri.port) + seq![10u8] + content_type_part(
        content_type,
    ) + x_qiniu_block(headers) + seq![10u8] + if push_body {
        body
    } else {
        seq![]
    }
}

/// The text of a URL from its parts: `scheme://`, the host and `:port`, the
/// path, and `?query`, each where it is there.
pub open spec fn url_text(
    scheme: Option<Seq<u8>>,
    host: Option<Seq<u8>>,
    port: Option<u16>,
    path: Seq<u8>,
    query: Option<Seq<u8>>,
) -> Seq<u8> {
    (match scheme {
        Some(s) => s + encode_utf8("://"@),
        None => seq![],
    }) + (match host {
        Some(h) => h + port_part(port),
        None => seq![],
    }) + path + match query {
        Some(q) => seq![63u8] + q,
        None => seq![],
    }
}

/// The text of a URL.
pub open spec fn uri_text(uri: RequestUri) -> Seq<u8> {
    url_text(opt_bytes(uri.scheme), opt_bytes(uri.host), uri.port, encode_utf8(uri.path@), opt_bytes(uri.query))
}

/// The view of a vector of byte pairs.
pub open spec fn entries_view(v: Seq<(Vec<u8>, Vec<u8>)>) -> Seq<Entry> {
    Seq::new(v.len(), |i: int| (v[i].0@, v[i].1@))
}

proof fn lemma_insert_sorted_at(s: Seq<Entry>, x: Entry, k: int)
    requires
        0 <= k <= s.len(),
        forall|j: int| 0 <= j < k ==> entry_lt(#[trigger] s[j], x),
        k < s.len() ==> !entry_lt(s[k], x),
    ensures
        insert_sorted(s, x) == s.take(k) + seq![x] + s.skip(k),
    decreases s.len(),
{
    if s.len() == 0 {
        assert(s.take(k) + seq![x] + s.skip(k) =~= seq![x]);
    } else if k == 0 {
        assert(s.take(k) + seq![x] + s.skip(k) =~= seq![x] + s);
    } else {
        assert(entry_lt(s[0], x));
        let t = s.drop_first();
        assert forall|j: int| 0 <= j < k - 1 implies entry_lt(#[trigger] t[j], x) by {
            assert(t[j] == s[j + 1]);
        }
        lemma_insert_sorted_at(t, x, k - 1);
        assert(s.take(k) + seq![x] + s.skip(k) =~= seq![s[0]] + (t.take(k - 1) + seq![x] + t.skip(
            k - 1,
        )));
    }
}

fn entry_less(a: &(Vec<u8>, Vec<u8>), b: &(Vec<u8>, Vec<u8>)) -> (r: bool)
    ensures
        r == entry_lt((a.0@, a.1@), (b.0@, b.1@)),
{
    if bytes_less(a.0.as_slice(), b.0.as_slice()) {
        true
    } else if bytes_eq(a.0.as_slice(), b.0.as_slice()) {
        bytes_less(a.1.as_slice(), b.1.as_slice())
    } else {
        false
    }
}

/// Sorts entries by insertion, in the order of `sorted_entries`.
pub fn sort_entries(v: Vec<(Vec<u8>, Vec<u8>)>) -> (out: Vec<(Vec<u8>, Vec<u8>)>)
    ensures
        entries_view(out@) == sorted_entries(entries_view(v@)),
{
    let ghost orig = entries_view(v@);
    let mut rest = v;
    let mut out: Vec<(Vec<u8>, Vec<u8>)> = Vec::new();
    let mut i: usize = 0;
    let n = rest.len();
    assert(orig.take(0) =~= Seq::<Entry>::empty());
    while rest.len() > 0
        invariant
            n == orig.len(),
            i + rest@.len() == n,
            entries_view(rest@) == orig.skip(i as int),
            entries_view(out@) == sorted_entries(orig.take(i as int)),
        decreases rest@.len(),
    {
        let ghost old_rest = rest@;
        let x = rest.remove(0);
        assert(old_rest[0] == x);
        assert(entries_view(old_rest)[0] == (x.0@, x.1@));
        assert(orig.skip(i as int)[0] == orig[i as int]);
        assert(entries_view(rest@) =~= entries_view(old_rest).drop_first());
        assert(orig.skip(i as int).drop_first() =~= orig.skip(i + 1));
        assert(entries_view(rest@) =~= orig.skip(i + 1));
        assert((x.0@, x.1@) == orig[i as int]);
        let mut j: usize = 0;
        while j < out.len() && entry_less(&out[j], &x)
            invariant
                j <= out@.len(),
                forall|m: int|
                    0 <= m < j ==> entry_lt(#[trigger] entries_view(out@)[m], (x.0@, x.1@)),
            decreases out@.len() - j,
        {
            j = j + 1;
        }
        let ghost before = entries_view(out@);
        proof {
            lemma_insert_sorted_at(before, (x.0@, x.1@), j as int);
        }
        out.insert(j, x);
        assert(entries_view(out@) =~= before.take(j as int) + seq![orig[i as int]] + before.skip(
            j as int,
        ));
        assert(orig.take(i + 1).drop_last() =~= orig.take(i as int));
        i = i + 1;
    }
    assert(orig.take(n as int) =~= orig);
    out
}

/// The `X-Qiniu-*` headers of the map, with canonical names, unsorted.
fn x_qiniu_entries_exec(headers: &HeaderMap) -> (out: Vec<(Vec<u8>, Vec<u8>)>)
    ensures
        entries_view(out@) == x_qiniu_entries(headers@),
{
    let all = headers.entry_bytes();
    let ghost h = headers@;
    let mut out: Vec<(Vec<u8>, Vec<u8>)> = Vec::new();
    let mut i: usize = 0;
    assert(entries_view(out@) =~= x_qiniu_entries(h.take(0)));
    while i < all.len()
        invariant
            i <= all@.len(),
            all@.len() == h.len(),
            forall|k: int|
                0 <= k < all@.len() ==> (#[trigger] all@[k]).0@ == h[k].0 && all@[k].1@ == h[k].1,
            entries_view(out@) == x_qiniu_entries(h.take(i as int)),
        decreases all@.len() - i,
    {
        let name = make_header_name(all[i].0.as_slice());
        assert(h.take(i + 1).drop_last() =~= h.take(i as int));
        assert(h.take(i + 1).last() == h[i as int]);
        let prefix: Vec<u8> = vec![88u8, 45u8, 81u8, 105u8, 110u8, 105u8, 117u8, 45u8];
        if name.len() > 8 && bytes_eq(prefix.as_slice(), slice_prefix(name.as_slice(), 8)) {
            let ghost before = entries_view(out@);
            let value = all[i].1.clone();
            out.push((name, value));
            assert(entries_view(out@) =~= before.push((name@, h[i as int].1)));
        }
        i = i + 1;
    }
    assert(h.take(all@.len() as int) =~= h);
    out
}

/// The first `n` bytes.
fn slice_prefix(s: &[u8], n: usize) -> (r: &[u8])
    requires
        n <= s@.len(),
    ensures
        r@ == s@.subrange(0, n as int),
{
    let r = vstd::slice::slice_subrange(s, 0, n);
    r
}

/// Appends the lines of the entries.
fn push_header_lines(out: &mut Vec<u8>, entries: &Vec<(Vec<u8>, Vec<u8>)>)
    ensures
        final(out)@ == old(out)@ + header_lines(entries_view(entries@)),
{
    let ghost start = out@;
    let ghost e = entries_view(entries@);
    let mut i: usize = 0;
    assert(header_lines(e.take(0)) =~= Seq::<u8>::empty());
    while i < entries.len()
        invariant
            i <= entries@.len(),
            e == entries_view(entries@),
            out@ == start + header_lines(e.take(i as int)),
        decreases entries@.len() - i,
    {
        push_bytes(out, entries[i].0.as_slice());
        out.push(58u8);
        out.push(32u8);
        push_bytes(out, entries[i].1.as_slice());
        out.push(10u8);
        assert(e.take(i + 1).drop_last() =~= e.take(i as int));
        assert(e.take(i + 1).last() == e[i as int]);
        assert(out@ =~= start + header_lines(e.take(i + 1)));
        i = i + 1;
    }
    assert(e.take(entries@.len() as int) =~= e);
}

/// Appends `?query` where the query is there and not empty.
fn push_query(out: &mut Vec<u8>, query: &Option<String>)
    ensures
        final(out)@ == old(out)@ + query_part(opt_bytes(*query)),
{
    if let Some(q) = query {
        if !q.as_str().is_empty() {
            out.push(63u8);
            push_str_bytes(out, q.as_str());
        } else {
            assert(q@.len() == 0);
            assert(encode_utf8(q@) =~= Seq::<u8>::empty());
            assert(out@ =~= old(out)@ + query_part(opt_bytes(*query)));
        }
    } else {
        assert(out@ =~= old(out)@ + query_part(opt_bytes(*query)));
    }
}

/// Writes out the text of a URL.
pub fn uri_text_bytes(uri: &RequestUri) -> (data: Vec<u8>)
    ensures
        data@ == uri_text(*uri),
{
    let mut data: Vec<u8> = Vec::new();
    if let Some(scheme) = &uri.scheme {
        push_str_bytes(&mut data, scheme.as_str());
        push_str_bytes(&mut data, "://");
    }
    if let Some(host) = &uri.host {
        push_str_bytes(&mut data, host.as_str());
        if let Some(port) = uri.port {
            data.push(58u8);
            let digits = decimal_bytes(port as u64);
            push_bytes(&mut data, digits.as_slice());
        }
    }
    push_str_bytes(&mut data, uri.path.as_str());
    if let Some(q) = &uri.query {
        data.push(63u8);
        push_str_bytes(&mut data, q.as_str());
    }
    proof {
        reveal_strlit("://");
    }
    assert(data@ =~= uri_text(*uri));
    data
}

/// Builds the data that V1 signs.
pub fn build_v1_data(uri: &RequestUri, push_body: bool, body: &[u8]) -> (data: Vec<u8>)
    ensures
        data@ == v1_data(*uri, push_body, body@),
{
    let mut data: Vec<u8> = Vec::new();
    push_str_bytes(&mut data, uri.path.as_str());
    push_query(&mut data, &uri.query);
    data.push(10u8);
    if push_body {
        push_bytes(&mut data, body);
    }
    assert(data@ =~= v1_data(*uri, push_body, body@));
    data
}

/// Builds the data that V2 signs.
#[verifier::rlimit(40)]
pub fn build_v2_data(
    method: Method,
    uri: &RequestUri,
    content_type: Option<&str>,
    headers: &HeaderMap,
    push_body: bool,
    body: &[u8],
) -> (data: Vec<u8>)
    ensures
        data@ == v2_data(
            method,
            *uri,
            match content_type {
                Some(c) => Some(encode_utf8(c@)),
                None => None,
            },
            headers@,
            push_body,
            body@,
        ),
{
    let mut data: Vec<u8> = Vec::new();
    push_str_bytes(&mut data, method.as_str());
    data.push(32u8);
    push_str_bytes(&mut data, uri.path.as_str());
    push_query(&mut data, &uri.query);
    let ghost mark = data@;
    if let Some(host) = &uri.host {
        push_str_bytes(&mut data, "\nHost: ");
        push_str_bytes(&mut data, host.as_str());
    }
    assert(data@ =~= mark + host_part(opt_bytes(uri.host)));
    let ghost mark = data@;
    if let Some(port) = uri.port {
        data.push(58u8);
        let digits = decimal_bytes(port as u64);
        push_bytes(&mut data, digits.as_slice());
    }
    assert(data@ =~= mark + port_part(uri.port));
    data.push(10u8);
    let ghost mark = data@;
    if let Some(ct) = content_type {
        push_str_bytes(&mut data, "Content-Type: ");
        push_str_bytes(&mut data, ct);
        data.push(10u8);
    }
    let ghost ctb = match content_type {
        Some(c) => Some(encode_utf8(c@)),
        None => None,
    };
    assert(data@ =~= mark + content_type_part(ctb));
    let entries = x_qiniu_entries_exec(headers);
    let sorted = sort_entries(entries);
    push_header_lines(&mut data, &sorted);
    data.push(10u8);
    if push_body {
        push_bytes(&mut data, body);
    }
    assert(data@ =~= v2_data(method, *uri, ctb, headers@, push_body, body@));
    data
}

} // verus!
