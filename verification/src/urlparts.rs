//! URL model and normalization.
//!
//! The library reads URLs through `UrlParts`, a plain-value image of what the
//! url crate parses: scheme, host, path, and decoded query pairs. Parsing
//! itself is delegated to the url crate behind one trusted wrapper; every rule
//! about the parts is verified.

use vstd::prelude::*;
use crate::error::Error;
use crate::text;

verus! {

/// The components of an absolute URL, as the url crate parses them.
#[derive(Debug, Clone)]
pub struct UrlParts {
    pub scheme: String,
    pub host: String,
    pub path: String,
    pub query: Vec<(String, String)>,
}

/// Spec-level image of `UrlParts`.
pub struct UrlPartsView {
    pub scheme: Seq<char>,
    pub host: Seq<char>,
    pub path: Seq<char>,
    pub query: Seq<(Seq<char>, Seq<char>)>,
}

impl View for UrlParts {
    type V = UrlPartsView;

    open spec fn view(&self) -> UrlPartsView {
        UrlPartsView {
            scheme: self.scheme@,
            host: self.host@,
            path: self.path@,
            query: Seq::new(self.query@.len(), |i: int| (self.query@[i].0@, self.query@[i].1@)),
        }
    }
}

/// What the url crate's parser yields for a given input string: `None` when
/// the input is not a parseable URL with a host, otherwise the parts.
pub uninterp spec fn url_parts_of(s: Seq<char>) -> Option<UrlPartsView>;

/// Relies on url::Url::parse and the accessors scheme, host_str, path and
/// query_pairs: parsing is a pure function of the input string alone; inputs
/// that do not parse, or parse without a host, yield None.
#[verifier::external_body]
fn parse_url_outside(s: &str) -> (r: Option<UrlParts>)
    ensures
        match r {
            Some(p) => url_parts_of(s@) == Some(p@),
            None => url_parts_of(s@) is None,
        },
{
    let u = match url::Url::parse(s) {
        Ok(u) => u,
        Err(_) => return None,
    };
    let host = match u.host_str() {
        Some(h) => h.to_string(),
        None => return None,
    };
    let query = u.query_pairs().map(|(k, v)| (k.to_string(), v.to_string())).collect();
    Some(UrlParts { scheme: u.scheme().to_string(), host, path: u.path().to_string(), query })
}

/// Parse a URL into its parts: `None` for inputs the parser rejects or that
/// carry no host.
pub fn parse_url(s: &str) -> (r: Option<UrlParts>)
    ensures
        match r {
            Some(p) => url_parts_of(s@) == Some(p@),
            None => url_parts_of(s@) is None,
        },
{
    parse_url_outside(s)
}

/// Query keys that normalization keeps: the video id, the timestamp, and the
/// generic id key.
pub open spec fn allowed_query_key(k: Seq<char>) -> bool {
    k == "v"@ || k == "t"@ || k == "id"@
}

/// Normalized parts: scheme, host and path unchanged, and only allow-listed
/// query pairs kept, in order, with their values untouched.
pub open spec fn normalize_parts_spec(p: UrlPartsView) -> UrlPartsView {
    UrlPartsView {
        scheme: p.scheme,
        host: p.host,
        path: p.path,
        query: p.query.filter(|kv: (Seq<char>, Seq<char>)| allowed_query_key(kv.0)),
    }
}

/// Is this query key on the allow-list?
fn is_allowed_key(k: &String) -> (r: bool)
    ensures
        r == allowed_query_key(k@),
{
    let kv = text::str_chars(k.as_str());
    text::chars_eq_str(&kv, "v") || text::chars_eq_str(&kv, "t") || text::chars_eq_str(&kv, "id")
}

/// Drop every query pair whose key is not on the allow-list; everything else
/// is kept unchanged.
pub fn normalize_parts(p: &UrlParts) -> (r: UrlParts)
    ensures
        r@ == normalize_parts_spec(p@),
{
    let ghost pred = |kv: (Seq<char>, Seq<char>)| allowed_query_key(kv.0);
    let mut query: Vec<(String, String)> = Vec::new();
    let n = p.query.len();
    let mut i: usize = 0;
    proof {
        reveal(Seq::filter);
        assert(p@.query.take(0) =~= Seq::<(Seq<char>, Seq<char>)>::empty());
    }
    while i < n
        invariant
            i <= n,
            n == p.query@.len(),
            Seq::new(query@.len(), |j: int| (query@[j].0@, query@[j].1@)) == p@.query.take(
                i as int,
            ).filter(|kv: (Seq<char>, Seq<char>)| allowed_query_key(kv.0)),
        decreases n - i,
    {
        proof {
            reveal(Seq::filter);
            let taken = p@.query.take(i as int + 1);
            assert(taken.drop_last() =~= p@.query.take(i as int));
            assert(taken.last() == p@.query[i as int]);
        }
        let ghost q0 = Seq::new(query@.len(), |j: int| (query@[j].0@, query@[j].1@));
        let (k, v) = (p.query[i].0.clone(), p.query[i].1.clone());
        if is_allowed_key(&k) {
            query.push((k, v));
            proof {
                assert(Seq::new(query@.len(), |j: int| (query@[j].0@, query@[j].1@)) =~= q0
                    + seq![p@.query[i as int]]);
            }
        }
        i = i + 1;
    }
    proof {
        assert(p@.query.take(n as int) =~= p@.query);
    }
    let r = UrlParts {
        scheme: p.scheme.clone(),
        host: p.host.clone(),
        path: p.path.clone(),
        query,
    };
    assert(r@.query =~= normalize_parts_spec(p@).query);
    r
}

/// One query pair rendered as `key=value`.
pub open spec fn query_item_spec(kv: (Seq<char>, Seq<char>)) -> Seq<char> {
    kv.0 + "="@ + kv.1
}

/// The parts rendered back into a URL string: `scheme://hostpath`, and the
/// query appended after `?`, pairs joined by `&`, when any pair is present.
pub open spec fn serialize_spec(p: UrlPartsView) -> Seq<char> {
    let base = p.scheme + "://"@ + p.host + p.path;
    if p.query.len() == 0 {
        base
    } else {
        base + "?"@ + text::join_with(
            p.query.map_values(|kv: (Seq<char>, Seq<char>)| query_item_spec(kv)),
            "&"@,
        )
    }
}

/// Render the parts back into a URL string.
pub fn serialize_parts(p: &UrlParts) -> (r: String)
    ensures
        r@ == serialize_spec(p@),
{
    let mut out: Vec<char> = Vec::new();
    text::append_str(&mut out, p.scheme.as_str());
    text::append_str(&mut out, "://");
    text::append_str(&mut out, p.host.as_str());
    text::append_str(&mut out, p.path.as_str());
    let n = p.query.len();
    if n > 0 {
        text::append_str(&mut out, "?");
        let mut items: Vec<Vec<char>> = Vec::new();
        let mut i: usize = 0;
        while i < n
            invariant
                i <= n,
                n == p.query@.len(),
                items@.len() == i,
                forall|j: int| 0 <= j < i ==> items@[j]@ == query_item_spec(p@.query[j]),
            decreases n - i,
        {
            let mut item: Vec<char> = Vec::new();
            text::append_str(&mut item, p.query[i].0.as_str());
            text::append_str(&mut item, "=");
            text::append_str(&mut item, p.query[i].1.as_str());
            assert(item@ =~= query_item_spec(p@.query[i as int]));
            items.push(item);
            i = i + 1;
        }
        let sep = text::str_chars("&");
        let joined = text::join_chars(&items, &sep);
        proof {
            assert(items.deep_view() =~~= p@.query.map_values(
                |kv: (Seq<char>, Seq<char>)| query_item_spec(kv),
            ));
        }
        text::append_chars(&mut out, &joined);
    }
    text::chars_string(&out)
}

/// Parse a URL and strip every query parameter that is not on the allow-list,
/// keeping the kept pairs' values and order unchanged.
pub fn normalize_url(s: &str) -> (r: Result<String, Error>)
    ensures
        match r {
            Ok(u) => url_parts_of(s@) is Some && u@ == serialize_spec(
                normalize_parts_spec(url_parts_of(s@)->0),
            ),
            Err(e) => url_parts_of(s@) is None && (e matches Error::InvalidUrl(m) && m@ == s@),
        },
{
    match parse_url(s) {
        Some(p) => {
            let normalized = normalize_parts(&p);
            Ok(serialize_parts(&normalized))
        },
        None => Err(Error::InvalidUrl(s.to_owned())),
    }
}

/// Filtering a sequence twice with the same predicate is the same as
/// filtering it once.
proof fn lemma_filter_twice<T>(s: Seq<T>, pred: spec_fn(T) -> bool)
    ensures
        s.filter(pred).filter(pred) == s.filter(pred),
    decreases s.len(),
{
    reveal(Seq::filter);
    if s.len() == 0 {
        assert(s.filter(pred) =~= s);
    } else {
        lemma_filter_twice(s.drop_last(), pred);
        if pred(s.last()) {
            let f = s.drop_last().filter(pred);
            assert(s.filter(pred) == f.push(s.last()));
            assert(f.push(s.last()).drop_last() =~= f);
            assert(f.push(s.last()).last() == s.last());
        } else {
            assert(s.filter(pred) == s.drop_last().filter(pred));
        }
    }
}

/// Normalization is idempotent: normalizing already-normalized parts changes
/// nothing.
pub proof fn lemma_normalize_idempotent(p: UrlPartsView)
    ensures
        normalize_parts_spec(normalize_parts_spec(p)) == normalize_parts_spec(p),
{
    lemma_filter_twice(p.query, |kv: (Seq<char>, Seq<char>)| allowed_query_key(kv.0));
    assert(normalize_parts_spec(normalize_parts_spec(p)) =~= normalize_parts_spec(p));
}

/// Normalization strips every query pair whose key is not on the allow-list
/// and keeps every pair whose key is, with its value unchanged; scheme, host
/// and path are untouched.
pub proof fn lemma_normalize_query_allowlist(p: UrlPartsView)
    ensures
        normalize_parts_spec(p).scheme == p.scheme,
        normalize_parts_spec(p).host == p.host,
        normalize_parts_spec(p).path == p.path,
        forall|i: int|
            0 <= i < normalize_parts_spec(p).query.len() ==> allowed_query_key(
                (#[trigger] normalize_parts_spec(p).query[i]).0,
            ),
        forall|i: int|
            0 <= i < p.query.len() && allowed_query_key((#[trigger] p.query[i]).0)
                ==> normalize_parts_spec(p).query.contains(p.query[i]),
{
    let pred = |kv: (Seq<char>, Seq<char>)| allowed_query_key(kv.0);
    let kept = p.query.filter(pred);
    assert forall|i: int| 0 <= i < kept.len() implies allowed_query_key(
        (#[trigger] kept[i]).0,
    ) by {
        p.query.lemma_filter_pred(pred, i);
    };
    assert forall|i: int|
        0 <= i < p.query.len() && allowed_query_key((#[trigger] p.query[i]).0) implies kept.contains(
        p.query[i],
    ) by {
        p.query.lemma_filter_contains(pred, i);
    };
}

} // verus!
