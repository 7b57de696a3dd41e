//! The result locator: parses an object-store result URI into a
//! `ResultAddress` (container and object key).
//!
//! Three address shapes are supported, tried in priority order:
//! 1. `s3://container/key...` — the container is the URI authority under the
//!    store's own scheme; the key is everything after the first `/`.
//! 2. Virtual-hosted HTTPS form — the authority's first label before the
//!    provider domain suffix is the container (`container.s3.<region>.amazonaws.com`),
//!    and the path with its leading `/` stripped is the key.
//! 3. Path-style HTTPS form — the first path segment is the container and the
//!    remaining segments are the key (`s3.<region>.amazonaws.com/container/key`).
//!
//! An address with an empty container or an empty key is rejected as
//! `InvalidResultUri`, as is a URI matching none of the shapes.

use crate::errors::QueryError;
use crate::text;
use vstd::prelude::*;
use vstd::string::StrSliceExecFns;
use vstd::string::StringExecFns;

verus! {

/// A resolved object-store location: the container (bucket) that holds the
/// persisted result artifact and the object key inside it.
pub struct ResultAddress {
    pub container: String,
    pub key: String,
}

/// Splitting `s` at its first `/` yields the container and key, both of which
/// must be non-empty.
pub open spec fn split_container_key(s: Seq<char>) -> Option<(Seq<char>, Seq<char>)> {
    match text::find_char_spec(s, '/') {
        None => None,
        Some(i) => {
            let container = s.subrange(0, i);
            let key = s.subrange(i + 1, s.len() as int);
            if container.len() > 0 && key.len() > 0 {
                Some((container, key))
            } else {
                None
            }
        },
    }
}

/// Whether an authority is a virtual-hosted store address: a non-empty first
/// label, followed by the store's service label and the provider domain
/// suffix.
pub open spec fn is_virtual_hosted(authority: Seq<char>) -> bool {
    match text::find_char_spec(authority, '.') {
        None => false,
        Some(i) => i > 0 && text::is_prefix_of("s3."@, authority.subrange(i + 1, authority.len() as int))
            && text::is_suffix_of(".amazonaws.com"@, authority),
    }
}

/// The authority and path of a generic URI: the characters between the first
/// `://` and the next `/` form the authority, the rest the path. `None` when
/// the URI has no `://` (taking the first `:` as the scheme's end) or no `/`
/// after the authority.
pub open spec fn authority_and_path(u: Seq<char>) -> Option<(Seq<char>, Seq<char>)> {
    match text::find_char_spec(u, ':') {
        None => None,
        Some(k) => {
            if k >= 1 && k + 3 <= u.len() && u[k + 1] == '/' && u[k + 2] == '/' {
                let rest = u.subrange(k + 3, u.len() as int);
                match text::find_char_spec(rest, '/') {
                    None => None,
                    Some(sl) => Some(
                        (rest.subrange(0, sl), rest.subrange(sl + 1, rest.len() as int)),
                    ),
                }
            } else {
                None
            }
        },
    }
}

/// What `resolve` returns: the container and key for a URI in one of the
/// three supported shapes, `None` otherwise.
pub open spec fn resolve_spec(u: Seq<char>) -> Option<(Seq<char>, Seq<char>)> {
    if text::is_prefix_of("s3://"@, u) {
        split_container_key(u.subrange(5, u.len() as int))
    } else {
        match authority_and_path(u) {
            None => None,
            Some((authority, path)) => {
                if authority.len() == 0 {
                    None
                } else if is_virtual_hosted(authority) {
                    let dot = text::find_char_spec(authority, '.')->0;
                    let container = authority.subrange(0, dot);
                    if path.len() > 0 {
                        Some((container, path))
                    } else {
                        None
                    }
                } else {
                    split_container_key(path)
                }
            },
        }
    }
}

/// Split `s` at its first `/` into a non-empty container and non-empty key.
fn split_container_key_exec(s: &str) -> (r: Option<ResultAddress>)
    ensures
        match r {
            Some(a) => split_container_key(s@) == Some((a.container@, a.key@)),
            None => split_container_key(s@) is None,
        },
{
    let n = text::str_len(s);
    match text::find_char(s, '/') {
        None => None,
        Some(i) => {
            if i > 0 && i + 1 < n {
                let container = text::substring(s, 0, i);
                let key = text::substring(s, i + 1, n);
                Some(ResultAddress { container, key })
            } else {
                None
            }
        },
    }
}

/// Resolve a result-location URI into a `ResultAddress`, trying the three
/// supported shapes in priority order. Fails with `InvalidResultUri` exactly
/// when no shape matches or the parsed container or key is empty.
pub fn resolve(uri: &str) -> (r: Result<ResultAddress, QueryError>)
    ensures
        match r {
            Ok(a) => resolve_spec(uri@) == Some((a.container@, a.key@)),
            Err(e) => resolve_spec(uri@) is None && e is InvalidResultUri,
        },
{
    let n = text::str_len(uri);
    if text::starts_with(uri, "s3://") {
        proof {
            reveal_strlit("s3://");
        }
        let rest = text::substring(uri, 5, n);
        match split_container_key_exec(rest.as_str()) {
            Some(a) => Ok(a),
            None => Err(QueryError::InvalidResultUri(uri.to_owned())),
        }
    } else {
        match text::find_char(uri, ':') {
            None => Err(QueryError::InvalidResultUri(uri.to_owned())),
            Some(k) => {
                if k >= 1 && n - k >= 3 && uri.get_char(k + 1) == '/' && uri.get_char(k + 2)
                    == '/' {
                    let rest = text::substring(uri, k + 3, n);
                    let rest_str = rest.as_str();
                    let m = text::str_len(rest_str);
                    match text::find_char(rest_str, '/') {
                        None => Err(QueryError::InvalidResultUri(uri.to_owned())),
                        Some(sl) => {
                            let authority = text::substring(rest_str, 0, sl);
                            let path = text::substring(rest_str, sl + 1, m);
                            if sl == 0 {
                                Err(QueryError::InvalidResultUri(uri.to_owned()))
                            } else if let Some(dot) = virtual_hosted_dot(authority.as_str()) {
                                let container = text::substring(authority.as_str(), 0, dot);
                                if path.as_str().is_empty() {
                                    Err(QueryError::InvalidResultUri(uri.to_owned()))
                                } else {
                                    Ok(ResultAddress { container, key: path })
                                }
                            } else {
                                match split_container_key_exec(path.as_str()) {
                                    Some(a) => Ok(a),
                                    None => Err(QueryError::InvalidResultUri(uri.to_owned())),
                                }
                            }
                        },
                    }
                } else {
                    Err(QueryError::InvalidResultUri(uri.to_owned()))
                }
            },
        }
    }
}

/// The index of the first label's end when the authority names a
/// virtual-hosted store address, and nothing otherwise.
fn virtual_hosted_dot(authority: &str) -> (r: Option<usize>)
    ensures
        (r is Some) == is_virtual_hosted(authority@),
        r matches Some(d) ==> text::find_char_spec(authority@, '.') == Some(d as int) && d
            < authority@.len(),
{
    let n = text::str_len(authority);
    match text::find_char(authority, '.') {
        None => None,
        Some(i) => {
            if i == 0 {
                None
            } else {
                let after = text::substring(authority, i + 1, n);
                if text::starts_with(after.as_str(), "s3.") && text::ends_with(
                    authority,
                    ".amazonaws.com",
                ) {
                    Some(i)
                } else {
                    None
                }
            }
        },
    }
}

/// The scheme-form URI of an address: `s3://container/key`.
pub open spec fn scheme_uri_spec(container: Seq<char>, key: Seq<char>) -> Seq<char> {
    "s3://"@ + container + "/"@ + key
}

/// Render an address in the scheme form, `s3://container/key`.
pub fn scheme_uri(addr: &ResultAddress) -> (r: String)
    ensures
        r@ == scheme_uri_spec(addr.container@, addr.key@),
{
    let mut r = "s3://".to_owned();
    r.append(addr.container.as_str());
    r.append("/");
    r.append(addr.key.as_str());
    r
}

/// The virtual-hosted URI of an address:
/// `https://container.s3.<region>.amazonaws.com/key`.
pub open spec fn virtual_hosted_uri_spec(
    container: Seq<char>,
    key: Seq<char>,
    region: Seq<char>,
) -> Seq<char> {
    "https://"@ + container + ".s3."@ + region + ".amazonaws.com/"@ + key
}

/// Render an address in the virtual-hosted form for a region.
pub fn virtual_hosted_uri(addr: &ResultAddress, region: &str) -> (r: String)
    ensures
        r@ == virtual_hosted_uri_spec(addr.container@, addr.key@, region@),
{
    let mut r = "https://".to_owned();
    r.append(addr.container.as_str());
    r.append(".s3.");
    r.append(region);
    r.append(".amazonaws.com/");
    r.append(addr.key.as_str());
    r
}

/// The path-style URI of an address:
/// `https://s3.<region>.amazonaws.com/container/key`.
pub open spec fn path_style_uri_spec(
    container: Seq<char>,
    key: Seq<char>,
    region: Seq<char>,
) -> Seq<char> {
    "https://s3."@ + region + ".amazonaws.com/"@ + container + "/"@ + key
}

/// A sequence with no `/` in its first part splits at the `/` that joins the
/// parts.
proof fn lemma_split_concat(c: Seq<char>, k: Seq<char>)
    requires
        c.len() > 0,
        forall|i: int| 0 <= i < c.len() ==> c[i] != '/',
        k.len() > 0,
    ensures
        split_container_key(c + "/"@ + k) == Some((c, k)),
{
    reveal_strlit("/");
    let s = c + "/"@ + k;
    assert(s[c.len() as int] == '/') by {
        assert((c + "/"@)[c.len() as int] == "/"@[0]);
    }
    assert forall|j: int| 0 <= j < c.len() implies s[j] != '/' by {
        assert(s[j] == (c + "/"@)[j]);
        assert((c + "/"@)[j] == c[j]);
    }
    text::lemma_find_char_at(s, '/', c.len() as int);
    assert(s.subrange(0, c.len() as int) =~= c);
    assert(s.subrange(c.len() as int + 1, s.len() as int) =~= k);
}

/// Rendering an address in the scheme form and resolving it again yields the
/// same address, for any container without `/` and any non-empty key.
pub proof fn lemma_scheme_round_trip(c: Seq<char>, k: Seq<char>)
    requires
        c.len() > 0,
        forall|i: int| 0 <= i < c.len() ==> c[i] != '/',
        k.len() > 0,
    ensures
        resolve_spec(scheme_uri_spec(c, k)) == Some((c, k)),
{
    reveal_strlit("s3://");
    reveal_strlit("/");
    let u = scheme_uri_spec(c, k);
    let s = c + "/"@ + k;
    assert(u =~= "s3://"@ + s);
    assert(text::is_prefix_of("s3://"@, u)) by {
        assert(u.subrange(0, 5) =~= "s3://"@);
    }
    assert(u.subrange(5, u.len() as int) =~= s);
    lemma_split_concat(c, k);
}

/// Rendering an address in the virtual-hosted form and resolving it again
/// yields the same address, for any container without `/` or `.`, any region
/// without `/`, and any non-empty key.
pub proof fn lemma_virtual_hosted_round_trip(c: Seq<char>, k: Seq<char>, region: Seq<char>)
    requires
        c.len() > 0,
        forall|i: int| 0 <= i < c.len() ==> c[i] != '/',
        forall|i: int| 0 <= i < c.len() ==> c[i] != '.',
        forall|i: int| 0 <= i < region.len() ==> region[i] != '/',
        k.len() > 0,
    ensures
        resolve_spec(virtual_hosted_uri_spec(c, k, region)) == Some((c, k)),
{
    reveal_strlit("https://");
    reveal_strlit(".s3.");
    reveal_strlit("s3.");
    reveal_strlit(".amazonaws.com");
    reveal_strlit(".amazonaws.com/");
    reveal_strlit("s3://");
    reveal_strlit("/");
    let u = virtual_hosted_uri_spec(c, k, region);
    let auth = c + ".s3."@ + region + ".amazonaws.com"@;
    let rest = auth + "/"@ + k;
    assert(u =~= "https://"@ + rest);
    assert(!text::is_prefix_of("s3://"@, u)) by {
        if text::is_prefix_of("s3://"@, u) {
            assert(u.subrange(0, 5)[0] == u[0]);
            assert(u[0] == 'h');
        }
    }
    assert forall|i: int| 0 <= i < ".s3."@.len() implies ".s3."@[i] != '/' by {
        assert(".s3."@.len() == 4);
    }
    assert forall|i: int| 0 <= i < ".amazonaws.com"@.len() implies ".amazonaws.com"@[i] != '/' by {
        assert(".amazonaws.com"@.len() == 14);
    }
    text::lemma_concat_no_char(c, ".s3."@, '/');
    text::lemma_concat_no_char(c + ".s3."@, region, '/');
    text::lemma_concat_no_char(c + ".s3."@ + region, ".amazonaws.com"@, '/');
    lemma_authority_and_path(auth, k);
    assert(u.subrange(8, u.len() as int) =~= rest);
    lemma_virtual_hosted_shape(c, region);
    assert(auth.subrange(0, c.len() as int) =~= c);
}

/// The authority of the rendered virtual-hosted form is recognized as
/// virtual-hosted, with the container as its first label.
proof fn lemma_virtual_hosted_shape(c: Seq<char>, region: Seq<char>)
    requires
        c.len() > 0,
        forall|i: int| 0 <= i < c.len() ==> c[i] != '.',
    ensures
        is_virtual_hosted(c + ".s3."@ + region + ".amazonaws.com"@),
        text::find_char_spec(c + ".s3."@ + region + ".amazonaws.com"@, '.') == Some(
            c.len() as int,
        ),
{
    reveal_strlit(".s3.");
    reveal_strlit("s3.");
    reveal_strlit(".amazonaws.com");
    let auth = c + ".s3."@ + region + ".amazonaws.com"@;
    assert(auth[c.len() as int] == '.') by {
        assert((c + ".s3."@)[c.len() as int] == ".s3."@[0]);
        assert((c + ".s3."@ + region)[c.len() as int] == (c + ".s3."@)[c.len() as int]);
        assert(auth[c.len() as int] == (c + ".s3."@ + region)[c.len() as int]);
    }
    assert forall|j: int| 0 <= j < c.len() implies auth[j] != '.' by {
        assert(auth[j] == (c + ".s3."@ + region)[j]);
        assert((c + ".s3."@ + region)[j] == (c + ".s3."@)[j]);
        assert((c + ".s3."@)[j] == c[j]);
    }
    text::lemma_find_char_at(auth, '.', c.len() as int);
    let after = auth.subrange(c.len() as int + 1, auth.len() as int);
    assert(after =~= "s3."@ + region + ".amazonaws.com"@);
    assert(text::is_prefix_of("s3."@, after)) by {
        assert(after.subrange(0, 3) =~= "s3."@);
    }
    assert(text::is_suffix_of(".amazonaws.com"@, auth)) by {
        assert(auth.subrange(auth.len() - 14, auth.len() as int) =~= ".amazonaws.com"@);
    }
}

/// For a URI `https://` + authority + `/` + path with no `/` in the
/// authority, the generic split recovers the authority and the path.
proof fn lemma_authority_and_path(auth: Seq<char>, path: Seq<char>)
    requires
        forall|i: int| 0 <= i < auth.len() ==> auth[i] != '/',
    ensures
        authority_and_path("https://"@ + (auth + "/"@ + path)) == Some((auth, path)),
{
    reveal_strlit("https://");
    reveal_strlit("/");
    let rest = auth + "/"@ + path;
    let u = "https://"@ + rest;
    assert(u[5] == ':') by {
        assert(u[5] == "https://"@[5]);
    }
    assert forall|j: int| 0 <= j < 5 implies u[j] != ':' by {
        assert(u[j] == "https://"@[j]);
    }
    text::lemma_find_char_at(u, ':', 5);
    assert(u[6] == '/') by {
        assert(u[6] == "https://"@[6]);
        assert("https://"@[6] == '/');
    }
    assert(u[7] == '/') by {
        assert(u[7] == "https://"@[7]);
        assert("https://"@[7] == '/');
    }
    assert(u.subrange(8, u.len() as int) =~= rest);
    assert(rest[auth.len() as int] == '/') by {
        assert((auth + "/"@)[auth.len() as int] == "/"@[0]);
        assert(rest[auth.len() as int] == (auth + "/"@)[auth.len() as int]);
    }
    assert forall|j: int| 0 <= j < auth.len() implies rest[j] != '/' by {
        assert(rest[j] == (auth + "/"@)[j]);
        assert((auth + "/"@)[j] == auth[j]);
    }
    text::lemma_find_char_at(rest, '/', auth.len() as int);
    assert(rest.subrange(0, auth.len() as int) =~= auth);
    assert(rest.subrange(auth.len() as int + 1, rest.len() as int) =~= path);
}

/// Rendering an address in the path-style form and resolving it again yields
/// the same address: the service-labelled authority is not taken for a
/// container. Holds for any region without `/` whose name does not itself
/// begin like a virtual-hosted label.
pub proof fn lemma_path_style_round_trip(c: Seq<char>, k: Seq<char>, region: Seq<char>)
    requires
        c.len() > 0,
        forall|i: int| 0 <= i < c.len() ==> c[i] != '/',
        forall|i: int| 0 <= i < region.len() ==> region[i] != '/',
        !text::is_prefix_of("s3."@, region + ".amazonaws.com"@),
        k.len() > 0,
    ensures
        resolve_spec(path_style_uri_spec(c, k, region)) == Some((c, k)),
{
    reveal_strlit("https://s3.");
    reveal_strlit("https://");
    reveal_strlit("s3.");
    reveal_strlit(".amazonaws.com");
    reveal_strlit(".amazonaws.com/");
    reveal_strlit("s3://");
    reveal_strlit("/");
    let u = path_style_uri_spec(c, k, region);
    let auth = "s3."@ + region + ".amazonaws.com"@;
    let path = c + "/"@ + k;
    let rest = auth + "/"@ + path;
    assert(u =~= "https://"@ + rest);
    assert(!text::is_prefix_of("s3://"@, u)) by {
        if text::is_prefix_of("s3://"@, u) {
            assert(u.subrange(0, 5)[2] == u[2]);
            assert(u[2] == ("https://"@ + rest)[2]);
            assert(u[2] == 't');
            assert("s3://"@[2] == ':');
        }
    }
    assert forall|i: int| 0 <= i < "s3."@.len() implies "s3."@[i] != '/' by {
        assert("s3."@.len() == 3);
    }
    assert forall|i: int| 0 <= i < ".amazonaws.com"@.len() implies ".amazonaws.com"@[i] != '/' by {
        assert(".amazonaws.com"@.len() == 14);
    }
    text::lemma_concat_no_char("s3."@, region, '/');
    text::lemma_concat_no_char("s3."@ + region, ".amazonaws.com"@, '/');
    lemma_authority_and_path(auth, path);
    assert(u.subrange(8, u.len() as int) =~= rest);
    assert(!is_virtual_hosted(auth)) by {
        assert(auth[2] == '.') by {
            assert(("s3."@ + region)[2] == "s3."@[2]);
            assert(auth[2] == ("s3."@ + region)[2]);
        }
        assert(auth[0] == 's') by {
            assert(("s3."@ + region)[0] == "s3."@[0]);
            assert(auth[0] == ("s3."@ + region)[0]);
        }
        assert(auth[1] == '3') by {
            assert(("s3."@ + region)[1] == "s3."@[1]);
            assert(auth[1] == ("s3."@ + region)[1]);
        }
        text::lemma_find_char_at(auth, '.', 2);
        assert(auth.subrange(3, auth.len() as int) =~= region + ".amazonaws.com"@);
    }
    lemma_split_concat(c, k);
}

/// Render an address in the path-style form for a region.
pub fn path_style_uri(addr: &ResultAddress, region: &str) -> (r: String)
    ensures
        r@ == path_style_uri_spec(addr.container@, addr.key@, region@),
{
    let mut r = "https://s3.".to_owned();
    r.append(region);
    r.append(".amazonaws.com/");
    r.append(addr.container.as_str());
    r.append("/");
    r.append(addr.key.as_str());
    r
}

} // verus!
