//! The object fetcher's pure half: derive the local filename for a resolved
//! address and the path the object body is to be written to.
//!
//! Creating the destination directory and streaming the object body are
//! outside work; what the library owns is the rule for the filename — the
//! last path segment of the object key — and the rule for the target path.
//! A key without an extractable filename (one ending in `/`, or empty) is
//! `InvalidResultUri`.

use crate::errors::QueryError;
use crate::text;
use vstd::prelude::*;
use vstd::string::StrSliceExecFns;
use vstd::string::StringExecFns;

verus! {

/// Index of the last `/` in `k`, if any.
pub open spec fn last_slash(k: Seq<char>) -> Option<int>
    decreases k.len(),
{
    if k.len() == 0 {
        None
    } else if k[k.len() - 1] == '/' {
        Some(k.len() - 1)
    } else {
        last_slash(k.drop_last())
    }
}

/// `last_slash` returns the greatest index holding `/`, or `None` when none
/// does.
pub proof fn lemma_last_slash(k: Seq<char>)
    ensures
        match last_slash(k) {
            Some(i) => 0 <= i < k.len() && k[i] == '/' && (forall|j: int|
                i < j < k.len() ==> k[j] != '/'),
            None => forall|j: int| 0 <= j < k.len() ==> k[j] != '/',
        },
    decreases k.len(),
{
    if k.len() > 0 && k[k.len() - 1] != '/' {
        lemma_last_slash(k.drop_last());
        let head = k.drop_last();
        assert(forall|j: int| 0 <= j < head.len() ==> head[j] == k[j]);
    }
}

/// The last path segment of an object key: everything after its last `/`,
/// or the whole key when it has none.
pub open spec fn last_segment(k: Seq<char>) -> Seq<char> {
    match last_slash(k) {
        None => k,
        Some(i) => k.subrange(i + 1, k.len() as int),
    }
}

/// The filename a key's object is stored under locally: the key's last path
/// segment. Fails with `InvalidResultUri` exactly when that segment is empty
/// — the key ends in `/` or is itself empty.
pub fn file_name_of_key(key: &str) -> (r: Result<String, QueryError>)
    ensures
        match r {
            Ok(name) => name@ == last_segment(key@) && last_segment(key@).len() > 0,
            Err(e) => e is InvalidResultUri && last_segment(key@).len() == 0,
        },
{
    let n = text::str_len(key);
    let mut i: usize = n;
    while i > 0
        invariant
            0 <= i <= n,
            n == key@.len(),
            forall|j: int| i <= j < n ==> key@[j] != '/',
        decreases i,
    {
        if key.get_char(i - 1) == '/' {
            proof {
                lemma_last_slash_at(key@, i - 1);
            }
            if i < n {
                return Ok(text::substring(key, i, n));
            } else {
                return Err(QueryError::InvalidResultUri(key.to_owned()));
            }
        }
        i -= 1;
    }
    proof {
        assert(last_slash(key@) is None) by {
            lemma_last_slash(key@);
            match last_slash(key@) {
                Some(t) => {
                    assert(key@[t] != '/');
                },
                None => {},
            }
        }
    }
    if n > 0 {
        Ok(key.to_owned())
    } else {
        Err(QueryError::InvalidResultUri(key.to_owned()))
    }
}

/// Any index holding `/` with no later occurrence is the one `last_slash`
/// returns.
proof fn lemma_last_slash_at(k: Seq<char>, i: int)
    requires
        0 <= i < k.len(),
        k[i] == '/',
        forall|j: int| i < j < k.len() ==> k[j] != '/',
    ensures
        last_slash(k) == Some(i),
{
    lemma_last_slash(k);
    match last_slash(k) {
        Some(t) => {
            if t < i {
                assert(k[i] != '/');
            }
            if i < t {
                assert(k[t] != '/');
            }
        },
        None => {
            assert(k[i] != '/');
        },
    }
}

/// The local path a downloaded object is written to: the destination
/// directory joined with the key's filename. Fails with `InvalidResultUri`
/// exactly when the key has no extractable filename.
pub fn download_target(dest_dir: &str, key: &str) -> (r: Result<String, QueryError>)
    ensures
        match r {
            Ok(path) => last_segment(key@).len() > 0 && path@ == (if dest_dir@.len() > 0
                && dest_dir@[dest_dir@.len() - 1] == '/' {
                dest_dir@ + last_segment(key@)
            } else {
                dest_dir@ + "/"@ + last_segment(key@)
            }),
            Err(e) => e is InvalidResultUri && last_segment(key@).len() == 0,
        },
{
    let name = match file_name_of_key(key) {
        Ok(name) => name,
        Err(e) => {
            return Err(e);
        },
    };
    let n = text::str_len(dest_dir);
    let mut path = dest_dir.to_owned();
    if n == 0 || dest_dir.get_char(n - 1) != '/' {
        path.append("/");
    }
    path.append(name.as_str());
    Ok(path)
}

} // verus!
