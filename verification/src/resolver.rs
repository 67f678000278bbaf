//! Classification of a play request's query string.
//!
//! A query is either a platform URL or free text.  The URL's domain, path
//! and query parameters decide what the metadata client should be asked
//! for: a playlist, a single video, a watch page that names both (where the
//! playlist is preferred and the video is the fallback), or a search.  The
//! URL is taken apart by the `url` crate behind trusted wrappers; every
//! decision made on the parts is verified here.

use vstd::prelude::*;

verus! {

/// What the query asks the metadata client for.
#[derive(Debug)]
pub enum SourceQuery {
    /// Free text (not an absolute URL): search for it.
    Search(String),
    /// A playlist page naming this playlist.
    Playlist(String),
    /// A watch page naming a playlist and possibly a video: fetch the
    /// playlist; fall back to the video if the playlist cannot be fetched.
    WatchList { playlist_id: String, video_id: Option<String> },
    /// A watch page naming just this video.
    Video(String),
    /// Not a supported platform URL, or one naming nothing fetchable.
    Unsupported,
}

/// The value of the first query parameter with the given key.
pub open spec fn spec_find_param(pairs: Seq<(String, String)>, key: Seq<char>) -> Option<String>
    decreases pairs.len(),
{
    if pairs.len() == 0 {
        None
    } else if pairs[0].0@ == key {
        Some(pairs[0].1)
    } else {
        spec_find_param(pairs.drop_first(), key)
    }
}

/// `needle` occurs contiguously in `hay`.
pub open spec fn spec_contains(hay: Seq<char>, needle: Seq<char>) -> bool {
    exists|k: int|
        0 <= k <= hay.len() - needle.len() && #[trigger] hay.subrange(k, k + needle.len())
            == needle
}

/// Two strings hold the same characters.
pub fn str_eq(a: &str, b: &str) -> (r: bool)
    ensures
        r == (a@ == b@),
{
    let n = a.unicode_len();
    let m = b.unicode_len();
    if n != m {
        proof {
            assert(a@ != b@);
        }
        return false;
    }
    let mut i: usize = 0;
    while i < n
        invariant
            0 <= i <= n,
            n == a@.len(),
            n == b@.len(),
            forall|j: int| 0 <= j < i ==> a@[j] == b@[j],
        decreases n - i,
    {
        if a.get_char(i) != b.get_char(i) {
            proof {
                assert(a@[i as int] != b@[i as int]);
            }
            return false;
        }
        i = i + 1;
    }
    proof {
        assert(a@ =~= b@);
    }
    true
}

/// `needle` matches `hay` starting at `k`.
fn match_at(hay: &str, needle: &str, k: usize, hay_len: usize, needle_len: usize) -> (r: bool)
    requires
        hay_len == hay@.len(),
        needle_len == needle@.len(),
        k + needle_len <= hay_len,
    ensures
        r == (hay@.subrange(k as int, k + needle@.len()) == needle@),
{
    let mut j: usize = 0;
    while j < needle_len
        invariant
            0 <= j <= needle_len,
            hay_len == hay@.len(),
            needle_len == needle@.len(),
            k + needle_len <= hay_len,
            forall|t: int| 0 <= t < j ==> hay@[k + t] == needle@[t],
        decreases needle_len - j,
    {
        if hay.get_char(k + j) != needle.get_char(j) {
            proof {
                assert(hay@.subrange(k as int, k + needle@.len())[j as int] == hay@[k + j]);
            }
            return false;
        }
        j = j + 1;
    }
    proof {
        assert(hay@.subrange(k as int, k + needle@.len()) =~= needle@);
    }
    true
}

/// Whether `needle` occurs in `hay`, exactly as `spec_contains` describes.
pub fn contains_str(hay: &str, needle: &str) -> (r: bool)
    ensures
        r == spec_contains(hay@, needle@),
{
    let n = hay.unicode_len();
    let m = needle.unicode_len();
    if m > n {
        proof {
            assert(!spec_contains(hay@, needle@));
        }
        return false;
    }
    if m == 0 {
        proof {
            assert(hay@.subrange(0, 0 + needle@.len() as int) =~= needle@);
            assert(spec_contains(hay@, needle@));
        }
        return true;
    }
    let mut k: usize = 0;
    while k <= n - m
        invariant
            0 <= k <= n - m + 1,
            0 < m <= n,
            n == hay@.len(),
            m == needle@.len(),
            forall|t: int|
                0 <= t < k ==> #[trigger] hay@.subrange(t, t + needle@.len()) != needle@,
        decreases n - k,
    {
        if match_at(hay, needle, k, n, m) {
            return true;
        }
        k = k + 1;
    }
    false
}

/// The value of the first query parameter with the given key, exactly as
/// `spec_find_param` describes.
pub fn find_param(pairs: &Vec<(String, String)>, key: &str) -> (r: Option<String>)
    ensures
        r == spec_find_param(pairs@, key@),
{
    proof {
        assert(pairs@.skip(0) =~= pairs@);
    }
    let mut i: usize = 0;
    while i < pairs.len()
        invariant
            0 <= i <= pairs.len(),
            spec_find_param(pairs@, key@) == spec_find_param(pairs@.skip(i as int), key@),
        decreases pairs.len() - i,
    {
        proof {
            assert(pairs@.skip(i as int)[0] == pairs@[i as int]);
            assert(pairs@.skip(i as int).drop_first() =~= pairs@.skip(i + 1));
        }
        if str_eq(pairs[i].0.as_str(), key) {
            return Some(pairs[i].1.clone());
        }
        i = i + 1;
    }
    proof {
        assert(pairs@.skip(pairs@.len() as int) =~= Seq::<(String, String)>::empty());
    }
    None
}

/// What the URL's parts ask for.  A URL without a domain, or whose domain
/// is not the supported platform, names nothing fetchable.  A playlist page
/// needs its `list` parameter.  A watch page consults `list` only when it
/// carries more than one parameter, and falls back to its `v` parameter.
pub open spec fn spec_classify(
    domain: Option<String>,
    path: String,
    pairs: Seq<(String, String)>,
) -> SourceQuery {
    match domain {
        None => SourceQuery::Unsupported,
        Some(d) => if !spec_contains(d@, "youtube.com"@) {
            SourceQuery::Unsupported
        } else if path@ == "/playlist"@ {
            match spec_find_param(pairs, "list"@) {
                Some(id) => SourceQuery::Playlist(id),
                None => SourceQuery::Unsupported,
            }
        } else if path@ == "/watch"@ {
            let list = if pairs.len() > 1 {
                spec_find_param(pairs, "list"@)
            } else {
                None
            };
            match (list, spec_find_param(pairs, "v"@)) {
                (Some(l), v) => SourceQuery::WatchList { playlist_id: l, video_id: v },
                (None, Some(v)) => SourceQuery::Video(v),
                (None, None) => SourceQuery::Unsupported,
            }
        } else {
            SourceQuery::Unsupported
        },
    }
}

/// Classifies a parsed URL's parts, exactly as `spec_classify` describes.
pub fn classify_parts(
    domain: &Option<String>,
    path: &String,
    pairs: &Vec<(String, String)>,
) -> (r: SourceQuery)
    ensures
        r == spec_classify(*domain, *path, pairs@),
{
    let d = match domain {
        None => {
            return SourceQuery::Unsupported;
        },
        Some(d) => d,
    };
    if !contains_str(d.as_str(), "youtube.com") {
        SourceQuery::Unsupported
    } else if str_eq(path.as_str(), "/playlist") {
        match find_param(pairs, "list") {
            Some(id) => SourceQuery::Playlist(id),
            None => SourceQuery::Unsupported,
        }
    } else if str_eq(path.as_str(), "/watch") {
        let list = if pairs.len() > 1 {
            find_param(pairs, "list")
        } else {
            None
        };
        match list {
            Some(l) => SourceQuery::WatchList { playlist_id: l, video_id: find_param(pairs, "v") },
            None => match find_param(pairs, "v") {
                Some(v) => SourceQuery::Video(v),
                None => SourceQuery::Unsupported,
            },
        }
    } else {
        SourceQuery::Unsupported
    }
}

#[verifier::external_type_specification]
#[verifier::external_body]
pub struct ExUrl(url::Url);

/// Relies on `url::Url::parse`: parses an absolute URL, or reports that the
/// text is not one.
#[verifier::external_body]
fn parse_url(s: &str) -> (r: Option<url::Url>) {
    url::Url::parse(s).ok()
}

/// Relies on `url::Url::domain`: the host, when it is a domain name.
#[verifier::external_body]
fn url_domain(u: &url::Url) -> (r: Option<String>) {
    u.domain().map(|d| d.to_string())
}

/// Relies on `url::Url::path`: the URL's path.
#[verifier::external_body]
fn url_path(u: &url::Url) -> (r: String) {
    u.path().to_string()
}

/// Relies on `url::Url::query_pairs`: the query string's key/value pairs,
/// decoded and in order.
#[verifier::external_body]
fn url_query_pairs(u: &url::Url) -> (r: Vec<(String, String)>) {
    u.query_pairs().map(|(k, v)| (k.into_owned(), v.into_owned())).collect()
}

/// Classifies a raw query string.  Text that does not parse as an absolute
/// URL is a search for exactly that text; a parsed URL is classified from
/// its parts by the verified `classify_parts`.
pub fn classify_source(query: &String) -> (r: SourceQuery)
    ensures
        (r matches SourceQuery::Search(q) ==> q@ == query@),
        (!(r is Search) ==> exists|d: Option<String>, p: String, prs: Seq<(String, String)>|
            r == #[trigger] spec_classify(d, p, prs)),
{
    match parse_url(query.as_str()) {
        None => SourceQuery::Search(query.clone()),
        Some(u) => {
            let domain = url_domain(&u);
            let path = url_path(&u);
            let pairs = url_query_pairs(&u);
            let r = classify_parts(&domain, &path, &pairs);
            proof {
                assert(r == spec_classify(domain, path, pairs@));
            }
            r
        },
    }
}

} // verus!
