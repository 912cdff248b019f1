use vstd::prelude::*;

use url::{ParseError, Url};

verus! {

#[verifier::external_type_specification]
#[verifier::external_body]
pub struct ExUrl(Url);

#[verifier::external_type_specification]
#[verifier::external_body]
pub struct ExParseError(ParseError);

/// Whether `Url::parse` accepts the text as an absolute URL.
pub uninterp spec fn url_parses(text: Seq<char>) -> bool;

/// `Url::host_str` of the URL that `Url::parse` makes from the text.
pub uninterp spec fn url_host_of(text: Seq<char>) -> Option<Seq<char>>;

/// Serialization (`Url::as_str`) of the URL that `Url::parse` makes from the
/// text, once `set_fragment(None)`, `set_path("")` and `set_query(None)` have
/// cleared its fragment, path and query.
pub uninterp spec fn url_root_of(text: Seq<char>) -> Seq<char>;

/// Text of an optional string.
pub open spec fn opt_text(o: Option<String>) -> Option<Seq<char>> {
    match o {
        Some(s) => Some(s@),
        None => None,
    }
}

/// Relies on `url::Url::parse` (a URL exactly when it accepts the text),
/// then on `Url::host_str` for the host and on `Url::set_fragment`,
/// `Url::set_path`, `Url::set_query` and `Url::as_str` for the root. Each
/// depends on the text alone.
#[verifier::external_body]
fn url_parts(text: &str) -> (r: Result<(Option<String>, String), ParseError>)
    ensures
        r is Ok <==> url_parses(text@),
        r matches Ok((host, root)) ==> opt_text(host) == url_host_of(text@) && root@ == url_root_of(
            text@,
        ),
{
    let mut url = Url::parse(text)?;
    let host = url.host_str().map(|h| h.to_owned());
    url.set_fragment(None);
    url.set_path("");
    url.set_query(None);
    Ok((host, url.as_str().to_owned()))
}

/// Object store that a path lives in.
#[derive(Clone, Copy, Debug, PartialEq, Eq, Structural)]
pub enum StoreKind {
    /// Amazon S3, `s3://bucket/...`.
    S3,
    /// Google Cloud Storage, `gs://bucket/...`.
    Gcs,
}

/// `s` starts with `prefix`.
pub open spec fn starts_with(s: Seq<char>, prefix: Seq<char>) -> bool {
    prefix.len() <= s.len() && s.subrange(0, prefix.len() as int) == prefix
}

/// Object store that a path's scheme names, if any.
pub open spec fn store_kind_spec(path: Seq<char>) -> Option<StoreKind> {
    if starts_with(path, seq!['s', '3', ':', '/', '/']) {
        Some(StoreKind::S3)
    } else if starts_with(path, seq!['g', 's', ':', '/', '/']) {
        Some(StoreKind::Gcs)
    } else {
        None
    }
}

fn has_prefix(path: &str, prefix: &Vec<char>) -> (r: bool)
    ensures
        r == starts_with(path@, prefix@),
{
    let n = path.unicode_len();
    let m = prefix.len();
    if m > n {
        return false;
    }
    let mut i: usize = 0;
    while i < m
        invariant
            n == path@.len(),
            m == prefix@.len(),
            m <= n,
            i <= m,
            forall|j: int| 0 <= j < i ==> path@[j] == prefix@[j],
        decreases m - i,
    {
        if path.get_char(i) != prefix[i] {
            assert(path@.subrange(0, m as int)[i as int] != prefix@[i as int]);
            return false;
        }
        i = i + 1;
    }
    assert(path@.subrange(0, m as int) =~= prefix@);
    true
}

/// Object store that `path`'s scheme names: `s3://` or `gs://`.
pub fn store_kind(path: &str) -> (r: Option<StoreKind>)
    ensures
        r == store_kind_spec(path@),
{
    let s3 = vec!['s', '3', ':', '/', '/'];
    let gs = vec!['g', 's', ':', '/', '/'];
    assert(s3@ == seq!['s', '3', ':', '/', '/']);
    assert(gs@ == seq!['g', 's', ':', '/', '/']);
    if has_prefix(path, &s3) {
        Some(StoreKind::S3)
    } else if has_prefix(path, &gs) {
        Some(StoreKind::Gcs)
    } else {
        None
    }
}

/// A bucket to register before reading a path in an object store.
pub struct StoreRegistration {
    /// Which object store.
    pub kind: StoreKind,
    /// Name of the bucket: the URL's host.
    pub bucket: String,
    /// The URL with no path, query or fragment, under which the store is registered.
    pub root: String,
}

/// Why an object store cannot be registered.
#[derive(Debug)]
pub enum StoreError {
    /// The path is not a valid URL.
    InvalidUrl(ParseError),
    /// The URL names no bucket.
    BucketNameMissing,
}

impl StoreError {
    /// Whether the URL named no bucket.
    pub fn is_bucket_name_missing(&self) -> (r: bool)
        ensures
            r == (*self is BucketNameMissing),
    {
        match self {
            StoreError::BucketNameMissing => true,
            StoreError::InvalidUrl(_) => false,
        }
    }

    /// One-line description for the user, for a missing bucket.
    pub fn message(&self) -> (r: Option<&'static str>)
        ensures
            *self is BucketNameMissing ==> (r matches Some(m) && m@ == "URI is missing bucket name"@),
            *self is InvalidUrl ==> r is None,
    {
        match self {
            StoreError::BucketNameMissing => Some("URI is missing bucket name"),
            StoreError::InvalidUrl(_) => None,
        }
    }
}

/// Registration for a parsed store URL, from its host and its root: a URL
/// without a host names no bucket.
pub fn registration_from(kind: StoreKind, host: Option<String>, root: String) -> (r: Result<
    StoreRegistration,
    StoreError,
>)
    ensures
        host is None ==> r matches Err(StoreError::BucketNameMissing),
        host matches Some(h) ==> r matches Ok(reg) && reg.kind == kind && reg.bucket@ == h@
            && reg.root@ == root@,
{
    match host {
        Some(bucket) => Ok(StoreRegistration { kind, bucket, root }),
        None => Err(StoreError::BucketNameMissing),
    }
}

/// The object store to register before reading `path`: none for a path that
/// is not an `s3://` or `gs://` URL; an error for one that does not parse as
/// a URL or names no bucket; otherwise the URL's host as the bucket, and the
/// URL without fragment, path and query as the root.
pub fn storage_for(path: &str) -> (r: Result<Option<StoreRegistration>, StoreError>)
    ensures
        store_kind_spec(path@) is None ==> r matches Ok(None),
        store_kind_spec(path@) is Some && !url_parses(path@) ==> r matches Err(
            StoreError::InvalidUrl(_),
        ),
        store_kind_spec(path@) is Some && url_parses(path@) && url_host_of(path@) is None ==> r matches Err(
            StoreError::BucketNameMissing,
        ),
        store_kind_spec(path@) is Some && url_parses(path@) ==> (url_host_of(path@) matches Some(h)
            ==> (r matches Ok(Some(reg)) && Some(reg.kind) == store_kind_spec(path@) && reg.bucket@
            == h && reg.root@ == url_root_of(path@))),
{
    let kind = match store_kind(path) {
        Some(k) => k,
        None => return Ok(None),
    };
    match url_parts(path) {
        Ok((host, root)) => match registration_from(kind, host, root) {
            Ok(reg) => Ok(Some(reg)),
            Err(e) => Err(e),
        },
        Err(e) => Err(StoreError::InvalidUrl(e)),
    }
}

} // verus!
