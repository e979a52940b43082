//! The media cache manager's decision core: `mxc://` locator parsing,
//! the deterministic cache filename, the download URL, size enforcement
//! and cache statistics. The surrounding shell performs the actual
//! network and filesystem I/O and feeds the observed values in.

use vstd::prelude::*;

use crate::error::AppError;
use crate::strutil::{find_char, starts_with, trim_end_char, trim_end_len, u64_to_string, spec_decimal};

verus! {

/// Options of one media download.
#[derive(Debug, Clone)]
pub struct DownloadMediaOptions {
    /// Matrix content URI (`mxc://`).
    pub mxc_uri: String,
    /// Force re-download even if cached.
    pub force: bool,
    /// Maximum file size in bytes.
    pub max_size: Option<usize>,
}

/// Result of one media download.
#[derive(Debug, Clone)]
pub struct DownloadMediaResult {
    /// Local file path.
    pub local_path: String,
    /// File size in bytes.
    pub size: u64,
    /// MIME type.
    pub mime_type: String,
}

/// Aggregate cache statistics, always derived from a fresh directory scan.
#[derive(Debug, Clone)]
pub struct CacheStats {
    /// Number of cached files.
    pub count: usize,
    /// Total cache size in bytes.
    pub total_size: u64,
    /// Oldest entry timestamp.
    pub oldest_entry: Option<u64>,
    /// Newest entry timestamp.
    pub newest_entry: Option<u64>,
}

/// What a directory scan observed about one entry.
#[derive(Debug, Clone)]
pub struct CacheEntryMeta {
    /// Whether the entry is a regular file; other entries are ignored.
    pub is_file: bool,
    /// Byte length.
    pub size: u64,
    /// Last-modified time as seconds since the epoch, where available.
    pub modified: Option<u64>,
}

/// A well-formed content locator: the fixed scheme prefix, a non-empty
/// authority free of separators, a separator, and a non-empty media id
/// (which may itself contain further separators).
pub open spec fn spec_valid_locator(s: Seq<char>) -> bool {
    &&& s.len() > 6
    &&& s.subrange(0, 6) == "mxc://"@
    &&& exists|i: int|
        7 <= i && i + 1 < s.len() && s[i] == '/'
            && (forall|j: int| 6 <= j < i ==> s[j] != '/')
}

/// Parses an MXC URI into (server name, media id).
///
/// Splits at the first separator after the scheme only: the media id may
/// contain separators and is not re-split. Fails when the prefix is
/// absent, when no separator follows the authority, or when either
/// segment is empty. The reconstruction equation in the contract pins
/// both segments: `lemma_locator_split_unique` shows that only one
/// split satisfies it.
pub fn parse_mxc_uri(mxc_uri: &str) -> (r: Result<(String, String), AppError>)
    ensures
        r matches Ok(p) ==> {
            &&& mxc_uri@ == "mxc://"@ + p.0@ + seq!['/'] + p.1@
            &&& p.0@.len() >= 1
            &&& p.1@.len() >= 1
            &&& forall|j: int| 0 <= j < p.0@.len() ==> p.0@[j] != '/'
        },
        r is Ok <==> spec_valid_locator(mxc_uri@),
        r matches Err(e) ==> e is InvalidUri,
{
    proof {
        reveal_strlit("mxc://");
    }
    if !starts_with(mxc_uri, "mxc://") {
        proof {
            assert(!spec_valid_locator(mxc_uri@));
        }
        return Err(AppError::InvalidUri(String::from_str("Invalid MXC URI format")));
    }
    let len = mxc_uri.unicode_len();
    let rest = mxc_uri.substring_char(6, len);
    let rest_len = rest.unicode_len();
    match find_char(rest, '/') {
        None => {
            proof {
                assert forall|i: int| 7 <= i < mxc_uri@.len() implies mxc_uri@[i] != '/' by {
                    assert(rest@[i - 6] == mxc_uri@[i]);
                }
                assert(!spec_valid_locator(mxc_uri@));
            }
            Err(AppError::InvalidUri(String::from_str("Missing media ID in MXC URI")))
        },
        Some(i) => {
            if i == 0 {
                proof {
                    assert forall|k: int|
                        7 <= k && k + 1 < mxc_uri@.len() && mxc_uri@[k] == '/' implies
                        !(forall|j: int| 6 <= j < k ==> mxc_uri@[j] != '/') by {
                        assert(mxc_uri@[6] == rest@[0]);
                    }
                    assert(!spec_valid_locator(mxc_uri@));
                }
                Err(AppError::InvalidUri(String::from_str("Missing server name in MXC URI")))
            } else if i + 1 >= rest_len {
                proof {
                    assert forall|k: int|
                        7 <= k && k + 1 < mxc_uri@.len() && mxc_uri@[k] == '/' implies
                        !(forall|j: int| 6 <= j < k ==> mxc_uri@[j] != '/') by {
                        // the only separator is the last character, so any
                        // candidate split point k has the real separator
                        // i + 6 strictly before it
                        if k != i + 6 {
                            assert(rest@[k - 6] == mxc_uri@[k]);
                            assert(k - 6 > i);
                            assert(mxc_uri@[i + 6] == rest@[i as int]);
                        }
                    }
                    assert(!spec_valid_locator(mxc_uri@));
                }
                Err(AppError::InvalidUri(String::from_str("Missing media ID in MXC URI")))
            } else {
                let server = rest.substring_char(0, i);
                let media = rest.substring_char(i + 1, rest_len);
                proof {
                    assert(mxc_uri@ =~= "mxc://"@ + server@ + seq!['/'] + media@);
                    assert forall|j: int| 0 <= j < server@.len() implies server@[j] != '/' by {
                        assert(server@[j] == rest@[j]);
                    }
                    assert(spec_valid_locator(mxc_uri@)) by {
                        assert(mxc_uri@[i + 6] == rest@[i as int]);
                        assert(forall|j: int| 6 <= j < i + 6 ==> mxc_uri@[j] == rest@[j - 6]);
                    }
                }
                Ok((server.to_owned(), media.to_owned()))
            }
        },
    }
}

/// The parser's contract determines the split: a locator has at most
/// one decomposition into a separator-free authority and a media id,
/// because the authority ends at the first separator.
pub proof fn lemma_locator_split_unique(
    s: Seq<char>,
    a1: Seq<char>,
    m1: Seq<char>,
    a2: Seq<char>,
    m2: Seq<char>,
)
    requires
        s == "mxc://"@ + a1 + seq!['/'] + m1,
        s == "mxc://"@ + a2 + seq!['/'] + m2,
        forall|j: int| 0 <= j < a1.len() ==> a1[j] != '/',
        forall|j: int| 0 <= j < a2.len() ==> a2[j] != '/',
    ensures
        a1 == a2,
        m1 == m2,
{
    let p = "mxc://"@.len() as int;
    if a1.len() < a2.len() {
        assert(s[p + a1.len()] == ("mxc://"@ + a1 + seq!['/'] + m1)[p + a1.len()]);
        assert(s[p + a1.len()] == ("mxc://"@ + a2 + seq!['/'] + m2)[p + a1.len()]);
        assert(a2[a1.len() as int] == '/');
        assert(false);
    }
    if a2.len() < a1.len() {
        assert(s[p + a2.len()] == ("mxc://"@ + a1 + seq!['/'] + m1)[p + a2.len()]);
        assert(s[p + a2.len()] == ("mxc://"@ + a2 + seq!['/'] + m2)[p + a2.len()]);
        assert(a1[a2.len() as int] == '/');
        assert(false);
    }
    assert(a1.len() == a2.len());
    assert(s.len() == p + a1.len() + 1 + m1.len());
    assert(s.len() == p + a2.len() + 1 + m2.len());
    assert(m1.len() == m2.len());
    assert(a1 =~= a2) by {
        assert forall|j: int| 0 <= j < a1.len() implies a1[j] == a2[j] by {
            assert(a1[j] == ("mxc://"@ + a1 + seq!['/'] + m1)[p + j]);
            assert(a2[j] == ("mxc://"@ + a2 + seq!['/'] + m2)[p + j]);
        }
    }
    assert(m1 =~= m2) by {
        assert forall|j: int| 0 <= j < m1.len() implies m1[j] == m2[j] by {
            assert(m1[j] == ("mxc://"@ + a1 + seq!['/'] + m1)[p + a1.len() + 1 + j]);
            assert(m2[j] == ("mxc://"@ + a2 + seq!['/'] + m2)[p + a2.len() + 1 + j]);
        }
    }
}

/// One sanitized character: path-hostile characters become underscores.
pub open spec fn sanitize_char(c: char) -> char {
    if c == '/' || c == ':' || c == '\\' {
        '_'
    } else {
        c
    }
}

/// A component with every path-hostile character replaced.
pub open spec fn spec_sanitize(s: Seq<char>) -> Seq<char> {
    s.map_values(|c: char| sanitize_char(c))
}

/// Replaces `/`, `:` and `\` with `_`, keeping every other character.
pub fn sanitize_component(s: &str) -> (r: String)
    ensures
        r@ == spec_sanitize(s@),
        r@.len() == s@.len(),
{
    let len = s.unicode_len();
    let mut out = String::new();
    let mut i: usize = 0;
    proof {
        assert(out@ =~= spec_sanitize(s@.subrange(0, 0)));
    }
    while i < len
        invariant
            i <= len,
            len == s@.len(),
            out@ == spec_sanitize(s@.subrange(0, i as int)),
        decreases len - i,
    {
        let c = s.get_char(i);
        if c == '/' || c == ':' || c == '\\' {
            out.append("_");
            proof {
                reveal_strlit("_");
            }
        } else {
            let piece = s.substring_char(i, i + 1);
            out.append(piece);
        }
        proof {
            assert(s@.subrange(0, i + 1).drop_last() =~= s@.subrange(0, i as int));
            assert(spec_sanitize(s@.subrange(0, i + 1)) =~= spec_sanitize(s@.subrange(0, i as int))
                + seq![sanitize_char(s@[i as int])]);
            assert(out@ =~= spec_sanitize(s@.subrange(0, i + 1)));
        }
        i = i + 1;
    }
    proof {
        assert(s@.subrange(0, len as int) =~= s@);
    }
    out
}

/// The deterministic cache filename for a parsed locator: both segments
/// sanitized and joined with an underscore. The result never contains a
/// path separator, a colon or a backslash.
pub fn get_cache_path(server_name: &str, media_id: &str) -> (r: String)
    ensures
        r@ == spec_sanitize(server_name@) + seq!['_'] + spec_sanitize(media_id@),
        forall|i: int| 0 <= i < r@.len() ==> r@[i] != '/' && r@[i] != ':' && r@[i] != '\\',
{
    let mut out = sanitize_component(server_name);
    out.append("_");
    let tail = sanitize_component(media_id);
    out.append(tail.as_str());
    proof {
        reveal_strlit("_");
        assert(out@ =~= spec_sanitize(server_name@) + seq!['_'] + spec_sanitize(media_id@));
        assert forall|i: int| 0 <= i < out@.len() implies
            out@[i] != '/' && out@[i] != ':' && out@[i] != '\\' by {
            let a = spec_sanitize(server_name@);
            let b = spec_sanitize(media_id@);
            if i < a.len() {
                assert(a[i] == sanitize_char(server_name@[i]));
            } else if i > a.len() {
                assert(b[i - a.len() - 1] == sanitize_char(media_id@[i - a.len() - 1]));
            }
        }
    }
    out
}

/// The media download endpoint for a parsed locator: the homeserver with
/// trailing separators removed, the fixed route, then authority and id.
pub fn download_url(homeserver: &str, server_name: &str, media_id: &str) -> (r: String)
    ensures
        r@ == homeserver@.subrange(0, trim_end_len(homeserver@, '/'))
            + "/_matrix/media/r0/download/"@ + server_name@ + seq!['/'] + media_id@,
{
    let mut out = trim_end_char(homeserver, '/');
    out.append("/_matrix/media/r0/download/");
    out.append(server_name);
    out.append("/");
    out.append(media_id);
    proof {
        reveal_strlit("/");
        assert(out@ =~= homeserver@.subrange(0, trim_end_len(homeserver@, '/'))
            + "/_matrix/media/r0/download/"@ + server_name@ + seq!['/'] + media_id@);
    }
    out
}

/// Whether a download must hit the network or may serve the cached file.
#[derive(Debug, Clone, Copy, PartialEq, Eq, Structural)]
pub enum DownloadAction {
    /// The target file is already cached and `force` is off: return its
    /// metadata without any network call.
    ServeCached,
    /// Cache miss or forced re-download: fetch from the media endpoint.
    Fetch,
}

/// Decides between cache hit and download. The cached copy is served
/// exactly when re-download is not forced and the file already exists.
pub fn plan_download(force: bool, cached: bool) -> (r: DownloadAction)
    ensures
        r == DownloadAction::ServeCached <==> (!force && cached),
        r == DownloadAction::Fetch <==> (force || !cached),
{
    if !force && cached {
        DownloadAction::ServeCached
    } else {
        DownloadAction::Fetch
    }
}

/// The size-cap failure message for an observed and a maximum size.
pub open spec fn spec_too_large_msg(observed: int, max: int) -> Seq<char> {
    "File size "@ + spec_decimal(observed) + " exceeds maximum "@ + spec_decimal(max)
}

fn too_large_msg(observed: u64, max: u64) -> (r: String)
    ensures
        r@ == spec_too_large_msg(observed as int, max as int),
{
    let mut out = String::from_str("File size ");
    let obs = u64_to_string(observed);
    out.append(obs.as_str());
    out.append(" exceeds maximum ");
    let m = u64_to_string(max);
    out.append(m.as_str());
    proof {
        assert(out@ =~= spec_too_large_msg(observed as int, max as int));
    }
    out
}

/// Pre-flight size enforcement: fails with `FileTooLarge` exactly when
/// the response declares a content length above the configured cap, so
/// that an oversized body is never downloaded at all.
pub fn check_declared_size(content_length: Option<u64>, max_size: Option<usize>) -> (r: Result<
    (),
    AppError,
>)
    ensures
        r is Ok <==> !(content_length matches Some(l) && max_size matches Some(m)
            && l > m as u64),
        r matches Err(e) ==> e matches AppError::FileTooLarge(msg)
            && content_length matches Some(l) && max_size matches Some(m)
            && msg@ == spec_too_large_msg(l as int, m as int),
{
    if let Some(l) = content_length {
        if let Some(m) = max_size {
            if l > m as u64 {
                return Err(AppError::FileTooLarge(too_large_msg(l, m as u64)));
            }
        }
    }
    Ok(())
}

/// Post-download size enforcement: a server can omit or understate the
/// declared length, so the received byte count is checked again; on
/// failure the bytes are to be discarded, never written to disk.
pub fn check_actual_size(actual: usize, max_size: Option<usize>) -> (r: Result<(), AppError>)
    ensures
        r is Ok <==> !(max_size matches Some(m) && actual > m),
        r matches Err(e) ==> e matches AppError::FileTooLarge(msg)
            && max_size matches Some(m)
            && msg@ == spec_too_large_msg(actual as int, m as int),
{
    if let Some(m) = max_size {
        if actual > m {
            return Err(AppError::FileTooLarge(too_large_msg(actual as u64, m as u64)));
        }
    }
    Ok(())
}

/// The MIME type that a filename's extension maps to, with
/// `application/octet-stream` for an unknown or missing extension. The
/// mapping is a fixed table, a function of the path string alone.
pub uninterp spec fn mime_of_path(path: Seq<char>) -> Seq<char>;

/// Relies on `mime_guess::from_path` followed by
/// `MimeGuess::first_or_octet_stream`: a pure, case-insensitive lookup of
/// the path's extension in a static table, with no disk access; the
/// result depends on the path string alone.
#[verifier::external_body]
pub fn guess_mime(path: &str) -> (r: String)
    ensures
        r@ == mime_of_path(path@),
{
    mime_guess::from_path(path).first_or_octet_stream().to_string()
}

/// The result served on a cache hit: the existing file's own metadata,
/// with the MIME type inferred from the filename extension, not from
/// stored metadata.
pub fn cached_result(local_path: String, size: u64) -> (r: DownloadMediaResult)
    ensures
        r.local_path == local_path,
        r.size == size,
        r.mime_type@ == mime_of_path(local_path@),
{
    let mime_type = guess_mime(local_path.as_str());
    DownloadMediaResult { local_path, size, mime_type }
}

/// The response's MIME type, or the default when the header is absent.
pub fn mime_or_default(content_type: Option<String>) -> (r: String)
    ensures
        match content_type {
            Some(ct) => r == ct,
            None => r@ == "application/octet-stream"@,
        },
{
    match content_type {
        Some(ct) => ct,
        None => String::from_str("application/octet-stream"),
    }
}

/// Number of regular files among the scanned entries.
pub open spec fn spec_file_count(s: Seq<CacheEntryMeta>) -> int
    decreases s.len(),
{
    if s.len() == 0 {
        0
    } else {
        spec_file_count(s.drop_last()) + if s.last().is_file { 1int } else { 0int }
    }
}

/// Total byte size of the regular files among the scanned entries.
pub open spec fn spec_total_size(s: Seq<CacheEntryMeta>) -> int
    decreases s.len(),
{
    if s.len() == 0 {
        0
    } else {
        spec_total_size(s.drop_last()) + if s.last().is_file { s.last().size as int } else { 0int }
    }
}

/// Fold of the oldest-timestamp scan, with `u64::MAX` as the neutral
/// starting value, exactly as the scan computes it.
pub open spec fn spec_oldest_ts(s: Seq<CacheEntryMeta>) -> int
    decreases s.len(),
{
    if s.len() == 0 {
        u64::MAX as int
    } else {
        let rest = spec_oldest_ts(s.drop_last());
        if s.last().is_file && s.last().modified is Some && s.last().modified->0 < rest {
            s.last().modified->0 as int
        } else {
            rest
        }
    }
}

/// Fold of the newest-timestamp scan, with `0` as the neutral starting
/// value, exactly as the scan computes it.
pub open spec fn spec_newest_ts(s: Seq<CacheEntryMeta>) -> int
    decreases s.len(),
{
    if s.len() == 0 {
        0
    } else {
        let rest = spec_newest_ts(s.drop_last());
        if s.last().is_file && s.last().modified is Some && s.last().modified->0 > rest {
            s.last().modified->0 as int
        } else {
            rest
        }
    }
}

/// Aggregates one directory scan into cache statistics: file count,
/// total size (saturating at the type's limit), and the bounds of the
/// last-modified timestamps. Non-file entries are ignored, not errors;
/// an empty scan yields zero counts and no timestamps.
pub fn aggregate_stats(entries: &Vec<CacheEntryMeta>) -> (r: CacheStats)
    ensures
        r.count == spec_file_count(entries@),
        r.total_size as int == if spec_total_size(entries@) <= u64::MAX as int {
            spec_total_size(entries@)
        } else {
            u64::MAX as int
        },
        r.oldest_entry == if spec_oldest_ts(entries@) == u64::MAX as int {
            Option::<u64>::None
        } else {
            Option::<u64>::Some(spec_oldest_ts(entries@) as u64)
        },
        r.newest_entry == if spec_newest_ts(entries@) == 0 {
            Option::<u64>::None
        } else {
            Option::<u64>::Some(spec_newest_ts(entries@) as u64)
        },
{
    let mut count: usize = 0;
    let mut total_size: u64 = 0;
    let mut oldest_ts: u64 = u64::MAX;
    let mut newest_ts: u64 = 0;
    let mut i: usize = 0;
    let n = entries.len();
    proof {
        assert(entries@.subrange(0, 0) =~= Seq::<CacheEntryMeta>::empty());
    }
    while i < n
        invariant
            i <= n,
            n == entries@.len(),
            count == spec_file_count(entries@.subrange(0, i as int)),
            count <= i,
            total_size as int == if spec_total_size(entries@.subrange(0, i as int))
                <= u64::MAX as int {
                spec_total_size(entries@.subrange(0, i as int))
            } else {
                u64::MAX as int
            },
            oldest_ts as int == spec_oldest_ts(entries@.subrange(0, i as int)),
            newest_ts as int == spec_newest_ts(entries@.subrange(0, i as int)),
        decreases n - i,
    {
        let entry = &entries[i];
        if entry.is_file {
            count = count + 1;
            total_size = total_size.saturating_add(entry.size);
            if let Some(ts) = entry.modified {
                if ts < oldest_ts {
                    oldest_ts = ts;
                }
                if ts > newest_ts {
                    newest_ts = ts;
                }
            }
        }
        proof {
            assert(entries@.subrange(0, i + 1).drop_last() =~= entries@.subrange(0, i as int));
            assert(entries@.subrange(0, i + 1).last() == entries@[i as int]);
        }
        i = i + 1;
    }
    proof {
        assert(entries@.subrange(0, n as int) =~= entries@);
    }
    CacheStats {
        count,
        total_size,
        oldest_entry: if oldest_ts != u64::MAX { Some(oldest_ts) } else { None },
        newest_entry: if newest_ts != 0 { Some(newest_ts) } else { None },
    }
}

/// Number of successful items in a best-effort batch.
pub open spec fn spec_success_count(s: Seq<bool>) -> int
    decreases s.len(),
{
    if s.len() == 0 {
        0
    } else {
        spec_success_count(s.drop_last()) + if s.last() { 1int } else { 0int }
    }
}

/// Counts the items of a bulk preload that succeeded; one failing item
/// never aborts the batch, it is only left out of the count.
pub fn count_successes(outcomes: &Vec<bool>) -> (r: usize)
    ensures
        r == spec_success_count(outcomes@),
        r <= outcomes@.len(),
{
    let mut count: usize = 0;
    let mut i: usize = 0;
    let n = outcomes.len();
    proof {
        assert(outcomes@.subrange(0, 0) =~= Seq::<bool>::empty());
    }
    while i < n
        invariant
            i <= n,
            n == outcomes@.len(),
            count == spec_success_count(outcomes@.subrange(0, i as int)),
            count <= i,
        decreases n - i,
    {
        if outcomes[i] {
            count = count + 1;
        }
        proof {
            assert(outcomes@.subrange(0, i + 1).drop_last() =~= outcomes@.subrange(0, i as int));
            assert(outcomes@.subrange(0, i + 1).last() == outcomes@[i as int]);
        }
        i = i + 1;
    }
    proof {
        assert(outcomes@.subrange(0, n as int) =~= outcomes@);
    }
    count
}

/// The generous per-item size ceiling that a bulk preload applies.
pub const PRELOAD_MAX_SIZE: usize = 50 * 1024 * 1024;

/// The download options that a bulk preload uses for each item: never
/// forced, capped at the fixed preload ceiling.
pub fn preload_options(mxc_uri: String) -> (r: DownloadMediaOptions)
    ensures
        r.mxc_uri == mxc_uri,
        r.force == false,
        r.max_size == Some(PRELOAD_MAX_SIZE),
{
    DownloadMediaOptions { mxc_uri, force: false, max_size: Some(PRELOAD_MAX_SIZE) }
}

} // verus!
