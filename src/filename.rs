//! Choosing the on-disk name of a download from a response's disposition
//! header or, failing that, from the last non-empty segment of its URL path.
use vstd::prelude::*;

use crate::error::{view_result, DownloadError};

verus! {

/// The disposition header's expected shape; group 1 is the filename token.
pub open spec fn disposition_pattern() -> Seq<char> {
    "attachment; filename=(\\S+)"@
}

/// Whether `regex::Regex::new` accepts `pattern`.
pub uninterp spec fn pattern_compiles(pattern: Seq<char>) -> bool;

/// Capture group 1 of the leftmost match of the compiled `pattern` in `hay`,
/// if there is a match and the group takes part in it.
pub uninterp spec fn first_capture(pattern: Seq<char>, hay: Seq<char>) -> Option<Seq<char>>;

/// The path segments of `url` once parsed as a URL (split on `/` after the
/// leading one), or `None` where it does not parse or has no such path.
pub uninterp spec fn path_segments_of(url: Seq<char>) -> Option<Seq<Seq<char>>>;

pub open spec fn opt_view(o: Option<String>) -> Option<Seq<char>> {
    match o {
        Some(s) => Some(s@),
        None => None,
    }
}

pub open spec fn seg_views(v: Seq<String>) -> Seq<Seq<char>> {
    v.map_values(|s: String| s@)
}

pub open spec fn opt_segs_view(o: Option<Vec<String>>) -> Option<Seq<Seq<char>>> {
    match o {
        Some(v) => Some(seg_views(v@)),
        None => None,
    }
}

/// An HTTP header byte that `HeaderValue::to_str` accepts: tab or visible ASCII.
pub open spec fn visible_ascii(b: u8) -> bool {
    b == 9 || (32 <= b && b < 127)
}

pub open spec fn ascii_chars(b: Seq<u8>) -> Seq<char> {
    b.map_values(|x: u8| x as char)
}

/// The text of a header value, where every byte is tab or visible ASCII.
pub open spec fn header_text_spec(b: Seq<u8>) -> Option<Seq<char>> {
    if forall|i: int| 0 <= i < b.len() ==> visible_ascii(#[trigger] b[i]) {
        Some(ascii_chars(b))
    } else {
        None
    }
}

/// The last segment that is not empty.
pub open spec fn last_nonempty(segs: Seq<Seq<char>>) -> Option<Seq<char>>
    decreases segs.len(),
{
    if segs.len() == 0 {
        None
    } else if segs.last().len() > 0 {
        Some(segs.last())
    } else {
        last_nonempty(segs.drop_last())
    }
}

/// What a response's disposition header says of the filename: `Ok(None)`
/// where there is no header, the token where it has the expected shape, and
/// `HeaderParse` otherwise.
pub open spec fn disposition_spec(d: Option<Seq<u8>>) -> Result<Option<Seq<char>>, DownloadError> {
    match d {
        None => Ok(None),
        Some(b) => match header_text_spec(b) {
            None => Err(DownloadError::HeaderParse),
            Some(t) => if !pattern_compiles(disposition_pattern()) {
                Err(DownloadError::HeaderParse)
            } else {
                match from_capture_spec(first_capture(disposition_pattern(), t)) {
                    Ok(f) => Ok(Some(f)),
                    Err(e) => Err(e),
                }
            },
        },
    }
}

/// The filename of a response: the disposition header's token where the
/// header is present (and its error where it is malformed), else the last
/// non-empty segment of the URL's path.
pub open spec fn filename_spec(d: Option<Seq<u8>>, url: Seq<char>) -> Result<Seq<char>, DownloadError> {
    match disposition_spec(d) {
        Ok(Some(f)) => Ok(f),
        Ok(None) => from_segments_spec(path_segments_of(url)),
        Err(e) => Err(e),
    }
}

pub open spec fn opt_bytes_view(o: Option<Vec<u8>>) -> Option<Seq<u8>> {
    match o {
        Some(v) => Some(v@),
        None => None,
    }
}

/// A segment picked by `last_nonempty` is never empty.
pub proof fn lemma_last_nonempty_is_nonempty(segs: Seq<Seq<char>>)
    ensures
        last_nonempty(segs) matches Some(f) ==> f.len() > 0,
    decreases segs.len(),
{
    if segs.len() > 0 && segs.last().len() == 0 {
        lemma_last_nonempty_is_nonempty(segs.drop_last());
    }
}

/// Whatever the response holds, a resolved filename is never empty.
pub proof fn lemma_filename_nonempty(d: Option<Seq<u8>>, url: Seq<char>)
    ensures
        filename_spec(d, url) matches Ok(f) ==> f.len() > 0,
{
    if let Some(s) = path_segments_of(url) {
        lemma_last_nonempty_is_nonempty(s);
    }
}

/// The filename taken from a disposition header's capture.
pub open spec fn from_capture_spec(cap: Option<Seq<char>>) -> Result<Seq<char>, DownloadError> {
    match cap {
        Some(c) => if c.len() > 0 { Ok(c) } else { Err(DownloadError::HeaderParse) },
        None => Err(DownloadError::HeaderParse),
    }
}

/// The filename taken from a URL's path segments.
pub open spec fn from_segments_spec(segs: Option<Seq<Seq<char>>>) -> Result<Seq<char>, DownloadError> {
    match segs {
        Some(s) => match last_nonempty(s) {
            Some(f) => Ok(f),
            None => Err(DownloadError::FilenameUnresolvable),
        },
        None => Err(DownloadError::FilenameUnresolvable),
    }
}

/// Relies on `String::from_utf8`: ASCII bytes are valid UTF-8, and each
/// byte is then one character of the same code.
#[verifier::external_body]
fn ascii_string(b: &Vec<u8>) -> (r: String)
    requires
        forall|i: int| 0 <= i < b@.len() ==> #[trigger] b@[i] < 128,
    ensures
        r@ == ascii_chars(b@),
{
    String::from_utf8(b.clone()).unwrap()
}

/// Relies on `regex::Regex::new` and `Captures::get`: compiles `pattern`,
/// searches `hay` for its leftmost match and hands out capture group 1.
#[verifier::external_body]
fn regex_group_one(pattern: &str, hay: &str) -> (r: Result<Option<String>, regex::Error>)
    ensures
        r is Ok <==> pattern_compiles(pattern@),
        r matches Ok(c) ==> opt_view(c) == first_capture(pattern@, hay@),
{
    let re = regex::Regex::new(pattern)?;
    Ok(re.captures(hay).and_then(|c| c.get(1)).map(|m| m.as_str().to_string()))
}

/// Relies on `url::Url::parse` (as re-exported by reqwest) and
/// `Url::path_segments`: the path of `url` split into its segments.
#[verifier::external_body]
fn url_path_segments(url: &str) -> (r: Option<Vec<String>>)
    ensures
        match r {
            Some(v) => path_segments_of(url@) == Some(seg_views(v@)),
            None => path_segments_of(url@) is None,
        },
        path_segments_of(url@) == opt_segs_view(r),
{
    match reqwest::Url::parse(url) {
        Ok(u) => u.path_segments().map(|s| s.map(|p| p.to_string()).collect()),
        Err(_) => None,
    }
}

/// `regex::Error`, what `Regex::new` returns for a pattern it refuses;
/// carried through unread.
#[verifier::external_type_specification]
#[verifier::external_body]
pub struct ExRegexError(regex::Error);

/// The text of a raw header value, or `None` where a byte is neither tab
/// nor visible ASCII.
pub fn header_text(b: &Vec<u8>) -> (r: Option<String>)
    ensures
        opt_view(r) == header_text_spec(b@),
{
    let mut i: usize = 0;
    while i < b.len()
        invariant
            i <= b@.len(),
            forall|j: int| 0 <= j < i ==> visible_ascii(#[trigger] b@[j]),
        decreases b@.len() - i,
    {
        let x = b[i];
        if !(x == 9 || (32 <= x && x < 127)) {
            assert(!visible_ascii(b@[i as int]));
            return None;
        }
        i = i + 1;
    }
    Some(ascii_string(b))
}

/// The filename carried by a disposition header's capture: the captured
/// token, or `HeaderParse` where nothing (or nothing non-empty) was captured.
pub fn filename_from_capture(cap: Option<String>) -> (r: Result<String, DownloadError>)
    ensures
        view_result(r) == from_capture_spec(opt_view(cap)),
{
    match cap {
        Some(c) => if c.as_str().is_empty() {
            Err(DownloadError::HeaderParse)
        } else {
            Ok(c)
        },
        None => Err(DownloadError::HeaderParse),
    }
}

/// The filename carried by a URL's path segments: the last one that is not
/// empty, or `FilenameUnresolvable` where there is none.
pub fn filename_from_segments(segs: Option<Vec<String>>) -> (r: Result<String, DownloadError>)
    ensures
        view_result(r) == from_segments_spec(opt_segs_view(segs)),
{
    match segs {
        None => Err(DownloadError::FilenameUnresolvable),
        Some(v) => {
            let ghost whole = opt_segs_view(segs);
            let ghost all = seg_views(v@);
            let mut n: usize = v.len();
            assert(all.subrange(0, n as int) =~= all);
            while n > 0
                invariant
                    n <= v@.len(),
                    all == seg_views(v@),
                    whole == Some(all),
                    whole == opt_segs_view(segs),
                    last_nonempty(all) == last_nonempty(all.subrange(0, n as int)),
                decreases n,
            {
                let ghost pre = all.subrange(0, n as int);
                assert(all[n - 1] == v@[n - 1]@);
                assert(pre.last() == v@[n - 1]@);
                assert(pre.drop_last() =~= all.subrange(0, n - 1));
                if !v[n - 1].as_str().is_empty() {
                    let f = v[n - 1].clone();
                    assert(pre.last().len() > 0);
                    assert(last_nonempty(pre) == Some(pre.last()));
                    assert(f@ == pre.last());
                    return Ok(f);
                }
                n = n - 1;
            }
            assert(all.subrange(0, 0) =~= Seq::<Seq<char>>::empty());
            Err(DownloadError::FilenameUnresolvable)
        },
    }
}

} // verus!

verus! {

/// The headers of a response that decide a download, as plain values.
pub struct ResponseHead {
    /// The URL the response was finally served from.
    pub url: String,
    /// The raw value of the `Content-Disposition` header, if present.
    pub disposition: Option<Vec<u8>>,
    /// Whether the response carries an `Accept-Ranges` header.
    pub accepts_ranges: bool,
    /// The `Content-Length` of the response, if advertised.
    pub content_length: Option<u64>,
}

/// Reads the filename out of a disposition header: `Ok(None)` where there is
/// no header; an error where there is one that cannot be understood.
pub fn parse_filename_from_content_disposition(disposition: &Option<Vec<u8>>) -> (r: Result<
    Option<String>,
    DownloadError,
>)
    ensures
        match r {
            Ok(o) => disposition_spec(opt_bytes_view(*disposition)) == Ok::<
                Option<Seq<char>>,
                DownloadError,
            >(opt_view(o)),
            Err(e) => disposition_spec(opt_bytes_view(*disposition)) == Err::<
                Option<Seq<char>>,
                DownloadError,
            >(e),
        },
{
    match disposition {
        None => Ok(None),
        Some(b) => match header_text(b) {
            None => Err(DownloadError::HeaderParse),
            Some(t) => match regex_group_one("attachment; filename=(\\S+)", t.as_str()) {
                Err(_) => Err(DownloadError::HeaderParse),
                Ok(cap) => match filename_from_capture(cap) {
                    Ok(f) => Ok(Some(f)),
                    Err(e) => Err(e),
                },
            },
        },
    }
}

/// The name of the file a response should be saved under: the disposition
/// header's token where that header is present, else the last non-empty
/// segment of the response URL's path.
pub fn parse_filename(head: &ResponseHead) -> (r: Result<String, DownloadError>)
    ensures
        view_result(r) == filename_spec(opt_bytes_view(head.disposition), head.url@),
        r matches Ok(f) ==> f@.len() > 0,
{
    proof {
        lemma_filename_nonempty(opt_bytes_view(head.disposition), head.url@);
    }
    match parse_filename_from_content_disposition(&head.disposition) {
        Err(e) => Err(e),
        Ok(Some(f)) => Ok(f),
        Ok(None) => filename_from_segments(url_path_segments(head.url.as_str())),
    }
}

} // verus!
