//! The attachment classifier: given an attachment URL, decide from its
//! suffix whether it is a static image the vision model can take, a
//! text-like file worth inlining, or something to ignore. The query
//! string a signed URL carries is stripped before the suffix is read.
use vstd::prelude::*;

use crate::errors::PipelineError;
use crate::text_types::{get_image_type, get_text_type, image_suffixes, text_suffixes};

verus! {

/// What an attachment URL was classified as.
#[derive(Clone, Copy, Debug, PartialEq, Eq, Structural)]
pub enum AttachmentKind {
    /// A static raster image the vision model dereferences itself.
    Image,
    /// A text-like file whose body is fetched and inlined.
    TextLike,
    /// Anything else: contributes nothing and raises nothing.
    Ignored,
}

/// The position of the first '?' in `s`, or its length if there is none.
pub open spec fn query_pos(s: Seq<char>) -> int
    decreases s.len(),
{
    if s.len() == 0 {
        0
    } else if s[0] == '?' {
        0
    } else {
        1 + query_pos(s.drop_first())
    }
}

/// `s` up to, and not including, its first '?'.
pub open spec fn strip_query(s: Seq<char>) -> Seq<char> {
    s.take(query_pos(s))
}

/// `query_pos` names the first '?': nothing before it is a '?', and it
/// points at a '?' unless it is the length.
pub proof fn lemma_query_pos(s: Seq<char>)
    ensures
        0 <= query_pos(s) <= s.len(),
        forall|j: int| 0 <= j < query_pos(s) ==> s[j] != '?',
        query_pos(s) < s.len() ==> s[query_pos(s)] == '?',
    decreases s.len(),
{
    if s.len() > 0 && s[0] != '?' {
        lemma_query_pos(s.drop_first());
        assert(forall|j: int| 0 <= j < query_pos(s.drop_first()) ==> s.drop_first()[j] != '?');
        assert forall|j: int| 0 <= j < query_pos(s) implies s[j] != '?' by {
            if j > 0 {
                assert(s.drop_first()[j - 1] == s[j]);
            }
        }
    }
}

/// The position where the last path segment starts: just after the last
/// '/', or the start when there is none.
pub open spec fn segment_start(s: Seq<char>) -> int
    decreases s.len(),
{
    if s.len() == 0 {
        0
    } else if s[s.len() - 1] == '/' {
        s.len() as int
    } else {
        segment_start(s.drop_last())
    }
}

/// `segment_start` names the position after the last '/': nothing at or
/// after it is a '/', and a '/' stands just before it unless it is the start.
pub proof fn lemma_segment_start(s: Seq<char>)
    ensures
        0 <= segment_start(s) <= s.len(),
        forall|j: int| segment_start(s) <= j < s.len() ==> s[j] != '/',
        segment_start(s) > 0 ==> s[segment_start(s) - 1] == '/',
    decreases s.len(),
{
    if s.len() > 0 && s[s.len() - 1] != '/' {
        lemma_segment_start(s.drop_last());
        assert forall|j: int| segment_start(s) <= j < s.len() implies s[j] != '/' by {
            if j < s.len() - 1 {
                assert(s.drop_last()[j] == s[j]);
            }
        }
    }
}

/// Whether `s` ends with one of the suffixes in `table`.
pub open spec fn has_suffix_in(s: Seq<char>, table: Seq<Seq<char>>) -> bool {
    exists|i: int| 0 <= i < table.len() && (#[trigger] table[i]).is_suffix_of(s)
}

/// How a URL classifies once it parses: the suffix of its query-stripped
/// form is looked up first in the image table, then in the text table.
pub open spec fn spec_classify(url: Seq<char>) -> AttachmentKind {
    let stripped = strip_query(url);
    if has_suffix_in(stripped, image_suffixes()) {
        AttachmentKind::Image
    } else if has_suffix_in(stripped, text_suffixes()) {
        AttachmentKind::TextLike
    } else {
        AttachmentKind::Ignored
    }
}

/// The file name under which a text-like attachment is inlined: the last
/// path segment of the query-stripped URL.
pub open spec fn spec_filename(url: Seq<char>) -> Seq<char> {
    let stripped = strip_query(url);
    stripped.skip(segment_start(stripped))
}

/// Whether `s` ends with `suffix`.
pub fn str_ends_with(s: &str, suffix: &str) -> (r: bool)
    ensures
        r == suffix@.is_suffix_of(s@),
{
    let n = s.unicode_len();
    let m = suffix.unicode_len();
    if m > n {
        return false;
    }
    let mut i: usize = 0;
    while i < m
        invariant
            i <= m,
            m <= n,
            n == s@.len(),
            m == suffix@.len(),
            forall|j: int| 0 <= j < i ==> s@[n - m + j] == suffix@[j],
        decreases m - i,
    {
        if s.get_char(n - m + i) != suffix.get_char(i) {
            proof {
                assert(s@.skip(n - m)[i as int] == s@[n - m + i]);
            }
            return false;
        }
        i = i + 1;
    }
    proof {
        assert(s@.skip(n - m) =~= suffix@);
    }
    true
}

/// Whether `s` ends with one of the suffixes in `table`.
fn matches_any_suffix(s: &str, table: &Vec<&'static str>) -> (r: bool)
    ensures
        r == has_suffix_in(s@, table@.map_values(|t: &str| t@)),
{
    let ghost tseq = table@.map_values(|t: &str| t@);
    let mut i: usize = 0;
    while i < table.len()
        invariant
            i <= table.len(),
            tseq == table@.map_values(|t: &str| t@),
            forall|j: int| 0 <= j < i ==> !(#[trigger] tseq[j]).is_suffix_of(s@),
        decreases table.len() - i,
    {
        if str_ends_with(s, table[i]) {
            proof {
                assert(tseq[i as int].is_suffix_of(s@));
            }
            return true;
        }
        i = i + 1;
    }
    false
}

/// The query-stripped form of `url`.
pub fn strip_query_str(url: &str) -> (r: &str)
    ensures
        r@ == strip_query(url@),
{
    let n = url.unicode_len();
    let mut i: usize = 0;
    while i < n && url.get_char(i) != '?'
        invariant
            i <= n,
            n == url@.len(),
            forall|j: int| 0 <= j < i ==> url@[j] != '?',
        decreases n - i,
    {
        i = i + 1;
    }
    proof {
        lemma_query_pos(url@);
        let q = query_pos(url@);
        if i < q {
            assert(url@[i as int] != '?');
            assert(false);
        }
        if q < i {
            assert(url@[q] != '?');
            assert(false);
        }
    }
    url.substring_char(0, i)
}

/// Classify an already query-stripped URL by its suffix alone.
pub fn classify_stripped(stripped: &str) -> (r: AttachmentKind)
    ensures
        r == AttachmentKind::Image <==> has_suffix_in(stripped@, image_suffixes()),
        r == AttachmentKind::TextLike <==> (!has_suffix_in(stripped@, image_suffixes())
            && has_suffix_in(stripped@, text_suffixes())),
        r == AttachmentKind::Ignored <==> (!has_suffix_in(stripped@, image_suffixes())
            && !has_suffix_in(stripped@, text_suffixes())),
{
    let images = get_image_type();
    if matches_any_suffix(stripped, &images) {
        return AttachmentKind::Image;
    }
    let texts = get_text_type();
    if matches_any_suffix(stripped, &texts) {
        return AttachmentKind::TextLike;
    }
    AttachmentKind::Ignored
}

/// Whether the platform's URL parser accepts `url`: a function of the
/// string alone.
pub uninterp spec fn url_parse_ok(url: Seq<char>) -> bool;

/// Relies on url::Url::parse (re-exported by reqwest), used only as a
/// validity check: whether a string parses is decided by the string alone.
#[verifier::external_body]
fn url_parses(url: &str) -> (r: bool)
    ensures
        r == url_parse_ok(url@),
{
    reqwest::Url::parse(url).is_ok()
}

/// Classify an attachment URL: reject one the URL parser refuses, strip
/// the query string, and match the remaining suffix against the tables.
pub fn classify(url: &str) -> (r: Result<AttachmentKind, PipelineError>)
    ensures
        url_parse_ok(url@) ==> r == Ok::<AttachmentKind, PipelineError>(spec_classify(url@)),
        !url_parse_ok(url@) ==> r == Err::<AttachmentKind, PipelineError>(
            PipelineError::MalformedUrl,
        ),
{
    if !url_parses(url) {
        return Err(PipelineError::MalformedUrl);
    }
    let stripped = strip_query_str(url);
    Ok(classify_stripped(stripped))
}

/// The last path segment of the query-stripped URL, under which a
/// text-like attachment's content is inlined.
pub fn filename_of(url: &str) -> (r: &str)
    ensures
        r@ == spec_filename(url@),
{
    let stripped = strip_query_str(url);
    let n = stripped.unicode_len();
    let mut i: usize = n;
    while i > 0 && stripped.get_char(i - 1) != '/'
        invariant
            i <= n,
            n == stripped@.len(),
            forall|j: int| i <= j < n ==> stripped@[j] != '/',
        decreases i,
    {
        i = i - 1;
    }
    proof {
        lemma_segment_start(stripped@);
        let p = segment_start(stripped@);
        if i < p {
            assert(stripped@[p - 1] != '/');
            assert(false);
        }
        if p < i {
            assert(stripped@[i - 1] != '/');
            assert(false);
        }
        assert(stripped@.subrange(i as int, n as int) =~= stripped@.skip(i as int));
    }
    stripped.substring_char(i, n)
}

/// Stripping the query leaves the part before the first '?' untouched:
/// a URL made of a '?'-free base, a '?' and anything after it classifies
/// exactly as its base does. In particular one whose base carries an
/// image suffix classifies as an image.
pub proof fn lemma_query_never_affects_classification(base: Seq<char>, rest: Seq<char>)
    requires
        forall|i: int| 0 <= i < base.len() ==> base[i] != '?',
    ensures
        strip_query(base + seq!['?'] + rest) == base,
        has_suffix_in(base, image_suffixes()) ==> spec_classify(base + seq!['?'] + rest)
            == AttachmentKind::Image,
{
    let s = base + seq!['?'] + rest;
    lemma_query_pos_of_concat(base, rest);
    assert(strip_query(s) =~= base);
}

proof fn lemma_query_pos_of_concat(base: Seq<char>, rest: Seq<char>)
    requires
        forall|i: int| 0 <= i < base.len() ==> base[i] != '?',
    ensures
        query_pos(base + seq!['?'] + rest) == base.len(),
    decreases base.len(),
{
    let s = base + seq!['?'] + rest;
    if base.len() == 0 {
        assert(s[0] == '?');
    } else {
        assert(s[0] == base[0]);
        assert(s.drop_first() =~= base.drop_first() + seq!['?'] + rest);
        assert(forall|i: int|
            0 <= i < base.drop_first().len() ==> #[trigger] base.drop_first()[i] == base[i + 1]);
        lemma_query_pos_of_concat(base.drop_first(), rest);
    }
}

/// A query-stripped URL that ends with no suffix of either table is ignored.
pub proof fn lemma_unrecognized_is_ignored(url: Seq<char>)
    requires
        !has_suffix_in(strip_query(url), image_suffixes()),
        !has_suffix_in(strip_query(url), text_suffixes()),
    ensures
        spec_classify(url) == AttachmentKind::Ignored,
{
}

} // verus!
