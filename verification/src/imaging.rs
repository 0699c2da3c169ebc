//! The image-generation decisions that are pure data work: when to stop
//! polling a job, and how one returned payload becomes attachment bytes
//! under a numbered file name. The HTTP calls around them live outside.
use vstd::prelude::*;

use crate::numfmt::{dec_digits, u64_to_decimal};

verus! {

/// `s` with every occurrence of `pat` removed, scanning left to right
/// without overlap (what replacing `pat` by nothing does).
pub open spec fn remove_marker(s: Seq<char>, pat: Seq<char>) -> Seq<char>
    decreases s.len(),
    when pat.len() >= 1
{
    if s.len() < pat.len() {
        s
    } else if s.take(pat.len() as int) == pat {
        remove_marker(s.skip(pat.len() as int), pat)
    } else {
        seq![s[0]] + remove_marker(s.drop_first(), pat)
    }
}

/// The data-URL prefix some providers put in front of a base64 payload.
pub open spec fn data_url_prefix() -> Seq<char> {
    "data:image/png;base64,"@
}

/// Whether `pat` stands in `s` at position `i`.
fn matches_at(s: &str, n: usize, i: usize, pat: &str, m: usize) -> (r: bool)
    requires
        n == s@.len(),
        m == pat@.len(),
        i <= n,
    ensures
        r == (i + m <= n && s@.skip(i as int).take(m as int) == pat@),
{
    if m > n - i {
        return false;
    }
    let mut j: usize = 0;
    while j < m
        invariant
            j <= m,
            i + m <= n,
            n == s@.len(),
            m == pat@.len(),
            forall|a: int| 0 <= a < j ==> s@[i + a] == pat@[a],
        decreases m - j,
    {
        if s.get_char(i + j) != pat.get_char(j) {
            proof {
                assert(s@.skip(i as int).take(m as int)[j as int] == s@[i + j]);
            }
            return false;
        }
        j = j + 1;
    }
    proof {
        assert(s@.skip(i as int).take(m as int) =~= pat@);
    }
    true
}

/// Remove every occurrence of the data-URL prefix from a payload.
pub fn strip_data_url_prefix(s: &str) -> (r: String)
    ensures
        r@ == remove_marker(s@, data_url_prefix()),
{
    let pat: &str = "data:image/png;base64,";
    proof {
        reveal_strlit("data:image/png;base64,");
    }
    let n = s.unicode_len();
    let m = pat.unicode_len();
    let mut out = String::new();
    let mut i: usize = 0;
    proof {
        assert(s@.skip(0) =~= s@);
        assert(out@ + remove_marker(s@, data_url_prefix()) =~= remove_marker(
            s@,
            data_url_prefix(),
        ));
    }
    while i < n
        invariant
            i <= n,
            n == s@.len(),
            m == data_url_prefix().len(),
            pat@ == data_url_prefix(),
            m >= 1,
            out@ + remove_marker(s@.skip(i as int), data_url_prefix()) == remove_marker(
                s@,
                data_url_prefix(),
            ),
        decreases n - i,
    {
        if matches_at(s, n, i, pat, m) {
            proof {
                assert(s@.skip(i as int).skip(m as int) =~= s@.skip(i + m));
            }
            i = i + m;
        } else {
            let c = s.substring_char(i, i + 1);
            let ghost prev = out@;
            out.append(c);
            proof {
                let tail = s@.skip(i as int);
                assert(tail.len() >= 1);
                if tail.len() >= m {
                    assert(remove_marker(tail, data_url_prefix()) == seq![tail[0]]
                        + remove_marker(tail.drop_first(), data_url_prefix()));
                } else {
                    assert(remove_marker(tail, data_url_prefix()) == tail);
                    assert(tail =~= seq![tail[0]] + tail.drop_first());
                    assert(remove_marker(tail.drop_first(), data_url_prefix())
                        == tail.drop_first());
                }
                assert(tail[0] == s@[i as int]);
                assert(c@ =~= seq![s@[i as int]]);
                assert(tail.drop_first() =~= s@.skip(i + 1));
                assert(prev + (seq![s@[i as int]] + remove_marker(
                    s@.skip(i + 1),
                    data_url_prefix(),
                )) =~= out@ + remove_marker(s@.skip(i + 1), data_url_prefix()));
            }
            i = i + 1;
        }
    }
    proof {
        assert(s@.skip(n as int) =~= Seq::<char>::empty());
        assert(remove_marker(Seq::<char>::empty(), data_url_prefix())
            == Seq::<char>::empty());
        assert(out@ + Seq::<char>::empty() =~= out@);
    }
    out
}

/// What the standard-alphabet base64 decoder yields on a string: a
/// function of the string alone, `None` standing for its decode error.
pub uninterp spec fn base64_decoded(s: Seq<char>) -> Option<Seq<u8>>;

/// Relies on base64's general_purpose::STANDARD engine: decoding is
/// deterministic in the input; an input that is not valid padded
/// standard-alphabet base64 is refused.
#[verifier::external_body]
fn b64_decode(s: &str) -> (r: Option<Vec<u8>>)
    ensures
        match r {
            Some(bytes) => base64_decoded(s@) == Some(bytes@),
            None => base64_decoded(s@) is None,
        },
{
    match base64::Engine::decode(&base64::engine::general_purpose::STANDARD, s) {
        Ok(b) => Some(b),
        Err(_) => None,
    }
}

/// The file name a generated image is attached under.
pub open spec fn spec_image_file_name(index: nat) -> Seq<char> {
    "image_output_"@ + dec_digits(index) + ".png"@
}

/// Turn one returned payload into attachment bytes and a numbered file
/// name: strip any data-URL prefix, then decode the base64 body. `None`
/// exactly when the stripped payload does not decode (such a payload is
/// skipped, not fatal).
pub fn decode_image_payload(payload: &str, index: u64) -> (r: Option<(Vec<u8>, String)>)
    ensures
        match r {
            Some(bf) => base64_decoded(remove_marker(payload@, data_url_prefix())) == Some(bf.0@)
                && bf.1@ == spec_image_file_name(index as nat),
            None => base64_decoded(remove_marker(payload@, data_url_prefix())) is None,
        },
{
    let cleaned = strip_data_url_prefix(payload);
    let bytes = match b64_decode(cleaned.as_str()) {
        Some(b) => b,
        None => {
            return None;
        },
    };
    let mut name = String::from_str("image_output_");
    let digits = u64_to_decimal(index);
    name.append(digits.as_str());
    name.append(".png");
    Some((bytes, name))
}

/// Whether a polled job status means the wait is over: the job is done
/// (or failed) once it is neither queued nor in progress.
pub fn poll_finished(status: &str) -> (r: bool)
    ensures
        r == !(status@ == "IN_QUEUE"@ || status@ == "IN_PROGRESS"@),
{
    let queued = str_equal(status, "IN_QUEUE");
    let running = str_equal(status, "IN_PROGRESS");
    !(queued || running)
}

/// Whether two strings hold the same characters.
fn str_equal(a: &str, b: &str) -> (r: bool)
    ensures
        r == (a@ == b@),
{
    let n = a.unicode_len();
    let m = b.unicode_len();
    if n != m {
        return false;
    }
    let mut i: usize = 0;
    while i < n
        invariant
            i <= n,
            n == a@.len(),
            n == b@.len(),
            forall|j: int| 0 <= j < i ==> a@[j] == b@[j],
        decreases n - i,
    {
        if a.get_char(i) != b.get_char(i) {
            return false;
        }
        i = i + 1;
    }
    proof {
        assert(a@ =~= b@);
    }
    true
}

} // verus!
