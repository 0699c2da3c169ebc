//! The response chunker: splits an oversized response text into
//! platform-sized windows, closes and reopens code fences that a window
//! boundary cuts open, and labels every window with its position.
use vstd::prelude::*;

use crate::numfmt::{dec_digits, is_digit_char, lemma_dec_digits_are_digits, u64_to_decimal};

verus! {

/// The three-character code-fence marker.
pub open spec fn fence() -> Seq<char> {
    seq!['`', '`', '`']
}

/// How many fence markers `s` holds, scanning left to right without
/// letting two markers overlap (the scan a chat client performs).
pub open spec fn fence_count(s: Seq<char>) -> nat
    decreases s.len(),
{
    if s.len() < 3 {
        0
    } else if s[0] == '`' && s[1] == '`' && s[2] == '`' {
        1 + fence_count(s.skip(3))
    } else {
        fence_count(s.skip(1))
    }
}

/// `s` cut into windows of `size` scalar values; the last window holds
/// the remainder and is never empty unless `s` itself is empty.
pub open spec fn windows_of(s: Seq<char>, size: nat) -> Seq<Seq<char>>
    decreases s.len(),
    when size >= 1
{
    if s.len() <= size {
        seq![s]
    } else {
        seq![s.take(size as int)] + windows_of(s.skip(size as int), size)
    }
}

/// One window after fence fixup: reopened in front if the previous window
/// was cut open, and closed at its end if its own count is then odd.
pub open spec fn fixed_window(w: Seq<char>, carry_in: bool) -> Seq<char> {
    let opened = if carry_in {
        fence() + w
    } else {
        w
    };
    if fence_count(opened) % 2 == 1 {
        opened + fence()
    } else {
        opened
    }
}

/// Whether the window, as it stands when its turn comes (including a
/// reopening marker carried in), cuts a fence open for the next window.
pub open spec fn cuts_open(w: Seq<char>, carry_in: bool) -> bool {
    let opened = if carry_in {
        fence() + w
    } else {
        w
    };
    fence_count(opened) % 2 == 1
}

/// All windows after fence fixup, oldest first.
pub open spec fn fixup_windows(ws: Seq<Seq<char>>, carry_in: bool) -> Seq<Seq<char>>
    decreases ws.len(),
{
    if ws.len() == 0 {
        Seq::empty()
    } else {
        seq![fixed_window(ws[0], carry_in)] + fixup_windows(
            ws.drop_first(),
            cuts_open(ws[0], carry_in),
        )
    }
}

/// The position label put in front of the window with 1-based index
/// `index1` out of `total`.
pub open spec fn chunk_prefix(index1: nat, total: nat) -> Seq<char> {
    dec_digits(index1) + seq!['/'] + dec_digits(total) + seq![':', ' ']
}

/// The chunk-count label of a text of `len` scalar values: one more than
/// the number of whole windows of `size` that fit in it.
pub open spec fn total_of(len: nat, size: nat) -> nat {
    len / size + 1
}

/// What `chunk_response` returns: the text itself when it fits under the
/// display threshold, else the fixed-up windows, each behind its label.
pub open spec fn spec_chunks(s: Seq<char>, threshold: nat, size: nat) -> Seq<Seq<char>> {
    if s.len() <= threshold {
        seq![s]
    } else {
        fixup_windows(windows_of(s, size), false).map(
            |i: int, w: Seq<char>| chunk_prefix((i + 1) as nat, total_of(s.len(), size)) + w,
        )
    }
}

/// Count the fence markers of `s` as `fence_count` does.
pub fn count_fences(s: &str) -> (r: usize)
    ensures
        r as nat == fence_count(s@),
{
    let n = s.unicode_len();
    let mut i: usize = 0;
    let mut count: usize = 0;
    proof {
        assert(s@.skip(0) =~= s@);
    }
    while i < n
        invariant
            i <= n,
            n == s@.len(),
            count <= i,
            count + fence_count(s@.skip(i as int)) == fence_count(s@),
        decreases n - i,
    {
        if n - i > 2 && s.get_char(i) == '`' && s.get_char(i + 1) == '`' && s.get_char(i + 2)
            == '`' {
            proof {
                assert(s@.skip(i as int).skip(3) =~= s@.skip(i + 3));
                assert(s@.skip(i as int)[0] == s@[i as int]);
                assert(s@.skip(i as int)[1] == s@[i + 1]);
                assert(s@.skip(i as int)[2] == s@[i + 2]);
            }
            count = count + 1;
            i = i + 3;
        } else {
            proof {
                assert(s@.skip(i as int).skip(1) =~= s@.skip(i + 1));
                if n - i > 2 {
                    assert(s@.skip(i as int)[0] == s@[i as int]);
                    assert(s@.skip(i as int)[1] == s@[i + 1]);
                    assert(s@.skip(i as int)[2] == s@[i + 2]);
                } else {
                    assert(s@.skip(i as int).len() < 3);
                }
            }
            i = i + 1;
        }
    }
    proof {
        assert(s@.skip(n as int) =~= Seq::<char>::empty());
    }
    count
}

/// Cut `text` into windows of `size` scalar values.
fn split_windows(text: &str, size: usize) -> (r: Vec<String>)
    requires
        1 <= size,
    ensures
        r@.map_values(|w: String| w@) == windows_of(text@, size as nat),
{
    let n = text.unicode_len();
    let mut windows: Vec<String> = Vec::new();
    let mut pos: usize = 0;
    proof {
        assert(text@.skip(0) =~= text@);
        assert(windows@.map_values(|w: String| w@) =~= Seq::<Seq<char>>::empty());
    }
    while n - pos > size
        invariant
            1 <= size,
            pos <= n,
            n == text@.len(),
            windows_of(text@, size as nat) == windows@.map_values(|w: String| w@) + windows_of(
                text@.skip(pos as int),
                size as nat,
            ),
        decreases n - pos,
    {
        let w = text.substring_char(pos, pos + size);
        let ghost prev = windows@.map_values(|w: String| w@);
        windows.push(w.to_owned());
        proof {
            assert(text@.skip(pos as int).take(size as int) =~= text@.subrange(
                pos as int,
                pos + size,
            ));
            assert(text@.skip(pos as int).skip(size as int) =~= text@.skip(pos + size));
            assert(windows@.map_values(|w: String| w@) =~= prev + seq![
                text@.subrange(pos as int, pos + size),
            ]);
        }
        pos = pos + size;
    }
    let w = text.substring_char(pos, n);
    let ghost prev = windows@.map_values(|w: String| w@);
    windows.push(w.to_owned());
    proof {
        assert(text@.skip(pos as int) =~= text@.subrange(pos as int, n as int));
        assert(windows_of(text@.skip(pos as int), size as nat) == seq![text@.skip(pos as int)]);
        assert(windows@.map_values(|w: String| w@) =~= prev + seq![
            text@.subrange(pos as int, n as int),
        ]);
        assert(windows@.map_values(|w: String| w@) =~= windows_of(text@, size as nat));
    }
    windows
}

/// Split a response into labelled, fence-safe chunks.
///
/// A text of at most `threshold` scalar values is returned as the single,
/// unlabelled chunk. A longer one is cut into windows of `size` values;
/// a window whose fence count comes out odd is closed with a marker, and
/// the following window is reopened with one; every window is then put
/// behind a `"{index}/{total}: "` label.
pub fn chunk_response(text: &str, threshold: usize, size: usize) -> (r: Vec<String>)
    requires
        2 <= size,
    ensures
        r@.map_values(|c: String| c@) == spec_chunks(text@, threshold as nat, size as nat),
        text@.len() <= threshold ==> r@.len() == 1 && r@[0]@ == text@,
{
    let n = text.unicode_len();
    if n <= threshold {
        let mut out: Vec<String> = Vec::new();
        out.push(text.to_owned());
        proof {
            assert(out@.map_values(|c: String| c@) =~= seq![text@]);
        }
        return out;
    }
    let windows = split_windows(text, size);
    proof {
        vstd::arithmetic::div_mod::lemma_div_is_ordered_by_denominator(n as int, 2, size as int);
        vstd::arithmetic::div_mod::lemma_fundamental_div_mod(n as int, 2);
        assert(2 * (n as int / 2) + n as int % 2 == n as int);
    }
    let total: usize = n / size + 1;
    let total_str = u64_to_decimal(total as u64);
    let ghost wseq = windows@.map_values(|w: String| w@);
    let mut out: Vec<String> = Vec::new();
    let mut carry: bool = false;
    let mut i: usize = 0;
    proof {
        lemma_fixup_windows_len(wseq, false);
        assert(wseq.skip(0) =~= wseq);
        assert(fixup_windows(wseq, false).skip(0) =~= fixup_windows(wseq, false));
        assert(out@.map_values(|c: String| c@) =~= Seq::<Seq<char>>::empty());
        assert(fixup_windows(wseq, false).take(0) =~= Seq::<Seq<char>>::empty());
    }
    while i < windows.len()
        invariant
            windows@.map_values(|w: String| w@) == wseq,
            i <= wseq.len(),
            total == total_of(text@.len(), size as nat),
            total_str@ == dec_digits(total as nat),
            fixup_windows(wseq, false).skip(i as int) == fixup_windows(wseq.skip(i as int), carry),
            out@.map_values(|c: String| c@) == fixup_windows(wseq, false).take(i as int).map(
                |j: int, w: Seq<char>| chunk_prefix((j + 1) as nat, total as nat) + w,
            ),
        decreases windows.len() - i,
    {
        let mut body: String = if carry {
            let mut t = String::from_str("```");
            t.append(windows[i].as_str());
            t
        } else {
            windows[i].clone()
        };
        proof {
            reveal_strlit("```");
            assert("```"@ =~= fence());
            if carry {
                assert(body@ == fence() + wseq[i as int]);
            } else {
                assert(body@ == wseq[i as int]);
            }
        }
        let cnt = count_fences(body.as_str());
        let next_carry = cnt % 2 == 1;
        if next_carry {
            body.append("```");
        }
        proof {
            assert(body@ == fixed_window(wseq[i as int], carry));
        }
        let mut labelled = u64_to_decimal((i + 1) as u64);
        labelled.append("/");
        labelled.append(total_str.as_str());
        labelled.append(": ");
        labelled.append(body.as_str());
        proof {
            reveal_strlit("/");
            reveal_strlit(": ");
            assert("/"@ =~= seq!['/']);
            assert(": "@ =~= seq![':', ' ']);
            assert(labelled@ == chunk_prefix((i + 1) as nat, total as nat) + body@);
        }
        let ghost prev = out@.map_values(|c: String| c@);
        let ghost labelled_view = labelled@;
        out.push(labelled);
        proof {
            let fixed = fixup_windows(wseq, false);
            lemma_fixup_windows_len(wseq, false);
            let tail = wseq.skip(i as int);
            assert(tail.len() > 0);
            assert(tail[0] == wseq[i as int]);
            assert(tail.drop_first() =~= wseq.skip(i + 1));
            assert(fixup_windows(tail, carry) == seq![fixed_window(wseq[i as int], carry)]
                + fixup_windows(wseq.skip(i + 1), cuts_open(wseq[i as int], carry)));
            assert(fixed.skip(i as int)[0] == fixed_window(wseq[i as int], carry));
            assert(fixed[i as int] == fixed_window(wseq[i as int], carry));
            assert(fixed.skip(i + 1) =~= fixed.skip(i as int).drop_first());
            assert(fixed.skip(i + 1) =~= fixup_windows(
                wseq.skip(i + 1),
                cuts_open(wseq[i as int], carry),
            ));
            assert(out@.map_values(|c: String| c@) =~= prev + seq![labelled_view]);
            assert(out@.map_values(|c: String| c@) =~= fixed.take(i + 1).map(
                |j: int, w: Seq<char>| chunk_prefix((j + 1) as nat, total as nat) + w,
            ));
        }
        carry = next_carry;
        i = i + 1;
    }
    proof {
        let fixed = fixup_windows(wseq, false);
        assert(fixed.len() == wseq.len()) by {
            lemma_fixup_windows_len(wseq, false);
        }
        assert(fixed.take(wseq.len() as int) =~= fixed);
    }
    out
}

/// Fixup keeps the number of windows.
pub proof fn lemma_fixup_windows_len(ws: Seq<Seq<char>>, carry_in: bool)
    ensures
        fixup_windows(ws, carry_in).len() == ws.len(),
    decreases ws.len(),
{
    if ws.len() > 0 {
        lemma_fixup_windows_len(ws.drop_first(), cuts_open(ws[0], carry_in));
    }
}

/// A fence marker put at the end of a text adds exactly one to its count:
/// the appended backticks either stand alone or extend a final run of
/// backticks by a whole marker.
pub proof fn lemma_fence_count_append_fence(w: Seq<char>)
    ensures
        fence_count(w + fence()) == fence_count(w) + 1,
    decreases w.len(),
{
    let s = w + fence();
    assert(s.len() >= 3);
    if s[0] == '`' && s[1] == '`' && s[2] == '`' {
        if w.len() >= 3 {
            assert(w[0] == '`' && w[1] == '`' && w[2] == '`');
            assert(s.skip(3) =~= w.skip(3) + fence());
            lemma_fence_count_append_fence(w.skip(3));
        } else {
            assert(fence_count(w) == 0);
            assert(s.skip(3).len() == w.len() < 3);
            assert(fence_count(s) == 1 + fence_count(s.skip(3)));
        }
    } else {
        if w.len() == 0 {
            assert(s =~= fence());
            assert(false);
        }
        assert(s.skip(1) =~= w.skip(1) + fence());
        lemma_fence_count_append_fence(w.skip(1));
        if w.len() >= 3 {
            assert(s[0] == w[0] && s[1] == w[1] && s[2] == w[2]);
        } else {
            assert(fence_count(w) == 0);
            assert(fence_count(w.skip(1)) == 0);
        }
    }
}

/// Text holding no backtick at all, put in front, leaves the count alone.
pub proof fn lemma_fence_count_prepend_tickfree(p: Seq<char>, w: Seq<char>)
    requires
        forall|i: int| 0 <= i < p.len() ==> p[i] != '`',
    ensures
        fence_count(p + w) == fence_count(w),
    decreases p.len(),
{
    let s = p + w;
    if p.len() == 0 {
        assert(s =~= w);
    } else {
        assert(s[0] == p[0]);
        if s.len() >= 3 {
            assert(fence_count(s) == fence_count(s.skip(1)));
        } else {
            assert(fence_count(s) == 0);
            assert(w.len() < 3);
        }
        assert(s.skip(1) =~= p.skip(1) + w);
        lemma_fence_count_prepend_tickfree(p.skip(1), w);
    }
}

/// A chunk's position label holds no backtick.
pub proof fn lemma_chunk_prefix_tickfree(index1: nat, total: nat)
    ensures
        forall|i: int|
            0 <= i < chunk_prefix(index1, total).len() ==> chunk_prefix(index1, total)[i] != '`',
{
    lemma_dec_digits_are_digits(index1);
    lemma_dec_digits_are_digits(total);
    let a = dec_digits(index1);
    let b = dec_digits(total);
    let p = chunk_prefix(index1, total);
    assert forall|i: int| 0 <= i < p.len() implies p[i] != '`' by {
        if i < a.len() {
            assert(p[i] == a[i]);
            assert(is_digit_char(a[i]));
        } else if i == a.len() {
            assert(p[i] == '/');
        } else if i < a.len() + 1 + b.len() {
            assert(p[i] == b[i - a.len() - 1]);
            assert(is_digit_char(b[i - a.len() - 1]));
        } else if i == a.len() + 1 + b.len() {
            assert(p[i] == ':');
        } else {
            assert(p[i] == ' ');
        }
    }
}

/// Every window that leaves the fixup carries an even fence count.
pub proof fn lemma_fixup_windows_balanced(ws: Seq<Seq<char>>, carry_in: bool)
    ensures
        forall|j: int|
            0 <= j < fixup_windows(ws, carry_in).len() ==> fence_count(
                #[trigger] fixup_windows(ws, carry_in)[j],
            ) % 2 == 0,
    decreases ws.len(),
{
    if ws.len() > 0 {
        let fixed = fixup_windows(ws, carry_in);
        let opened = if carry_in {
            fence() + ws[0]
        } else {
            ws[0]
        };
        if fence_count(opened) % 2 == 1 {
            lemma_fence_count_append_fence(opened);
        }
        assert(fence_count(fixed[0]) % 2 == 0);
        let rest = fixup_windows(ws.drop_first(), cuts_open(ws[0], carry_in));
        lemma_fixup_windows_balanced(ws.drop_first(), cuts_open(ws[0], carry_in));
        assert forall|j: int| 1 <= j < fixed.len() implies fence_count(fixed[j]) % 2 == 0 by {
            assert(fixed[j] == rest[j - 1]);
        }
    }
}

/// No chunk of a split response holds an odd number of fence markers:
/// a fence that a window boundary cuts open is closed in its own chunk
/// and reopened in the next, and the position label adds no marker.
pub proof fn lemma_chunks_fence_balanced(s: Seq<char>, threshold: nat, size: nat)
    requires
        1 <= size,
        s.len() > threshold,
    ensures
        forall|j: int|
            0 <= j < spec_chunks(s, threshold, size).len() ==> fence_count(
                #[trigger] spec_chunks(s, threshold, size)[j],
            ) % 2 == 0,
{
    let ws = windows_of(s, size);
    let fixed = fixup_windows(ws, false);
    let total = total_of(s.len(), size);
    lemma_fixup_windows_balanced(ws, false);
    assert forall|j: int| 0 <= j < spec_chunks(s, threshold, size).len() implies fence_count(
        #[trigger] spec_chunks(s, threshold, size)[j],
    ) % 2 == 0 by {
        let p = chunk_prefix((j + 1) as nat, total);
        assert(spec_chunks(s, threshold, size)[j] == p + fixed[j]);
        lemma_chunk_prefix_tickfree((j + 1) as nat, total);
        lemma_fence_count_prepend_tickfree(p, fixed[j]);
    }
}

/// When every window's own fence count is even, the fixup changes nothing.
pub proof fn lemma_fixup_even_identity(ws: Seq<Seq<char>>)
    requires
        forall|j: int| 0 <= j < ws.len() ==> fence_count(#[trigger] ws[j]) % 2 == 0,
    ensures
        fixup_windows(ws, false) == ws,
    decreases ws.len(),
{
    if ws.len() == 0 {
        assert(fixup_windows(ws, false) =~= ws);
    } else {
        assert(fence_count(ws[0]) % 2 == 0);
        assert(fixed_window(ws[0], false) == ws[0]);
        assert(!cuts_open(ws[0], false));
        assert forall|j: int| 0 <= j < ws.drop_first().len() implies fence_count(
            #[trigger] ws.drop_first()[j],
        ) % 2 == 0 by {
            assert(ws.drop_first()[j] == ws[j + 1]);
        }
        lemma_fixup_even_identity(ws.drop_first());
        assert(fixup_windows(ws, false) =~= ws);
    }
}

/// The windows of a text concatenate back to the text.
pub proof fn lemma_windows_flatten(s: Seq<char>, size: nat)
    requires
        1 <= size,
    ensures
        windows_of(s, size).flatten() == s,
    decreases s.len(),
{
    if s.len() <= size {
        seq![s].lemma_flatten_one_element();
    } else {
        let head = seq![s.take(size as int)];
        let tail = windows_of(s.skip(size as int), size);
        lemma_windows_flatten(s.skip(size as int), size);
        vstd::seq_lib::lemma_flatten_concat(head, tail);
        head.lemma_flatten_one_element();
        assert(s.take(size as int) + s.skip(size as int) =~= s);
    }
}

/// Every window the splitter yields fits in `size` scalar values.
pub proof fn lemma_windows_bounded(s: Seq<char>, size: nat)
    requires
        1 <= size,
    ensures
        forall|j: int|
            0 <= j < windows_of(s, size).len() ==> (#[trigger] windows_of(s, size)[j]).len()
                <= size,
    decreases s.len(),
{
    if s.len() > size {
        lemma_windows_bounded(s.skip(size as int), size);
        assert forall|j: int| 0 <= j < windows_of(s, size).len() implies (#[trigger] windows_of(
            s,
            size,
        )[j]).len() <= size by {
            if j > 0 {
                assert(windows_of(s, size)[j] == windows_of(s.skip(size as int), size)[j - 1]);
            }
        }
    }
}

/// The fixup adds at most one marker at each end of a window.
pub proof fn lemma_fixup_windows_bounded(ws: Seq<Seq<char>>, carry_in: bool)
    ensures
        forall|j: int|
            0 <= j < fixup_windows(ws, carry_in).len() ==> (#[trigger] fixup_windows(
                ws,
                carry_in,
            )[j]).len() <= ws[j].len() + 6,
    decreases ws.len(),
{
    if ws.len() > 0 {
        let fixed = fixup_windows(ws, carry_in);
        let rest = fixup_windows(ws.drop_first(), cuts_open(ws[0], carry_in));
        lemma_fixup_windows_len(ws, carry_in);
        lemma_fixup_windows_len(ws.drop_first(), cuts_open(ws[0], carry_in));
        lemma_fixup_windows_bounded(ws.drop_first(), cuts_open(ws[0], carry_in));
        assert forall|j: int| 0 <= j < fixed.len() implies (#[trigger] fixed[j]).len() <= ws[j].len()
            + 6 by {
            if j > 0 {
                assert(fixed[j] == rest[j - 1]);
                assert(ws.drop_first()[j - 1] == ws[j]);
            }
        }
    }
}

/// Every chunk of a split response is bounded: its position label, one
/// window of at most `size` scalar values, and at most two fixup markers.
pub proof fn lemma_chunks_bounded(s: Seq<char>, threshold: nat, size: nat)
    requires
        1 <= size,
        s.len() > threshold,
    ensures
        forall|j: int|
            0 <= j < spec_chunks(s, threshold, size).len() ==> (#[trigger] spec_chunks(
                s,
                threshold,
                size,
            )[j]).len() <= chunk_prefix((j + 1) as nat, total_of(s.len(), size)).len() + size + 6,
{
    let ws = windows_of(s, size);
    let fixed = fixup_windows(ws, false);
    let total = total_of(s.len(), size);
    lemma_windows_bounded(s, size);
    lemma_fixup_windows_bounded(ws, false);
    lemma_fixup_windows_len(ws, false);
    assert forall|j: int| 0 <= j < spec_chunks(s, threshold, size).len() implies (
    #[trigger] spec_chunks(s, threshold, size)[j]).len() <= chunk_prefix((j + 1) as nat, total).len()
        + size + 6 by {
        assert(spec_chunks(s, threshold, size)[j] == chunk_prefix((j + 1) as nat, total)
            + fixed[j]);
        assert(fixed[j].len() <= ws[j].len() + 6);
        assert(ws[j].len() <= size);
    }
}

/// Whether the window before position `j` left a fence cut open, with
/// the first window starting clean.
pub open spec fn carry_before(ws: Seq<Seq<char>>, j: int) -> bool
    decreases j,
{
    if j <= 0 {
        false
    } else {
        cuts_open(ws[j - 1], carry_before(ws, j - 1))
    }
}

/// The fixed-up windows from position `j` on are the fixup of the
/// remaining windows, entered with the carry accumulated so far.
pub proof fn lemma_fixup_skip(ws: Seq<Seq<char>>, j: int)
    requires
        0 <= j <= ws.len(),
    ensures
        fixup_windows(ws, false).skip(j) == fixup_windows(ws.skip(j), carry_before(ws, j)),
    decreases j,
{
    lemma_fixup_windows_len(ws, false);
    if j == 0 {
        assert(fixup_windows(ws, false).skip(0) =~= fixup_windows(ws, false));
        assert(ws.skip(0) =~= ws);
    } else {
        lemma_fixup_skip(ws, j - 1);
        let tail = ws.skip(j - 1);
        assert(tail.len() > 0);
        assert(tail[0] == ws[j - 1]);
        assert(tail.drop_first() =~= ws.skip(j));
        assert(fixup_windows(tail, carry_before(ws, j - 1)) == seq![
            fixed_window(ws[j - 1], carry_before(ws, j - 1)),
        ] + fixup_windows(ws.skip(j), cuts_open(ws[j - 1], carry_before(ws, j - 1))));
        assert(fixup_windows(ws, false).skip(j) =~= fixup_windows(ws, false).skip(
            j - 1,
        ).drop_first());
    }
}

/// The exact shape of every chunk of a split response: its position
/// label, a reopening marker when the previous window left a fence cut
/// open, the window itself, and a closing marker when its own count came
/// out odd. Together with `lemma_windows_flatten` this reconstructs the
/// whole response from any chunk list: strip each label and the fixup
/// markers this shape names, and the windows concatenate to the text.
pub proof fn lemma_chunk_shape(s: Seq<char>, threshold: nat, size: nat, j: int)
    requires
        1 <= size,
        s.len() > threshold,
        0 <= j < spec_chunks(s, threshold, size).len(),
    ensures
        ({
            let ws = windows_of(s, size);
            let cin = carry_before(ws, j);
            let opened = if cin {
                fence() + ws[j]
            } else {
                ws[j]
            };
            let cout = fence_count(opened) % 2 == 1;
            spec_chunks(s, threshold, size)[j] == chunk_prefix(
                (j + 1) as nat,
                total_of(s.len(), size),
            ) + (if cin {
                fence()
            } else {
                Seq::<char>::empty()
            }) + ws[j] + (if cout {
                fence()
            } else {
                Seq::<char>::empty()
            })
        }),
{
    let ws = windows_of(s, size);
    let fixed = fixup_windows(ws, false);
    let cin = carry_before(ws, j);
    let opened = if cin {
        fence() + ws[j]
    } else {
        ws[j]
    };
    let cout = fence_count(opened) % 2 == 1;
    lemma_fixup_windows_len(ws, false);
    lemma_fixup_skip(ws, j);
    assert(fixed.skip(j)[0] == fixed[j]);
    assert(ws.skip(j)[0] == ws[j]);
    assert(fixed[j] == fixed_window(ws[j], cin));
    assert(fixed_window(ws[j], cin) =~= (if cin {
        fence()
    } else {
        Seq::<char>::empty()
    }) + ws[j] + (if cout {
        fence()
    } else {
        Seq::<char>::empty()
    }));
}

/// With its position label stripped, each chunk's body is one window, and
/// the bodies concatenate back to the original text. Stated for responses
/// in which no window cuts a fence open: a fixup would add its closing and
/// reopening markers to the bodies.
pub proof fn lemma_chunk_bodies_reassemble(s: Seq<char>, threshold: nat, size: nat)
    requires
        1 <= size,
        s.len() > threshold,
        forall|j: int|
            0 <= j < windows_of(s, size).len() ==> fence_count(
                #[trigger] windows_of(s, size)[j],
            ) % 2 == 0,
    ensures
        spec_chunks(s, threshold, size).map(
            |j: int, c: Seq<char>|
                c.skip(chunk_prefix((j + 1) as nat, total_of(s.len(), size)).len() as int),
        ).flatten() == s,
{
    let ws = windows_of(s, size);
    let total = total_of(s.len(), size);
    lemma_fixup_even_identity(ws);
    let chunks = spec_chunks(s, threshold, size);
    let stripped = chunks.map(
        |j: int, c: Seq<char>| c.skip(chunk_prefix((j + 1) as nat, total).len() as int),
    );
    assert forall|j: int| 0 <= j < stripped.len() implies stripped[j] == ws[j] by {
        let p = chunk_prefix((j + 1) as nat, total);
        assert(chunks[j] == p + ws[j]);
        assert((p + ws[j]).skip(p.len() as int) =~= ws[j]);
    }
    assert(stripped =~= ws);
    lemma_windows_flatten(s, size);
}

} // verus!
