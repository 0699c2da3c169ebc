//! The transcript assembler: turns the walked raw turns (newest first)
//! into the ordered multi-part transcript the completion provider takes
//! (oldest first), inlining fetched text attachments, referencing images
//! by URL, and appending the system instruction turn before the single
//! final reversal.
use vstd::prelude::*;

use crate::classify::{
    classify, filename_of, spec_classify, spec_filename, url_parse_ok, AttachmentKind,
};
use crate::errors::PipelineError;
use crate::numfmt::{dec_digits, u64_to_decimal};
use crate::walker::{RawTurn, RawTurnView, Role};

verus! {

/// One unit of multi-modal content within a turn.
pub enum ContentPart {
    /// Inline text.
    Text(String),
    /// A reference to an image the provider dereferences itself; the
    /// bytes are never fetched here.
    ImageRef(String),
}

/// The mathematical value of a `ContentPart`.
pub ghost enum ContentPartView {
    Text(Seq<char>),
    ImageRef(Seq<char>),
}

impl View for ContentPart {
    type V = ContentPartView;

    open spec fn view(&self) -> ContentPartView {
        match self {
            ContentPart::Text(s) => ContentPartView::Text(s@),
            ContentPart::ImageRef(u) => ContentPartView::ImageRef(u@),
        }
    }
}

/// One turn of the assembled transcript.
pub struct Turn {
    /// Who speaks.
    pub role: Role,
    /// The composed text of the turn.
    pub text: String,
    /// Its content parts: the composed text first, then one part per
    /// image or inlined text attachment.
    pub parts: Vec<ContentPart>,
}

/// The mathematical value of a `Turn`.
pub ghost struct TurnView {
    pub role: Role,
    pub text: Seq<char>,
    pub parts: Seq<ContentPartView>,
}

impl View for Turn {
    type V = TurnView;

    open spec fn view(&self) -> TurnView {
        TurnView {
            role: self.role,
            text: self.text@,
            parts: self.parts@.map_values(|p: ContentPart| p@),
        }
    }
}

/// The composed text of a walked turn: a user turn is prefixed with the
/// author's identity and display name; the assistant's own turns are kept
/// verbatim, so the model is not told its own identity string.
pub open spec fn spec_turn_text(t: RawTurnView) -> Seq<char> {
    if t.role == Role::User {
        dec_digits(t.author_id as nat) + seq!['|'] + t.author_name + seq![':', ' '] + t.text
    } else {
        t.text
    }
}

/// The text under which a fetched text-like attachment is inlined.
pub open spec fn spec_file_part_text(filename: Seq<char>, content: Seq<char>) -> Seq<char> {
    "Content of the file: "@ + filename + " ```"@ + content + "```"@
}

/// The final system turn, built from the operator-supplied instruction
/// string, with no content parts.
pub open spec fn spec_system_turn(text: Seq<char>) -> TurnView {
    TurnView { role: Role::System, text: text, parts: Seq::empty() }
}

/// Compose the text of one walked turn.
pub fn compose_turn_text(t: &RawTurn) -> (r: String)
    ensures
        r@ == spec_turn_text(t@),
{
    match t.role {
        Role::User => {
            let mut s = u64_to_decimal(t.author_id);
            s.append("|");
            s.append(t.author_name.as_str());
            s.append(": ");
            s.append(t.text.as_str());
            proof {
                reveal_strlit("|");
                reveal_strlit(": ");
                assert("|"@ =~= seq!['|']);
                assert(": "@ =~= seq![':', ' ']);
            }
            s
        },
        _ => t.text.clone(),
    }
}

/// Compose the inline text for one fetched text-like attachment.
pub fn file_part_text(filename: &str, content: &str) -> (r: String)
    ensures
        r@ == spec_file_part_text(filename@, content@),
{
    let mut s = String::from_str("Content of the file: ");
    s.append(filename);
    s.append(" ```");
    s.append(content);
    s.append("```");
    s
}

/// Build the final system turn.
pub fn system_turn(text: String) -> (r: Turn)
    ensures
        r@ == spec_system_turn(text@),
{
    let r = Turn { role: Role::System, text, parts: Vec::new() };
    proof {
        assert(r.parts@.map_values(|p: ContentPart| p@) =~= Seq::<ContentPartView>::empty());
    }
    r
}

/// The content parts of one turn's attachments, walking `urls` in order
/// while the text-like ones consume fetched bodies from `bodies[k]` on:
/// an image contributes a reference to its original URL (query string and
/// all), a text-like attachment its fetched body under its file name, and
/// an ignored one nothing. A URL the parser refuses aborts with
/// `MalformedUrl`; a text-like attachment with no body left to take
/// aborts with `FetchError`.
pub open spec fn spec_attachment_parts(
    urls: Seq<Seq<char>>,
    bodies: Seq<Seq<char>>,
    k: int,
) -> Result<(Seq<ContentPartView>, int), PipelineError>
    decreases urls.len(),
{
    if urls.len() == 0 {
        Ok((Seq::empty(), k))
    } else {
        let u = urls[0];
        if !url_parse_ok(u) {
            Err(PipelineError::MalformedUrl)
        } else if spec_classify(u) == AttachmentKind::Image {
            match spec_attachment_parts(urls.drop_first(), bodies, k) {
                Ok((ps, kf)) => Ok((seq![ContentPartView::ImageRef(u)] + ps, kf)),
                Err(e) => Err(e),
            }
        } else if spec_classify(u) == AttachmentKind::TextLike {
            if k >= bodies.len() {
                Err(PipelineError::FetchError)
            } else {
                match spec_attachment_parts(urls.drop_first(), bodies, k + 1) {
                    Ok((ps, kf)) => Ok(
                        (
                            seq![
                                ContentPartView::Text(
                                    spec_file_part_text(spec_filename(u), bodies[k]),
                                ),
                            ] + ps,
                            kf,
                        ),
                    ),
                    Err(e) => Err(e),
                }
            }
        } else {
            spec_attachment_parts(urls.drop_first(), bodies, k)
        }
    }
}

/// The turns accumulated newest-first, before the system turn and the
/// reversal, threading the index of the next fetched body through the
/// turns' text-like attachments.
pub open spec fn spec_assemble_acc(
    turns: Seq<RawTurnView>,
    bodies: Seq<Seq<char>>,
    k: int,
) -> Result<(Seq<TurnView>, int), PipelineError>
    decreases turns.len(),
{
    if turns.len() == 0 {
        Ok((Seq::empty(), k))
    } else {
        match spec_attachment_parts(turns[0].attachment_urls, bodies, k) {
            Err(e) => Err(e),
            Ok((ps, k2)) => {
                let tv = TurnView {
                    role: turns[0].role,
                    text: spec_turn_text(turns[0]),
                    parts: seq![ContentPartView::Text(spec_turn_text(turns[0]))] + ps,
                };
                match spec_assemble_acc(turns.drop_first(), bodies, k2) {
                    Err(e) => Err(e),
                    Ok((ts, k3)) => Ok((seq![tv] + ts, k3)),
                }
            },
        }
    }
}

/// The assembled transcript: the walked turns newest-first, then the
/// system turn, the whole accumulator reversed once — so the system turn,
/// appended last, stands first, oldest turn next, newest turn last.
pub open spec fn spec_assemble(
    turns: Seq<RawTurnView>,
    bodies: Seq<Seq<char>>,
    system_text: Seq<char>,
) -> Result<Seq<TurnView>, PipelineError> {
    match spec_assemble_acc(turns, bodies, 0) {
        Err(e) => Err(e),
        Ok((ts, _k)) => Ok((ts + seq![spec_system_turn(system_text)]).reverse()),
    }
}

/// The URLs whose bodies must be fetched before assembly: those of the
/// text-like attachments of `urls`, original query string and all, in
/// order. A URL the parser refuses aborts with `MalformedUrl`.
pub open spec fn spec_url_plan(urls: Seq<Seq<char>>) -> Result<Seq<Seq<char>>, PipelineError>
    decreases urls.len(),
{
    if urls.len() == 0 {
        Ok(Seq::empty())
    } else if !url_parse_ok(urls[0]) {
        Err(PipelineError::MalformedUrl)
    } else {
        match spec_url_plan(urls.drop_first()) {
            Err(e) => Err(e),
            Ok(rest) => {
                if spec_classify(urls[0]) == AttachmentKind::TextLike {
                    Ok(seq![urls[0]] + rest)
                } else {
                    Ok(rest)
                }
            },
        }
    }
}

/// The fetch plan of a whole walk: the text-like attachment URLs of all
/// turns, newest turn first, in attachment order within each turn.
pub open spec fn spec_fetch_plan(turns: Seq<RawTurnView>) -> Result<
    Seq<Seq<char>>,
    PipelineError,
>
    decreases turns.len(),
{
    if turns.len() == 0 {
        Ok(Seq::empty())
    } else {
        match spec_url_plan(turns[0].attachment_urls) {
            Err(e) => Err(e),
            Ok(p) => match spec_fetch_plan(turns.drop_first()) {
                Err(e) => Err(e),
                Ok(ps) => Ok(p + ps),
            },
        }
    }
}

/// A turn's parts cannot fail to build once its URL plan is satisfied:
/// when every URL parses and a body is on hand for each text-like
/// attachment, the parts come out, consuming exactly the planned bodies.
pub proof fn lemma_url_plan_feeds_parts(
    urls: Seq<Seq<char>>,
    bodies: Seq<Seq<char>>,
    k: int,
    plan: Seq<Seq<char>>,
)
    requires
        spec_url_plan(urls) == Ok::<_, PipelineError>(plan),
        0 <= k,
        k + plan.len() <= bodies.len(),
    ensures
        spec_attachment_parts(urls, bodies, k) is Ok,
        spec_attachment_parts(urls, bodies, k)->Ok_0.1 == k + plan.len(),
    decreases urls.len(),
{
    if urls.len() > 0 {
        let u = urls[0];
        let rest_plan = spec_url_plan(urls.drop_first())->Ok_0;
        if spec_classify(u) == AttachmentKind::TextLike {
            assert(plan == seq![u] + rest_plan);
            lemma_url_plan_feeds_parts(urls.drop_first(), bodies, k + 1, rest_plan);
        } else {
            assert(plan == rest_plan);
            lemma_url_plan_feeds_parts(urls.drop_first(), bodies, k, rest_plan);
        }
    }
}

/// Assembly cannot fail once the fetch plan is satisfied: when every
/// attachment URL of every walked turn parses, and one body is supplied
/// per planned fetch, the whole transcript comes out.
pub proof fn lemma_fetch_plan_feeds_assembly(
    turns: Seq<RawTurnView>,
    bodies: Seq<Seq<char>>,
    k: int,
    plan: Seq<Seq<char>>,
)
    requires
        spec_fetch_plan(turns) == Ok::<_, PipelineError>(plan),
        0 <= k,
        k + plan.len() <= bodies.len(),
    ensures
        spec_assemble_acc(turns, bodies, k) is Ok,
        spec_assemble_acc(turns, bodies, k)->Ok_0.1 == k + plan.len(),
    decreases turns.len(),
{
    if turns.len() > 0 {
        let p = spec_url_plan(turns[0].attachment_urls)->Ok_0;
        let ps = spec_fetch_plan(turns.drop_first())->Ok_0;
        assert(plan == p + ps);
        lemma_url_plan_feeds_parts(turns[0].attachment_urls, bodies, k, p);
        lemma_fetch_plan_feeds_assembly(turns.drop_first(), bodies, k + p.len(), ps);
    }
}

/// Success is owed: a walk whose fetch plan came out, with one fetched
/// body per planned URL, always assembles.
pub proof fn lemma_assembly_succeeds(
    turns: Seq<RawTurnView>,
    bodies: Seq<Seq<char>>,
    system_text: Seq<char>,
)
    requires
        spec_fetch_plan(turns) is Ok,
        spec_fetch_plan(turns)->Ok_0.len() <= bodies.len(),
    ensures
        spec_assemble(turns, bodies, system_text) is Ok,
{
    lemma_fetch_plan_feeds_assembly(turns, bodies, 0, spec_fetch_plan(turns)->Ok_0);
}

/// Assembly keeps the number of turns: one assembled turn per walked turn.
pub proof fn lemma_assemble_acc_len(turns: Seq<RawTurnView>, bodies: Seq<Seq<char>>, k: int)
    requires
        spec_assemble_acc(turns, bodies, k) is Ok,
    ensures
        spec_assemble_acc(turns, bodies, k)->Ok_0.0.len() == turns.len(),
    decreases turns.len(),
{
    if turns.len() > 0 {
        let k2 = spec_attachment_parts(turns[0].attachment_urls, bodies, k)->Ok_0.1;
        lemma_assemble_acc_len(turns.drop_first(), bodies, k2);
    }
}

/// The single reversal puts the system turn, though appended last, first,
/// and the walked turns behind it oldest-first: the turn walked `i` steps
/// back from the newest stands `i` places before the transcript's end.
pub proof fn lemma_transcript_order(
    turns: Seq<RawTurnView>,
    bodies: Seq<Seq<char>>,
    system_text: Seq<char>,
)
    requires
        spec_assemble(turns, bodies, system_text) is Ok,
    ensures
        ({
            let out = spec_assemble(turns, bodies, system_text)->Ok_0;
            let acc = spec_assemble_acc(turns, bodies, 0)->Ok_0.0;
            &&& out.len() == turns.len() + 1
            &&& out[0] == spec_system_turn(system_text)
            &&& forall|i: int| 0 <= i < acc.len() ==> out[acc.len() - i] == #[trigger] acc[i]
        }),
{
    let acc = spec_assemble_acc(turns, bodies, 0)->Ok_0.0;
    let base = acc + seq![spec_system_turn(system_text)];
    let out = spec_assemble(turns, bodies, system_text)->Ok_0;
    lemma_assemble_acc_len(turns, bodies, 0);
    assert(out == base.reverse());
    assert(out[0] == base[base.len() - 1]);
    assert forall|i: int| 0 <= i < acc.len() implies out[acc.len() - i] == #[trigger] acc[i] by {
        assert(out[acc.len() - i] == base[base.len() - 1 - (acc.len() - i)]);
        assert(base[i] == acc[i]);
    }
}

/// Build the content parts of one turn's attachments; `k0` is the index
/// of the first fetched body that belongs to this turn.
fn attachment_parts(urls: &Vec<String>, bodies: &Vec<String>, k0: usize) -> (r: Result<
    (Vec<ContentPart>, usize),
    PipelineError,
>)
    requires
        k0 <= bodies@.len(),
    ensures
        match r {
            Ok(pk) => spec_attachment_parts(
                urls@.map_values(|u: String| u@),
                bodies@.map_values(|b: String| b@),
                k0 as int,
            ) == Ok::<_, PipelineError>((pk.0@.map_values(|p: ContentPart| p@), pk.1 as int))
                && k0 <= pk.1 <= bodies@.len(),
            Err(e) => spec_attachment_parts(
                urls@.map_values(|u: String| u@),
                bodies@.map_values(|b: String| b@),
                k0 as int,
            ) == Err::<(Seq<ContentPartView>, int), _>(e),
        },
{
    let ghost uv = urls@.map_values(|u: String| u@);
    let ghost bv = bodies@.map_values(|b: String| b@);
    let mut parts: Vec<ContentPart> = Vec::new();
    let mut k: usize = k0;
    let mut i: usize = 0;
    proof {
        assert(uv.skip(0) =~= uv);
        assert(parts@.map_values(|p: ContentPart| p@) =~= Seq::<ContentPartView>::empty());
        if spec_attachment_parts(uv, bv, k0 as int) is Ok {
            let (ps, kf) = spec_attachment_parts(uv, bv, k0 as int)->Ok_0;
            assert(parts@.map_values(|p: ContentPart| p@) + ps =~= ps);
        }
    }
    while i < urls.len()
        invariant
            i <= urls@.len(),
            k0 <= k <= bodies@.len(),
            uv == urls@.map_values(|u: String| u@),
            bv == bodies@.map_values(|b: String| b@),
            match spec_attachment_parts(uv.skip(i as int), bv, k as int) {
                Ok((ps, kf)) => spec_attachment_parts(uv, bv, k0 as int) == Ok::<
                    _,
                    PipelineError,
                >((parts@.map_values(|p: ContentPart| p@) + ps, kf)),
                Err(e) => spec_attachment_parts(uv, bv, k0 as int) == Err::<
                    (Seq<ContentPartView>, int),
                    _,
                >(e),
            },
        decreases urls@.len() - i,
    {
        proof {
            assert(uv.skip(i as int)[0] == uv[i as int]);
            assert(uv.skip(i as int).drop_first() =~= uv.skip(i + 1));
        }
        let kind = match classify(urls[i].as_str()) {
            Ok(kind) => kind,
            Err(e) => {
                return Err(e);
            },
        };
        match kind {
            AttachmentKind::Image => {
                let ghost prev = parts@.map_values(|p: ContentPart| p@);
                parts.push(ContentPart::ImageRef(urls[i].clone()));
                proof {
                    assert(parts@.map_values(|p: ContentPart| p@) =~= prev.push(
                        ContentPartView::ImageRef(uv[i as int]),
                    ));
                    if spec_attachment_parts(uv.skip(i + 1), bv, k as int) is Ok {
                        let (ps, kf) = spec_attachment_parts(
                            uv.skip(i + 1),
                            bv,
                            k as int,
                        )->Ok_0;
                        assert(prev + (seq![ContentPartView::ImageRef(uv[i as int])] + ps)
                            =~= parts@.map_values(|p: ContentPart| p@) + ps);
                    }
                }
            },
            AttachmentKind::TextLike => {
                if k == bodies.len() {
                    return Err(PipelineError::FetchError);
                }
                let name = filename_of(urls[i].as_str());
                let text = file_part_text(name, bodies[k].as_str());
                let ghost prev = parts@.map_values(|p: ContentPart| p@);
                parts.push(ContentPart::Text(text));
                proof {
                    assert(parts@.map_values(|p: ContentPart| p@) =~= prev.push(
                        ContentPartView::Text(
                            spec_file_part_text(spec_filename(uv[i as int]), bv[k as int]),
                        ),
                    ));
                    if spec_attachment_parts(uv.skip(i + 1), bv, k + 1) is Ok {
                        let (ps, kf) = spec_attachment_parts(uv.skip(i + 1), bv, k + 1)->Ok_0;
                        assert(prev + (seq![
                            ContentPartView::Text(
                                spec_file_part_text(spec_filename(uv[i as int]), bv[k as int]),
                            ),
                        ] + ps) =~= parts@.map_values(|p: ContentPart| p@) + ps);
                    }
                }
                k = k + 1;
            },
            AttachmentKind::Ignored => {},
        }
        i = i + 1;
    }
    proof {
        assert(uv.skip(uv.len() as int) =~= Seq::<Seq<char>>::empty());
        assert(parts@.map_values(|p: ContentPart| p@) + Seq::<ContentPartView>::empty()
            =~= parts@.map_values(|p: ContentPart| p@));
    }
    Ok((parts, k))
}

/// Reverse the accumulated turns.
fn reverse_turns(v: Vec<Turn>) -> (r: Vec<Turn>)
    ensures
        r@.map_values(|t: Turn| t@) == v@.map_values(|t: Turn| t@).reverse(),
{
    let ghost orig = v@.map_values(|t: Turn| t@);
    let mut acc = v;
    let mut out: Vec<Turn> = Vec::new();
    proof {
        assert(out@.map_values(|t: Turn| t@) =~= orig.skip(orig.len() as int).reverse());
        assert(acc@.map_values(|t: Turn| t@) =~= orig.take(acc@.len() as int));
    }
    loop
        invariant
            acc@.len() <= orig.len(),
            acc@.map_values(|t: Turn| t@) == orig.take(acc@.len() as int),
            out@.map_values(|t: Turn| t@) == orig.skip(acc@.len() as int).reverse(),
        ensures
            out@.map_values(|t: Turn| t@) == orig.reverse(),
        decreases acc@.len(),
    {
        let ghost prev_out = out@.map_values(|t: Turn| t@);
        let ghost prev_len = acc@.len() as int;
        match acc.pop() {
            None => {
                proof {
                    assert(acc@.len() == 0);
                    assert(out@.map_values(|t: Turn| t@) == orig.skip(0).reverse());
                    assert(orig.skip(0) =~= orig);
                }
                break ;
            },
            Some(t) => {
                proof {
                    assert(1 <= prev_len <= orig.len());
                    assert(t@ == orig.take(prev_len)[prev_len - 1]);
                    assert(orig.take(prev_len)[prev_len - 1] == orig[prev_len - 1]);
                    assert(acc@.map_values(|t: Turn| t@) =~= orig.take(prev_len).drop_last());
                    assert(orig.take(prev_len).drop_last() =~= orig.take(prev_len - 1));
                }
                out.push(t);
                proof {
                    assert(out@.map_values(|t: Turn| t@) =~= prev_out.push(orig[prev_len - 1]));
                    assert(prev_out.push(orig[prev_len - 1]) =~= orig.skip(
                        prev_len - 1,
                    ).reverse());
                }
            },
        }
    }
    out
}

/// Assemble the transcript from the walked turns (newest first) and the
/// fetched bodies of their text-like attachments (in fetch-plan order).
/// On success the transcript is oldest-first with the system turn first;
/// any malformed URL or missing body aborts the whole assembly.
pub fn assemble(turns: &Vec<RawTurn>, bodies: &Vec<String>, system_text: String) -> (r: Result<
    Vec<Turn>,
    PipelineError,
>)
    ensures
        match r {
            Ok(ts) => spec_assemble(
                turns@.map_values(|t: RawTurn| t@),
                bodies@.map_values(|b: String| b@),
                system_text@,
            ) == Ok::<_, PipelineError>(ts@.map_values(|t: Turn| t@)),
            Err(e) => spec_assemble(
                turns@.map_values(|t: RawTurn| t@),
                bodies@.map_values(|b: String| b@),
                system_text@,
            ) == Err::<Seq<TurnView>, _>(e),
        },
{
    let ghost tv = turns@.map_values(|t: RawTurn| t@);
    let ghost bv = bodies@.map_values(|b: String| b@);
    let mut acc: Vec<Turn> = Vec::new();
    let mut k: usize = 0;
    let mut i: usize = 0;
    proof {
        assert(tv.skip(0) =~= tv);
        assert(acc@.map_values(|t: Turn| t@) =~= Seq::<TurnView>::empty());
    }
    while i < turns.len()
        invariant
            i <= turns@.len(),
            k <= bodies@.len(),
            tv == turns@.map_values(|t: RawTurn| t@),
            bv == bodies@.map_values(|b: String| b@),
            match spec_assemble_acc(tv.skip(i as int), bv, k as int) {
                Ok((ts, kf)) => spec_assemble_acc(tv, bv, 0) == Ok::<_, PipelineError>(
                    (acc@.map_values(|t: Turn| t@) + ts, kf),
                ),
                Err(e) => spec_assemble_acc(tv, bv, 0) == Err::<(Seq<TurnView>, int), _>(e),
            },
        decreases turns@.len() - i,
    {
        proof {
            assert(tv.skip(i as int)[0] == tv[i as int]);
            assert(tv.skip(i as int).drop_first() =~= tv.skip(i + 1));
        }
        let (mut parts, k2) = match attachment_parts(&turns[i].attachment_urls, bodies, k) {
            Ok(pk) => pk,
            Err(e) => {
                return Err(e);
            },
        };
        let text = compose_turn_text(&turns[i]);
        let mut all_parts: Vec<ContentPart> = Vec::new();
        all_parts.push(ContentPart::Text(text.clone()));
        all_parts.append(&mut parts);
        let turn = Turn { role: turns[i].role, text, parts: all_parts };
        let ghost prev = acc@.map_values(|t: Turn| t@);
        proof {
            assert(turn@.parts =~= seq![ContentPartView::Text(spec_turn_text(tv[i as int]))]
                + spec_attachment_parts(tv[i as int].attachment_urls, bv, k as int)->Ok_0.0);
        }
        acc.push(turn);
        proof {
            let tview = TurnView {
                role: tv[i as int].role,
                text: spec_turn_text(tv[i as int]),
                parts: seq![ContentPartView::Text(spec_turn_text(tv[i as int]))]
                    + spec_attachment_parts(tv[i as int].attachment_urls, bv, k as int)->Ok_0.0,
            };
            assert(acc@.map_values(|t: Turn| t@) =~= prev.push(tview));
            if spec_assemble_acc(tv.skip(i + 1), bv, k2 as int) is Ok {
                let (ts, kf) = spec_assemble_acc(tv.skip(i + 1), bv, k2 as int)->Ok_0;
                assert(prev + (seq![tview] + ts) =~= acc@.map_values(|t: Turn| t@) + ts);
            }
        }
        k = k2;
        i = i + 1;
    }
    proof {
        assert(tv.skip(tv.len() as int) =~= Seq::<RawTurnView>::empty());
        assert(acc@.map_values(|t: Turn| t@) + Seq::<TurnView>::empty() =~= acc@.map_values(
            |t: Turn| t@,
        ));
    }
    let ghost chrono = acc@.map_values(|t: Turn| t@);
    acc.push(system_turn(system_text));
    proof {
        assert(acc@.map_values(|t: Turn| t@) =~= chrono + seq![
            spec_system_turn(system_text@),
        ]);
    }
    let out = reverse_turns(acc);
    Ok(out)
}

/// List the URLs whose bodies the caller must fetch before assembly: the
/// text-like attachments of all walked turns, newest turn first, each
/// with its original query string (the signed URL is what is fetched).
pub fn fetch_plan(turns: &Vec<RawTurn>) -> (r: Result<Vec<String>, PipelineError>)
    ensures
        match r {
            Ok(plan) => spec_fetch_plan(turns@.map_values(|t: RawTurn| t@)) == Ok::<
                _,
                PipelineError,
            >(plan@.map_values(|u: String| u@)),
            Err(e) => spec_fetch_plan(turns@.map_values(|t: RawTurn| t@)) == Err::<
                Seq<Seq<char>>,
                _,
            >(e),
        },
{
    let ghost tv = turns@.map_values(|t: RawTurn| t@);
    let mut plan: Vec<String> = Vec::new();
    let mut i: usize = 0;
    proof {
        assert(tv.skip(0) =~= tv);
        assert(plan@.map_values(|u: String| u@) =~= Seq::<Seq<char>>::empty());
    }
    while i < turns.len()
        invariant
            i <= turns@.len(),
            tv == turns@.map_values(|t: RawTurn| t@),
            match spec_fetch_plan(tv.skip(i as int)) {
                Ok(ps) => spec_fetch_plan(tv) == Ok::<_, PipelineError>(
                    plan@.map_values(|u: String| u@) + ps,
                ),
                Err(e) => spec_fetch_plan(tv) == Err::<Seq<Seq<char>>, _>(e),
            },
        decreases turns@.len() - i,
    {
        proof {
            assert(tv.skip(i as int)[0] == tv[i as int]);
            assert(tv.skip(i as int).drop_first() =~= tv.skip(i + 1));
        }
        let urls = &turns[i].attachment_urls;
        let ghost uv = urls@.map_values(|u: String| u@);
        let ghost done = plan@.map_values(|u: String| u@);
        let mut j: usize = 0;
        proof {
            assert(uv.skip(0) =~= uv);
            assert(uv == tv[i as int].attachment_urls);
        }
        while j < urls.len()
            invariant
                j <= urls@.len(),
                i < tv.len(),
                tv == turns@.map_values(|t: RawTurn| t@),
                uv == urls@.map_values(|u: String| u@),
                uv == tv[i as int].attachment_urls,
                tv.skip(i as int)[0] == tv[i as int],
                tv.skip(i as int).drop_first() == tv.skip(i + 1),
                spec_url_plan(uv) is Err ==> spec_fetch_plan(tv) == Err::<Seq<Seq<char>>, _>(
                    spec_url_plan(uv)->Err_0,
                ),
                match spec_url_plan(uv.skip(j as int)) {
                    Ok(ps) => spec_url_plan(uv) is Ok && done + spec_url_plan(uv)->Ok_0
                        == plan@.map_values(|u: String| u@) + ps,
                    Err(e) => spec_url_plan(uv) == Err::<Seq<Seq<char>>, _>(e),
                },
            decreases urls@.len() - j,
        {
            proof {
                assert(uv.skip(j as int)[0] == uv[j as int]);
                assert(uv.skip(j as int).drop_first() =~= uv.skip(j + 1));
            }
            let kind = match classify(urls[j].as_str()) {
                Ok(kind) => kind,
                Err(e) => {
                    proof {
                        assert(spec_url_plan(uv.skip(j as int)) == Err::<Seq<Seq<char>>, _>(e));
                    }
                    return Err(e);
                },
            };
            if matches!(kind, AttachmentKind::TextLike) {
                let ghost prev = plan@.map_values(|u: String| u@);
                plan.push(urls[j].clone());
                proof {
                    assert(plan@.map_values(|u: String| u@) =~= prev.push(uv[j as int]));
                    if spec_url_plan(uv.skip(j + 1)) is Ok {
                        let rest = spec_url_plan(uv.skip(j + 1))->Ok_0;
                        assert(prev + (seq![uv[j as int]] + rest) =~= plan@.map_values(
                            |u: String| u@,
                        ) + rest);
                    }
                }
            }
            j = j + 1;
        }
        proof {
            assert(uv.skip(uv.len() as int) =~= Seq::<Seq<char>>::empty());
            assert(plan@.map_values(|u: String| u@) + Seq::<Seq<char>>::empty()
                =~= plan@.map_values(|u: String| u@));
            assert(done + spec_url_plan(uv)->Ok_0 == plan@.map_values(|u: String| u@));
            if spec_fetch_plan(tv.skip(i + 1)) is Ok {
                let ps = spec_fetch_plan(tv.skip(i + 1))->Ok_0;
                let p = spec_url_plan(uv)->Ok_0;
                assert(done + (p + ps) =~= plan@.map_values(|u: String| u@) + ps);
            }
        }
        i = i + 1;
    }
    proof {
        assert(tv.skip(tv.len() as int) =~= Seq::<RawTurnView>::empty());
        assert(plan@.map_values(|u: String| u@) + Seq::<Seq<char>>::empty() =~= plan@.map_values(
            |u: String| u@,
        ));
    }
    Ok(plan)
}

} // verus!
