//! The completion-dispatch decisions: which model a transcript needs,
//! and how the provider's answer is reduced to the single response text.
//! The network call itself lives outside; these functions decide what to
//! send and what the answer means, once, per request.
use vstd::prelude::*;

use crate::errors::PipelineError;
use crate::transcript::{ContentPart, ContentPartView, Turn, TurnView};

verus! {

/// The configuration fixed once at startup: model names, the system
/// instruction, the output budget and the chunking constants.
pub struct BotConfig {
    /// The model used for text-only transcripts.
    pub text_model: String,
    /// The vision-capable model used when an image reference is present.
    pub vision_model: String,
    /// The operator-configured system instruction (persona prompt).
    pub system_details: String,
    /// The provider's maximum-output-token budget.
    pub max_tokens: u16,
    /// A response longer than this is split (in scalar values); smaller
    /// than the platform's hard ceiling to leave prefix headroom.
    pub reply_threshold: usize,
    /// The window size of a split response, budgeting room for the label.
    pub chunk_size: usize,
}

impl BotConfig {
    /// What every pipeline entry point needs of the configuration: room
    /// for at least two scalar values per window keeps the chunk count
    /// within the machine's range for every response length.
    pub open spec fn wf(&self) -> bool {
        2 <= self.chunk_size
    }
}

/// Whether one turn carries an image reference among its parts.
pub open spec fn turn_has_image(t: TurnView) -> bool {
    exists|j: int| 0 <= j < t.parts.len() && (#[trigger] t.parts[j]) is ImageRef
}

/// Whether any turn of the transcript carries an image reference.
pub open spec fn transcript_has_image(ts: Seq<TurnView>) -> bool {
    exists|i: int| 0 <= i < ts.len() && turn_has_image(#[trigger] ts[i])
}

/// Pick the model for a transcript: the vision-capable variant exactly
/// when some turn carries an image reference, else the text model. A pure
/// function of the transcript, decided once per request.
pub fn select_model<'a>(transcript: &Vec<Turn>, config: &'a BotConfig) -> (r: &'a str)
    ensures
        r@ == if transcript_has_image(transcript@.map_values(|t: Turn| t@)) {
            config.vision_model@
        } else {
            config.text_model@
        },
{
    let ghost tv = transcript@.map_values(|t: Turn| t@);
    let mut i: usize = 0;
    while i < transcript.len()
        invariant
            i <= transcript@.len(),
            tv == transcript@.map_values(|t: Turn| t@),
            forall|a: int| 0 <= a < i ==> !turn_has_image(#[trigger] tv[a]),
        decreases transcript@.len() - i,
    {
        let parts = &transcript[i].parts;
        let mut j: usize = 0;
        while j < parts.len()
            invariant
                j <= parts@.len(),
                i < transcript@.len(),
                tv == transcript@.map_values(|t: Turn| t@),
                parts@.map_values(|p: ContentPart| p@) == tv[i as int].parts,
                forall|b: int| 0 <= b < j ==> !((#[trigger] tv[i as int].parts[b]) is ImageRef),
            decreases parts@.len() - j,
        {
            let is_image = match &parts[j] {
                ContentPart::ImageRef(_) => true,
                ContentPart::Text(_) => false,
            };
            if is_image {
                proof {
                    assert(tv[i as int].parts[j as int] is ImageRef);
                    assert(turn_has_image(tv[i as int]));
                }
                return config.vision_model.as_str();
            }
            j = j + 1;
        }
        proof {
            assert(!turn_has_image(tv[i as int]));
        }
        i = i + 1;
    }
    proof {
        assert(!transcript_has_image(tv));
    }
    config.text_model.as_str()
}

/// Reduce the provider's choices to the single response text: exactly the
/// first choice's message text. The provider answering with no choices,
/// or a first choice with no text, is an empty completion, distinct from
/// a transport failure.
pub fn first_choice_text(choices: Vec<Option<String>>) -> (r: Result<String, PipelineError>)
    ensures
        match r {
            Ok(t) => choices@.len() > 0 && choices@[0] is Some && t@ == choices@[0]->0@,
            Err(e) => e == PipelineError::EmptyCompletion && (choices@.len() == 0 || choices@[0]
                is None),
        },
{
    let mut choices = choices;
    if choices.len() == 0 {
        return Err(PipelineError::EmptyCompletion);
    }
    match choices.remove(0) {
        Some(t) => Ok(t),
        None => Err(PipelineError::EmptyCompletion),
    }
}

} // verus!
