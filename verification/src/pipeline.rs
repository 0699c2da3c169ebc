//! The two pure halves of one pipeline run, around the provider call the
//! caller makes in between: build the request from the walked turns and
//! the fetched attachment bodies, and turn the provider's outcome into
//! the chunked reply.
use vstd::prelude::*;

use crate::chunker::{chunk_response, spec_chunks};
use crate::dispatch::{first_choice_text, select_model, transcript_has_image, BotConfig};
use crate::errors::PipelineError;
use crate::transcript::{assemble, spec_assemble, Turn, TurnView};
use crate::walker::RawTurn;

verus! {

/// Build the completion request from the walked turns (newest first) and
/// the fetched bodies of their text-like attachments: the assembled
/// transcript, oldest-first behind the system turn, and the name of the
/// model its content calls for.
pub fn prepare_request(turns: &Vec<RawTurn>, bodies: &Vec<String>, config: &BotConfig) -> (r:
    Result<(Vec<Turn>, String), PipelineError>)
    ensures
        match r {
            Ok(tm) => {
                &&& spec_assemble(
                    turns@.map_values(|t: RawTurn| t@),
                    bodies@.map_values(|b: String| b@),
                    config.system_details@,
                ) == Ok::<_, PipelineError>(tm.0@.map_values(|t: Turn| t@))
                &&& tm.1@ == if transcript_has_image(tm.0@.map_values(|t: Turn| t@)) {
                    config.vision_model@
                } else {
                    config.text_model@
                }
            },
            Err(e) => spec_assemble(
                turns@.map_values(|t: RawTurn| t@),
                bodies@.map_values(|b: String| b@),
                config.system_details@,
            ) == Err::<Seq<TurnView>, _>(e),
        },
{
    let transcript = match assemble(turns, bodies, config.system_details.clone()) {
        Ok(t) => t,
        Err(e) => {
            return Err(e);
        },
    };
    let model = select_model(&transcript, config).to_owned();
    Ok((transcript, model))
}

/// Turn the provider's outcome into the chunked reply: a transport
/// failure surfaces as a provider error, an answer with no first-choice
/// text as an empty completion, and a response text is split into
/// labelled, fence-safe chunks.
pub fn process_response(outcome: Option<Vec<Option<String>>>, config: &BotConfig) -> (r: Result<
    Vec<String>,
    PipelineError,
>)
    requires
        config.wf(),
    ensures
        match outcome {
            None => r == Err::<Vec<String>, _>(PipelineError::ProviderError),
            Some(choices) => {
                if choices@.len() > 0 && choices@[0] is Some {
                    &&& r is Ok
                    &&& r->Ok_0@.map_values(|c: String| c@) == spec_chunks(
                        choices@[0]->0@,
                        config.reply_threshold as nat,
                        config.chunk_size as nat,
                    )
                } else {
                    r == Err::<Vec<String>, _>(PipelineError::EmptyCompletion)
                }
            },
        },
{
    let choices = match outcome {
        None => {
            return Err(PipelineError::ProviderError);
        },
        Some(choices) => choices,
    };
    let text = match first_choice_text(choices) {
        Ok(t) => t,
        Err(e) => {
            return Err(e);
        },
    };
    let chunks = chunk_response(text.as_str(), config.reply_threshold, config.chunk_size);
    Ok(chunks)
}

} // verus!
