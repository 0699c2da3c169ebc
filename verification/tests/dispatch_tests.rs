use chat_relay::dispatch::{first_choice_text, select_model, BotConfig};
use chat_relay::errors::PipelineError;
use chat_relay::pipeline::{prepare_request, process_response};
use chat_relay::transcript::{ContentPart, Turn};
use chat_relay::walker::{RawTurn, Role};

fn test_config() -> BotConfig {
    BotConfig {
        text_model: "gpt-4o-mini".to_owned(),
        vision_model: "gpt-4o".to_owned(),
        system_details: "be helpful".to_owned(),
        max_tokens: 4096,
        reply_threshold: 2000,
        chunk_size: 1980,
    }
}

fn text_turn(text: &str) -> Turn {
    Turn {
        role: Role::User,
        text: text.to_owned(),
        parts: vec![ContentPart::Text(text.to_owned())],
    }
}

#[test]
fn image_part_selects_the_vision_model() {
    let config = test_config();
    let mut turn = text_turn("see this");
    turn.parts.push(ContentPart::ImageRef("https://a.example/p.png".to_owned()));
    let transcript = vec![text_turn("hello"), turn];
    assert_eq!(select_model(&transcript, &config), "gpt-4o");
}

#[test]
fn text_only_transcript_selects_the_text_model() {
    let config = test_config();
    let transcript = vec![text_turn("hello"), text_turn("world")];
    assert_eq!(select_model(&transcript, &config), "gpt-4o-mini");
}

#[test]
fn first_choice_is_extracted() {
    let r = first_choice_text(vec![Some("answer".to_owned()), Some("other".to_owned())]);
    assert_eq!(r.unwrap(), "answer");
}

#[test]
fn no_choices_is_an_empty_completion() {
    assert_eq!(
        first_choice_text(Vec::new()).err(),
        Some(PipelineError::EmptyCompletion)
    );
}

#[test]
fn first_choice_without_text_is_an_empty_completion() {
    assert_eq!(
        first_choice_text(vec![None, Some("late".to_owned())]).err(),
        Some(PipelineError::EmptyCompletion)
    );
}

#[test]
fn transport_failure_is_a_provider_error() {
    let config = test_config();
    assert_eq!(
        process_response(None, &config).err(),
        Some(PipelineError::ProviderError)
    );
}

#[test]
fn empty_answer_is_an_empty_completion() {
    let config = test_config();
    assert_eq!(
        process_response(Some(Vec::new()), &config).err(),
        Some(PipelineError::EmptyCompletion)
    );
}

#[test]
fn prepare_request_picks_vision_for_an_image_attachment() {
    let config = test_config();
    let turns = vec![RawTurn {
        author_id: 7,
        author_name: "alice".to_owned(),
        text: "what is this".to_owned(),
        attachment_urls: vec!["https://a.example/pic.png?sig=1".to_owned()],
        role: Role::User,
    }];
    let (transcript, model) = prepare_request(&turns, &Vec::new(), &config).unwrap();
    assert_eq!(model, "gpt-4o");
    assert_eq!(transcript.len(), 2);
    assert_eq!(transcript[0].role, Role::System);
    assert_eq!(transcript[0].text, "be helpful");
}

#[test]
fn prepare_request_picks_text_model_without_images() {
    let config = test_config();
    let turns = vec![RawTurn {
        author_id: 7,
        author_name: "alice".to_owned(),
        text: "just words".to_owned(),
        attachment_urls: Vec::new(),
        role: Role::User,
    }];
    let (_, model) = prepare_request(&turns, &Vec::new(), &config).unwrap();
    assert_eq!(model, "gpt-4o-mini");
}

#[test]
fn error_names_are_stable() {
    assert_eq!(PipelineError::MalformedUrl.name(), "malformed url");
    assert_eq!(PipelineError::FetchError.name(), "attachment fetch failed");
    assert_eq!(
        PipelineError::HistoryResolutionError.name(),
        "history resolution failed"
    );
    assert_eq!(PipelineError::ProviderError.name(), "provider call failed");
    assert_eq!(PipelineError::EmptyCompletion.name(), "empty completion");
}
