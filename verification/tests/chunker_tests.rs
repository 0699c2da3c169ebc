use chat_relay::chunker::chunk_response;
use chat_relay::dispatch::BotConfig;
use chat_relay::pipeline::process_response;

fn test_config() -> BotConfig {
    BotConfig {
        text_model: "gpt-4o".to_owned(),
        vision_model: "gpt-4o".to_owned(),
        system_details: "".to_owned(),
        max_tokens: 4096,
        reply_threshold: 2000,
        chunk_size: 1980,
    }
}

#[test]
fn short_text_is_returned_whole() {
    let chunks = chunk_response("hello world", 2000, 1980);
    assert_eq!(chunks, vec!["hello world".to_owned()]);
}

#[test]
fn empty_text_is_one_empty_chunk() {
    let chunks = chunk_response("", 2000, 1980);
    assert_eq!(chunks, vec![String::new()]);
}

#[test]
fn text_at_threshold_is_returned_whole() {
    let text = "x".repeat(2000);
    let chunks = chunk_response(&text, 2000, 1980);
    assert_eq!(chunks.len(), 1);
    assert_eq!(chunks[0], text);
}

#[test]
fn short_text_with_odd_fences_is_untouched() {
    let chunks = chunk_response("```rust", 2000, 1980);
    assert_eq!(chunks, vec!["```rust".to_owned()]);
}

#[test]
fn two_thousand_and_one_chars_make_two_chunks() {
    let text = "x".repeat(2001);
    let chunks = chunk_response(&text, 2000, 1980);
    assert_eq!(chunks.len(), 2);
    assert_eq!(chunks[0], format!("1/2: {}", &text[..1980]));
    assert_eq!(chunks[1], format!("2/2: {}", &text[1980..]));
    let bodies = format!("{}{}", &chunks[0][5..], &chunks[1][5..]);
    assert_eq!(bodies, text);
}

#[test]
fn split_counts_scalar_values_not_bytes() {
    let text = "é".repeat(2001);
    let chunks = chunk_response(&text, 2000, 1980);
    assert_eq!(chunks.len(), 2);
    let first_window: String = text.chars().take(1980).collect();
    let last_window: String = text.chars().skip(1980).collect();
    assert_eq!(chunks[0], format!("1/2: {}", first_window));
    assert_eq!(chunks[1], format!("2/2: {}", last_window));
}

#[test]
fn cut_fence_is_closed_and_reopened() {
    let body = format!("```{}", "a".repeat(1998));
    let chunks = chunk_response(&body, 2000, 1980);
    assert_eq!(chunks.len(), 2);
    let first_window = format!("```{}", "a".repeat(1977));
    assert_eq!(chunks[0], format!("1/2: {}```", first_window));
    // The reopened window holds one marker of its own again, so it is
    // closed at its end as well: every chunk leaves with matched fences.
    assert_eq!(chunks[1], format!("2/2: ```{}```", "a".repeat(21)));
    for chunk in &chunks {
        assert_eq!(chunk.matches("```").count() % 2, 0);
    }
}

#[test]
fn balanced_fences_are_left_alone() {
    let body = format!("```{}``` {}", "a".repeat(100), "b".repeat(2000));
    let chunks = chunk_response(&body, 2000, 1980);
    assert_eq!(chunks.len(), 2);
    for chunk in &chunks {
        assert_eq!(chunk.matches("```").count() % 2, 0);
    }
    let stripped: String = chunks.iter().map(|c| &c[5..]).collect();
    assert_eq!(stripped, body);
}

#[test]
fn exact_multiple_of_window_size_labels_one_more() {
    // 3960 characters fill two windows exactly, but the label total is
    // floor(len/size) + 1 = 3, as the splitting rule states it.
    let text = "y".repeat(3960);
    let chunks = chunk_response(&text, 2000, 1980);
    assert_eq!(chunks.len(), 2);
    assert_eq!(chunks[0], format!("1/3: {}", &text[..1980]));
    assert_eq!(chunks[1], format!("2/3: {}", &text[1980..]));
}

#[test]
fn process_response_chunks_a_long_answer() {
    let config = test_config();
    let text = "z".repeat(2001);
    let result = process_response(Some(vec![Some(text.clone())]), &config).unwrap();
    assert_eq!(result.len(), 2);
    assert_eq!(result[0], format!("1/2: {}", &text[..1980]));
    assert_eq!(result[1], format!("2/2: {}", &text[1980..]));
}

#[test]
fn process_response_returns_short_answer_whole() {
    let config = test_config();
    let result = process_response(Some(vec![Some("fine.".to_owned())]), &config).unwrap();
    assert_eq!(result, vec!["fine.".to_owned()]);
}
