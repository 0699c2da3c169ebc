use chat_relay::gating::{
    error_mention_text, error_reply_text, help_file_name, message_prefix, should_respond,
    speech_reply, transcription_reply,
};
use chat_relay::imaging::{decode_image_payload, poll_finished, strip_data_url_prefix};
use chat_relay::media::ffmpeg_args;
use chat_relay::numfmt::u64_to_decimal;

#[test]
fn ffmpeg_args_frame_the_option_words() {
    let args = ffmpeg_args(false, None, "-f mp3").unwrap();
    assert_eq!(
        args,
        vec!["-hide_banner", "-loglevel", "panic", "-i", "pipe:0", "-f", "mp3", "pipe:1"]
    );
}

#[test]
fn ffmpeg_args_in_debug_mode_keep_the_banner() {
    let args = ffmpeg_args(true, Some("https://a.example/in.mp4".to_owned()), "-f mp3").unwrap();
    assert_eq!(
        args,
        vec!["-i", "https://a.example/in.mp4", "-f", "mp3", "pipe:1"]
    );
}

#[test]
fn ffmpeg_args_split_respects_quotes() {
    let args = ffmpeg_args(true, None, "-vf 'scale=320:240' -c:a mp3").unwrap();
    assert_eq!(
        args,
        vec!["-i", "pipe:0", "-vf", "scale=320:240", "-c:a", "mp3", "pipe:1"]
    );
}

#[test]
fn unmatched_quote_fails_the_split() {
    assert!(ffmpeg_args(false, None, "-metadata title='oops").is_none());
}

#[test]
fn image_payload_decodes_with_its_numbered_name() {
    let (bytes, name) = decode_image_payload("data:image/png;base64,aGk=", 3).unwrap();
    assert_eq!(bytes, b"hi".to_vec());
    assert_eq!(name, "image_output_3.png");
}

#[test]
fn bare_base64_decodes_too() {
    let (bytes, name) = decode_image_payload("aGVsbG8=", 0).unwrap();
    assert_eq!(bytes, b"hello".to_vec());
    assert_eq!(name, "image_output_0.png");
}

#[test]
fn invalid_base64_is_skipped() {
    assert!(decode_image_payload("data:image/png;base64,???", 1).is_none());
}

#[test]
fn data_url_prefix_is_stripped() {
    assert_eq!(strip_data_url_prefix("data:image/png;base64,AAAA"), "AAAA");
    assert_eq!(strip_data_url_prefix("AAAA"), "AAAA");
}

#[test]
fn polling_stops_only_when_the_job_leaves_the_queue() {
    assert!(!poll_finished("IN_QUEUE"));
    assert!(!poll_finished("IN_PROGRESS"));
    assert!(poll_finished("COMPLETED"));
    assert!(poll_finished("FAILED"));
}

#[test]
fn responding_is_gated_on_debug_author_and_mention() {
    assert!(should_respond(false, false, false, true));
    assert!(!should_respond(false, false, false, false));
    assert!(!should_respond(false, false, true, true));
    assert!(!should_respond(true, false, false, true));
    assert!(should_respond(true, true, false, true));
}

#[test]
fn debug_prefix_marks_debug_replies() {
    assert_eq!(message_prefix(true), "DEBUG: ");
    assert_eq!(message_prefix(false), "");
}

#[test]
fn error_texts_carry_the_message_in_a_fence() {
    assert_eq!(
        error_reply_text("boom"),
        "Apologies, your request cannot be completed, the error is as follows:\n```boom```"
    );
    assert_eq!(
        error_mention_text(7, "boom"),
        "Apologies <@7>, your request cannot be completed, the error is as follows:\n```boom```"
    );
}

#[test]
fn help_files_are_named_after_the_command() {
    assert_eq!(help_file_name(Some("imagegen".to_owned())), "imagegen.md");
    assert_eq!(help_file_name(None), "help.md");
}

#[test]
fn media_replies_mention_the_requester() {
    assert_eq!(
        transcription_reply(7, "https://a.example/clip.mp4", "hello there"),
        "<@7>\nRequested transcription source: [Here](<https://a.example/clip.mp4>)\nTransribed text: hello there"
    );
    assert_eq!(
        speech_reply(7, "read me"),
        "<@7>\nRequested text: read me"
    );
}

#[test]
fn decimal_rendering_matches_display() {
    assert_eq!(u64_to_decimal(0), "0");
    assert_eq!(u64_to_decimal(10), "10");
    assert_eq!(u64_to_decimal(12345), "12345");
    assert_eq!(u64_to_decimal(u64::MAX), format!("{}", u64::MAX));
}
