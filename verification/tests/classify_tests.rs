use chat_relay::classify::{classify, filename_of, AttachmentKind};
use chat_relay::errors::PipelineError;
use chat_relay::text_types::{get_image_type, get_text_type};

#[test]
fn image_suffix_behind_query_is_image() {
    assert_eq!(
        classify("https://x/y.png?sig=abc"),
        Ok(AttachmentKind::Image)
    );
}

#[test]
fn plain_image_suffixes_are_images() {
    assert_eq!(classify("https://a.example/b.jpg"), Ok(AttachmentKind::Image));
    assert_eq!(classify("https://a.example/b.jpeg"), Ok(AttachmentKind::Image));
    assert_eq!(classify("https://a.example/b.png"), Ok(AttachmentKind::Image));
}

#[test]
fn exe_suffix_is_ignored() {
    assert_eq!(classify("https://a.example/setup.exe"), Ok(AttachmentKind::Ignored));
}

#[test]
fn unrecognized_suffix_is_ignored() {
    assert_eq!(classify("https://a.example/video.mp4"), Ok(AttachmentKind::Ignored));
    assert_eq!(classify("https://a.example/no-suffix"), Ok(AttachmentKind::Ignored));
}

#[test]
fn text_suffix_behind_query_is_text_like() {
    assert_eq!(
        classify("https://a.example/src/main.rs?token=1"),
        Ok(AttachmentKind::TextLike)
    );
    assert_eq!(classify("https://a.example/notes.txt"), Ok(AttachmentKind::TextLike));
}

#[test]
fn query_content_does_not_leak_into_the_suffix() {
    // The query string carries an image suffix; the path does not.
    assert_eq!(
        classify("https://a.example/run.exe?name=.png"),
        Ok(AttachmentKind::Ignored)
    );
}

#[test]
fn unparseable_url_is_malformed() {
    assert_eq!(classify("not a url"), Err(PipelineError::MalformedUrl));
    assert_eq!(classify(""), Err(PipelineError::MalformedUrl));
}

#[test]
fn filename_is_the_last_segment_without_query() {
    assert_eq!(filename_of("https://a.example/dir/b.txt?q=1"), "b.txt");
    assert_eq!(filename_of("https://a.example/top.md"), "top.md");
}

#[test]
fn image_table_holds_the_three_static_formats() {
    assert_eq!(get_image_type(), vec![".jpg", ".jpeg", ".png"]);
}

#[test]
fn text_table_matches_the_allow_list() {
    let table = get_text_type();
    assert_eq!(table.len(), 223);
    assert_eq!(table[0], ".txt");
    assert_eq!(table[1], ".json");
    assert!(table.contains(&".rs"));
    assert!(table.contains(&".Y"));
    assert!(!table.contains(&".exe"));
    assert!(!table.contains(&".png"));
}
