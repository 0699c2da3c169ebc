use chat_relay::errors::PipelineError;
use chat_relay::transcript::{assemble, fetch_plan, ContentPart};
use chat_relay::walker::{RawTurn, Role};

fn turn_with_urls(urls: Vec<&str>) -> RawTurn {
    RawTurn {
        author_id: 7,
        author_name: "alice".to_owned(),
        text: "look at this".to_owned(),
        attachment_urls: urls.into_iter().map(|u| u.to_owned()).collect(),
        role: Role::User,
    }
}

#[test]
fn fetch_plan_lists_only_text_like_urls() {
    let turns = vec![turn_with_urls(vec![
        "https://a.example/pic.png?sig=1",
        "https://a.example/code.rs?sig=2",
        "https://a.example/video.mp4",
        "https://a.example/notes.txt",
    ])];
    let plan = fetch_plan(&turns).unwrap();
    assert_eq!(
        plan,
        vec![
            "https://a.example/code.rs?sig=2".to_owned(),
            "https://a.example/notes.txt".to_owned(),
        ]
    );
}

#[test]
fn fetch_plan_rejects_a_malformed_url() {
    let turns = vec![turn_with_urls(vec!["https://a.example/ok.txt", "::::"])];
    assert_eq!(fetch_plan(&turns).err(), Some(PipelineError::MalformedUrl));
}

#[test]
fn assemble_inlines_text_and_references_images() {
    let turns = vec![turn_with_urls(vec![
        "https://a.example/pic.png?sig=1",
        "https://a.example/code.rs?sig=2",
        "https://a.example/video.mp4",
    ])];
    let bodies = vec!["fn main() {}".to_owned()];
    let transcript = assemble(&turns, &bodies, "sys".to_owned()).unwrap();
    assert_eq!(transcript.len(), 2);
    let user_turn = &transcript[1];
    assert_eq!(user_turn.text, "7|alice: look at this");
    assert_eq!(user_turn.parts.len(), 3);
    match &user_turn.parts[0] {
        ContentPart::Text(t) => assert_eq!(t, "7|alice: look at this"),
        ContentPart::ImageRef(_) => panic!("first part must be the composed text"),
    }
    match &user_turn.parts[1] {
        ContentPart::ImageRef(u) => assert_eq!(u, "https://a.example/pic.png?sig=1"),
        ContentPart::Text(_) => panic!("the image keeps its original URL"),
    }
    match &user_turn.parts[2] {
        ContentPart::Text(t) => {
            assert_eq!(t, "Content of the file: code.rs ```fn main() {}```")
        },
        ContentPart::ImageRef(_) => panic!("the fetched file is inlined as text"),
    }
}

#[test]
fn assemble_without_a_needed_body_is_a_fetch_error() {
    let turns = vec![turn_with_urls(vec!["https://a.example/notes.txt"])];
    let result = assemble(&turns, &Vec::new(), "sys".to_owned());
    assert_eq!(result.err(), Some(PipelineError::FetchError));
}

#[test]
fn assemble_rejects_a_malformed_url() {
    let turns = vec![turn_with_urls(vec!["::::"])];
    let result = assemble(&turns, &Vec::new(), "sys".to_owned());
    assert_eq!(result.err(), Some(PipelineError::MalformedUrl));
}

#[test]
fn bodies_are_consumed_in_walk_order() {
    let turns = vec![
        turn_with_urls(vec!["https://a.example/newest.txt"]),
        turn_with_urls(vec!["https://a.example/oldest.txt"]),
    ];
    let bodies = vec!["NEWEST".to_owned(), "OLDEST".to_owned()];
    let transcript = assemble(&turns, &bodies, "sys".to_owned()).unwrap();
    // Oldest-first after the system turn; the newest turn comes last.
    match &transcript[1].parts[1] {
        ContentPart::Text(t) => {
            assert_eq!(t, "Content of the file: oldest.txt ```OLDEST```")
        },
        ContentPart::ImageRef(_) => panic!("expected an inlined file"),
    }
    match &transcript[2].parts[1] {
        ContentPart::Text(t) => {
            assert_eq!(t, "Content of the file: newest.txt ```NEWEST```")
        },
        ContentPart::ImageRef(_) => panic!("expected an inlined file"),
    }
}
