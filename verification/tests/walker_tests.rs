use chat_relay::errors::PipelineError;
use chat_relay::transcript::{assemble, ContentPart};
use chat_relay::walker::{walk_chain, MessageRecord, RawTurn, Role};

const BOT_ID: u64 = 99;

fn record(
    id: u64,
    author_id: u64,
    author_name: &str,
    text: &str,
    parent_id: Option<u64>,
) -> MessageRecord {
    MessageRecord {
        id,
        author_id,
        author_name: author_name.to_owned(),
        text: text.to_owned(),
        attachment_urls: Vec::new(),
        parent_id,
    }
}

#[test]
fn leaf_without_parent_yields_one_turn() {
    let leaf = record(3, 7, "alice", "hi", None);
    let turns = walk_chain(&Vec::new(), &leaf, BOT_ID).unwrap();
    assert_eq!(turns.len(), 1);
    assert_eq!(turns[0].role, Role::User);
    assert_eq!(turns[0].text, "hi");
    assert_eq!(turns[0].author_id, 7);
}

#[test]
fn three_message_chain_walks_newest_first() {
    let oldest = record(1, 7, "alice", "first question", None);
    let middle = record(2, BOT_ID, "delta", "bot answer", Some(1));
    let leaf = record(3, 7, "alice", "follow-up", Some(2));
    let store = vec![oldest, middle];
    let turns = walk_chain(&store, &leaf, BOT_ID).unwrap();
    assert_eq!(turns.len(), 3);
    assert_eq!(turns[0].text, "follow-up");
    assert_eq!(turns[0].role, Role::User);
    assert_eq!(turns[1].text, "bot answer");
    assert_eq!(turns[1].role, Role::Assistant);
    assert_eq!(turns[2].text, "first question");
    assert_eq!(turns[2].role, Role::User);
}

#[test]
fn three_message_chain_assembles_with_system_first() {
    let oldest = record(1, 7, "alice", "first question", None);
    let middle = record(2, BOT_ID, "delta", "bot answer", Some(1));
    let leaf = record(3, 7, "alice", "follow-up", Some(2));
    let store = vec![oldest, middle];
    let turns = walk_chain(&store, &leaf, BOT_ID).unwrap();
    let transcript = assemble(&turns, &Vec::new(), "be helpful".to_owned()).unwrap();
    assert_eq!(transcript.len(), 4);
    assert_eq!(transcript[0].role, Role::System);
    assert_eq!(transcript[0].text, "be helpful");
    assert!(transcript[0].parts.is_empty());
    assert_eq!(transcript[1].role, Role::User);
    assert_eq!(transcript[1].text, "7|alice: first question");
    assert_eq!(transcript[2].role, Role::Assistant);
    assert_eq!(transcript[2].text, "bot answer");
    assert_eq!(transcript[3].role, Role::User);
    assert_eq!(transcript[3].text, "7|alice: follow-up");
    match &transcript[3].parts[0] {
        ContentPart::Text(t) => assert_eq!(t, "7|alice: follow-up"),
        ContentPart::ImageRef(_) => panic!("the first part is the composed text"),
    }
}

#[test]
fn missing_parent_is_a_history_error() {
    let leaf = record(3, 7, "alice", "follow-up", Some(2));
    let result = walk_chain(&Vec::new(), &leaf, BOT_ID);
    assert_eq!(result.err(), Some(PipelineError::HistoryResolutionError));
}

#[test]
fn reply_cycle_is_a_history_error() {
    let a = record(1, 7, "alice", "a", Some(2));
    let b = record(2, 7, "alice", "b", Some(1));
    let leaf = record(3, 7, "alice", "c", Some(1));
    let store = vec![a, b];
    let result = walk_chain(&store, &leaf, BOT_ID);
    assert_eq!(result.err(), Some(PipelineError::HistoryResolutionError));
}

#[test]
fn author_identity_decides_the_role() {
    let leaf = record(5, BOT_ID, "delta", "own message", None);
    let turns = walk_chain(&Vec::new(), &leaf, BOT_ID).unwrap();
    assert_eq!(turns[0].role, Role::Assistant);
}

fn turn(author_id: u64, name: &str, text: &str, role: Role, urls: Vec<&str>) -> RawTurn {
    RawTurn {
        author_id,
        author_name: name.to_owned(),
        text: text.to_owned(),
        attachment_urls: urls.into_iter().map(|u| u.to_owned()).collect(),
        role,
    }
}

#[test]
fn assistant_text_is_not_prefixed() {
    let turns = vec![turn(BOT_ID, "delta", "raw answer", Role::Assistant, vec![])];
    let transcript = assemble(&turns, &Vec::new(), "sys".to_owned()).unwrap();
    assert_eq!(transcript[1].text, "raw answer");
}
