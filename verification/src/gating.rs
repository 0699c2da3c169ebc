//! The event-handler decisions around one incoming message, and the
//! texts of the fixed replies: whether the bot answers at all, what
//! prefix a debug build puts in front, and how errors and media results
//! are worded. All pure; the platform calls around them live outside.
use vstd::prelude::*;

use crate::numfmt::{dec_digits, u64_to_decimal};

verus! {

/// Whether an incoming message gets a reply: in debug mode only the
/// operator is served; the bot never answers itself, and only answers
/// when it is mentioned.
pub fn should_respond(
    debug_enabled: bool,
    author_is_operator: bool,
    author_is_self: bool,
    mentions_self: bool,
) -> (r: bool)
    ensures
        r == ((!debug_enabled || author_is_operator) && !author_is_self && mentions_self),
{
    (!debug_enabled || author_is_operator) && !author_is_self && mentions_self
}

/// The prefix every reply carries in debug mode, and nothing otherwise.
pub fn message_prefix(debug_enabled: bool) -> (r: &'static str)
    ensures
        debug_enabled ==> r@ == "DEBUG: "@,
        !debug_enabled ==> r@ == ""@,
{
    if debug_enabled {
        "DEBUG: "
    } else {
        ""
    }
}

/// The mention token that pings a user by identity.
pub open spec fn spec_mention(user_id: nat) -> Seq<char> {
    "<@"@ + dec_digits(user_id) + ">"@
}

/// The reply sent in place of an expected answer when a run aborts.
pub open spec fn spec_error_reply_text(error_msg: Seq<char>) -> Seq<char> {
    "Apologies, your request cannot be completed, the error is as follows:\n```"@ + error_msg
        + "```"@
}

/// The same apology, addressed to the requester by mention.
pub open spec fn spec_error_mention_text(user_id: nat, error_msg: Seq<char>) -> Seq<char> {
    "Apologies "@ + spec_mention(user_id)
        + ", your request cannot be completed, the error is as follows:\n```"@ + error_msg
        + "```"@
}

/// Compose the apology a failed run answers with.
pub fn error_reply_text(error_msg: &str) -> (r: String)
    ensures
        r@ == spec_error_reply_text(error_msg@),
{
    let mut s = String::from_str(
        "Apologies, your request cannot be completed, the error is as follows:\n```",
    );
    s.append(error_msg);
    s.append("```");
    s
}

/// Compose the mention-addressed apology used where no message can be
/// replied to directly.
pub fn error_mention_text(user_id: u64, error_msg: &str) -> (r: String)
    ensures
        r@ == spec_error_mention_text(user_id as nat, error_msg@),
{
    let mut s = String::from_str("Apologies <@");
    let digits = u64_to_decimal(user_id);
    s.append(digits.as_str());
    s.append(">, your request cannot be completed, the error is as follows:\n```");
    s.append(error_msg);
    s.append("```");
    proof {
        reveal_strlit("Apologies <@");
        reveal_strlit("Apologies ");
        reveal_strlit("<@");
        reveal_strlit(">, your request cannot be completed, the error is as follows:\n```");
        reveal_strlit(">");
        reveal_strlit(", your request cannot be completed, the error is as follows:\n```");
        assert(s@ =~= spec_error_mention_text(user_id as nat, error_msg@));
    }
    s
}

/// The file a help request is answered from.
pub open spec fn spec_help_file_name(command: Option<Seq<char>>) -> Seq<char> {
    match command {
        Some(c) => c + ".md"@,
        None => "help"@ + ".md"@,
    }
}

/// Name the help file for a command, defaulting to the general page.
pub fn help_file_name(command: Option<String>) -> (r: String)
    ensures
        r@ == spec_help_file_name(match command {
            Some(c) => Some(c@),
            None => None::<Seq<char>>,
        }),
{
    let mut s = match command {
        Some(c) => c,
        None => String::from_str("help"),
    };
    s.append(".md");
    s
}

/// The reply text around a finished transcription.
pub open spec fn spec_transcription_reply(
    user_id: nat,
    source_url: Seq<char>,
    text: Seq<char>,
) -> Seq<char> {
    spec_mention(user_id) + "\nRequested transcription source: [Here](<"@ + source_url
        + ">)\nTransribed text: "@ + text
}

/// Compose the reply around a finished transcription.
pub fn transcription_reply(user_id: u64, source_url: &str, text: &str) -> (r: String)
    ensures
        r@ == spec_transcription_reply(user_id as nat, source_url@, text@),
{
    let mut s = String::from_str("<@");
    let digits = u64_to_decimal(user_id);
    s.append(digits.as_str());
    s.append(">\nRequested transcription source: [Here](<");
    s.append(source_url);
    s.append(">)\nTransribed text: ");
    s.append(text);
    proof {
        reveal_strlit(">\nRequested transcription source: [Here](<");
        reveal_strlit(">");
        reveal_strlit("\nRequested transcription source: [Here](<");
        assert(s@ =~= spec_transcription_reply(user_id as nat, source_url@, text@));
    }
    s
}

/// The reply text around a finished speech rendering.
pub open spec fn spec_speech_reply(user_id: nat, text: Seq<char>) -> Seq<char> {
    spec_mention(user_id) + "\nRequested text: "@ + text
}

/// Compose the reply around a finished speech rendering.
pub fn speech_reply(user_id: u64, text: &str) -> (r: String)
    ensures
        r@ == spec_speech_reply(user_id as nat, text@),
{
    let mut s = String::from_str("<@");
    let digits = u64_to_decimal(user_id);
    s.append(digits.as_str());
    s.append(">\nRequested text: ");
    s.append(text);
    proof {
        reveal_strlit(">\nRequested text: ");
        reveal_strlit(">");
        reveal_strlit("\nRequested text: ");
        assert(s@ =~= spec_speech_reply(user_id as nat, text@));
    }
    s
}

} // verus!
