//! The context walker: from the message that triggered the bot, follow
//! the replied-to links backward until a message with no parent, emitting
//! one raw turn per message, newest first. A parent that cannot be found
//! aborts the whole walk.
use vstd::prelude::*;

use crate::errors::PipelineError;

verus! {

/// Who speaks in one turn of the rebuilt conversation.
#[derive(Clone, Copy, Debug, PartialEq, Eq, Structural)]
pub enum Role {
    /// The operator-supplied instruction turn.
    System,
    /// Any account other than the bot's own.
    User,
    /// The bot's own account.
    Assistant,
}

/// One platform message, as the collaborator message source hands it over.
pub struct MessageRecord {
    /// The message's own identity.
    pub id: u64,
    /// The identity of the account that wrote it.
    pub author_id: u64,
    /// That account's display name.
    pub author_name: String,
    /// The raw message text.
    pub text: String,
    /// The URLs of its attachments, in platform order.
    pub attachment_urls: Vec<String>,
    /// The message this one replies to, if any.
    pub parent_id: Option<u64>,
}

/// The mathematical value of a `MessageRecord`.
pub ghost struct MessageView {
    pub id: u64,
    pub author_id: u64,
    pub author_name: Seq<char>,
    pub text: Seq<char>,
    pub attachment_urls: Seq<Seq<char>>,
    pub parent_id: Option<u64>,
}

impl View for MessageRecord {
    type V = MessageView;

    open spec fn view(&self) -> MessageView {
        MessageView {
            id: self.id,
            author_id: self.author_id,
            author_name: self.author_name@,
            text: self.text@,
            attachment_urls: self.attachment_urls@.map_values(|u: String| u@),
            parent_id: self.parent_id,
        }
    }
}

/// One walked turn: what the assembler needs of one message, plus the
/// role its author identity earns it.
pub struct RawTurn {
    /// The identity of the account that wrote the message.
    pub author_id: u64,
    /// That account's display name.
    pub author_name: String,
    /// The raw message text.
    pub text: String,
    /// The URLs of the message's attachments, in platform order.
    pub attachment_urls: Vec<String>,
    /// `Assistant` for the bot's own messages, `User` for all others.
    pub role: Role,
}

/// The mathematical value of a `RawTurn`.
pub ghost struct RawTurnView {
    pub author_id: u64,
    pub author_name: Seq<char>,
    pub text: Seq<char>,
    pub attachment_urls: Seq<Seq<char>>,
    pub role: Role,
}

impl View for RawTurn {
    type V = RawTurnView;

    open spec fn view(&self) -> RawTurnView {
        RawTurnView {
            author_id: self.author_id,
            author_name: self.author_name@,
            text: self.text@,
            attachment_urls: self.attachment_urls@.map_values(|u: String| u@),
            role: self.role,
        }
    }
}

/// The turn one message contributes: the bot's own messages speak as the
/// assistant, every other message as a user. The triggering message is
/// judged the same way as any other.
pub open spec fn spec_turn_of(m: MessageView, self_id: u64) -> RawTurnView {
    RawTurnView {
        author_id: m.author_id,
        author_name: m.author_name,
        text: m.text,
        attachment_urls: m.attachment_urls,
        role: if m.author_id == self_id {
            Role::Assistant
        } else {
            Role::User
        },
    }
}

/// The first message in `store` with the given identity.
pub open spec fn lookup(store: Seq<MessageView>, id: u64) -> Option<MessageView>
    decreases store.len(),
{
    if store.len() == 0 {
        None
    } else if store[0].id == id {
        Some(store[0])
    } else {
        lookup(store.drop_first(), id)
    }
}

/// The walk from `m` backward through its parents, newest first: `None`
/// when a parent is missing from the store or the chain does not end
/// within `fuel` backward steps (as with a reply cycle).
pub open spec fn spec_walk(
    store: Seq<MessageView>,
    m: MessageView,
    self_id: u64,
    fuel: nat,
) -> Option<Seq<RawTurnView>>
    decreases fuel,
{
    match m.parent_id {
        None => Some(seq![spec_turn_of(m, self_id)]),
        Some(pid) => {
            if fuel == 0 {
                None
            } else {
                match lookup(store, pid) {
                    None => None,
                    Some(parent) => match spec_walk(store, parent, self_id, (fuel - 1) as nat) {
                        None => None,
                        Some(rest) => Some(seq![spec_turn_of(m, self_id)] + rest),
                    },
                }
            }
        },
    }
}

fn clone_string_vec(v: &Vec<String>) -> (r: Vec<String>)
    ensures
        r@.map_values(|u: String| u@) == v@.map_values(|u: String| u@),
{
    let mut r: Vec<String> = Vec::new();
    let mut i: usize = 0;
    while i < v.len()
        invariant
            i <= v.len(),
            r@.map_values(|u: String| u@) == v@.map_values(|u: String| u@).take(i as int),
        decreases v.len() - i,
    {
        let ghost prev = r@.map_values(|u: String| u@);
        r.push(v[i].clone());
        proof {
            assert(r@.map_values(|u: String| u@) =~= prev.push(v@[i as int]@));
            assert(r@.map_values(|u: String| u@) =~= v@.map_values(|u: String| u@).take(i + 1));
        }
        i = i + 1;
    }
    proof {
        assert(v@.map_values(|u: String| u@).take(v@.len() as int) =~= v@.map_values(
            |u: String| u@,
        ));
    }
    r
}

/// The turn one message contributes to the walk.
pub fn raw_turn_of(m: &MessageRecord, self_id: u64) -> (r: RawTurn)
    ensures
        r@ == spec_turn_of(m@, self_id),
{
    RawTurn {
        author_id: m.author_id,
        author_name: m.author_name.clone(),
        text: m.text.clone(),
        attachment_urls: clone_string_vec(&m.attachment_urls),
        role: if m.author_id == self_id {
            Role::Assistant
        } else {
            Role::User
        },
    }
}

/// The index of the first message in `store` with the given identity.
fn find_message(store: &Vec<MessageRecord>, id: u64) -> (r: Option<usize>)
    ensures
        match r {
            Some(i) => i < store@.len() && lookup(store@.map_values(|m: MessageRecord| m@), id)
                == Some(store@[i as int]@),
            None => lookup(store@.map_values(|m: MessageRecord| m@), id) is None,
        },
{
    let ghost sv = store@.map_values(|m: MessageRecord| m@);
    let mut i: usize = 0;
    proof {
        assert(sv.skip(0) =~= sv);
    }
    while i < store.len()
        invariant
            i <= store@.len(),
            sv == store@.map_values(|m: MessageRecord| m@),
            lookup(sv, id) == lookup(sv.skip(i as int), id),
        decreases store@.len() - i,
    {
        proof {
            assert(sv.skip(i as int)[0] == sv[i as int]);
            assert(sv.skip(i as int).drop_first() =~= sv.skip(i + 1));
        }
        if store[i].id == id {
            return Some(i);
        }
        i = i + 1;
    }
    proof {
        assert(sv.skip(sv.len() as int) =~= Seq::<MessageView>::empty());
    }
    None
}

/// Walk the reply chain from `leaf` backward, emitting turns newest
/// first. The walk fails with a history-resolution error when a parent
/// reference cannot be found in `store`, and when the chain does not end
/// within one backward step per stored message (a reply cycle).
pub fn walk_chain(store: &Vec<MessageRecord>, leaf: &MessageRecord, self_id: u64) -> (r: Result<
    Vec<RawTurn>,
    PipelineError,
>)
    ensures
        match r {
            Ok(turns) => spec_walk(
                store@.map_values(|m: MessageRecord| m@),
                leaf@,
                self_id,
                store@.len(),
            ) == Some(turns@.map_values(|t: RawTurn| t@)),
            Err(e) => e == PipelineError::HistoryResolutionError && spec_walk(
                store@.map_values(|m: MessageRecord| m@),
                leaf@,
                self_id,
                store@.len(),
            ) is None,
        },
{
    let ghost sv = store@.map_values(|m: MessageRecord| m@);
    let ghost goal = spec_walk(sv, leaf@, self_id, store@.len());
    let mut turns: Vec<RawTurn> = Vec::new();
    let mut cur: &MessageRecord = leaf;
    let mut fuel: usize = store.len();
    proof {
        assert(turns@.map_values(|t: RawTurn| t@) =~= Seq::<RawTurnView>::empty());
    }
    loop
        invariant
            sv == store@.map_values(|m: MessageRecord| m@),
            goal == spec_walk(sv, leaf@, self_id, store@.len()),
            fuel <= store@.len(),
            match spec_walk(sv, cur@, self_id, fuel as nat) {
                None => goal is None,
                Some(rest) => goal == Some(turns@.map_values(|t: RawTurn| t@) + rest),
            },
        decreases fuel,
    {
        let turn = raw_turn_of(cur, self_id);
        let ghost prev = turns@.map_values(|t: RawTurn| t@);
        turns.push(turn);
        proof {
            assert(turns@.map_values(|t: RawTurn| t@) =~= prev.push(spec_turn_of(cur@, self_id)));
        }
        match cur.parent_id {
            None => {
                proof {
                    assert(spec_walk(sv, cur@, self_id, fuel as nat) == Some(
                        seq![spec_turn_of(cur@, self_id)],
                    ));
                    assert(prev + seq![spec_turn_of(cur@, self_id)] =~= turns@.map_values(
                        |t: RawTurn| t@,
                    ));
                }
                return Ok(turns);
            },
            Some(pid) => {
                if fuel == 0 {
                    return Err(PipelineError::HistoryResolutionError);
                }
                match find_message(store, pid) {
                    None => {
                        return Err(PipelineError::HistoryResolutionError);
                    },
                    Some(i) => {
                        proof {
                            assert(sv[i as int] == store@[i as int]@);
                            if spec_walk(sv, store@[i as int]@, self_id, (fuel - 1) as nat)
                                is Some {
                                let rest = spec_walk(
                                    sv,
                                    store@[i as int]@,
                                    self_id,
                                    (fuel - 1) as nat,
                                )->Some_0;
                                assert(spec_walk(sv, cur@, self_id, fuel as nat) == Some(
                                    seq![spec_turn_of(cur@, self_id)] + rest,
                                ));
                                assert(prev + (seq![spec_turn_of(cur@, self_id)] + rest)
                                    =~= turns@.map_values(|t: RawTurn| t@) + rest);
                            }
                        }
                        cur = &store[i];
                        fuel = fuel - 1;
                    },
                }
            },
        }
    }
}

} // verus!
