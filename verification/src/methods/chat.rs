//! Conversations: the commands over the held connection, and the plain
//! calls about chats and their messages.

use vstd::prelude::*;
use vstd::string::StringExecFns;
use crate::decoder::{decode_all, run, turn_views, StreamError, StreamErrorView};
use crate::frame::{frame_views, CommandEnvelope, InboundFrame, InboundFrameView};
use crate::json::{
    bool_or, get_bool_or, get_text, items_or_none, json_model, json_text, member_or, models,
    object1, text_at, text_value, value_array, value_bool, value_get, value_i64, value_null,
    value_object, value_set, value_u64, JsonModel,
};
use crate::requester::{Body, RequestOptions};
use crate::methods::{listing, succeeded, Call, Listing};
use crate::outside::{fresh_id, percent_encode, percent_encoded};
use crate::protocol::{
    acknowledged, create_chat_view, read_acknowledgement, read_create_chat, run_create_chat,
    settles, ProtocolError, ProtocolErrorView,
};
use crate::requester::{BodyView, Incoming, IncomingView, RequesterError, RequesterErrorView};
use crate::string_map::StringMap;
use crate::text::{decimal, decimal_text, opt_view, same_text};
use crate::types::chat::{Chat, ChatHistory, ChatView, Turn, TurnView};

verus! {

/// The origin tag of the commands of this client.
pub open spec fn origin_tag() -> Seq<char> {
    "web-next"@
}

/// The payload of `create_chat`: the conversation to open, private and one
/// on one, and whether the character should greet. The preferred model is
/// named only where one is given.
pub open spec fn create_chat_payload_model(
    chat_id: Seq<char>,
    creator_id: i64,
    character_id: Seq<char>,
    greeting: bool,
    model_type: Option<Seq<char>>,
) -> JsonModel {
    let chat = Map::<Seq<char>, JsonModel>::empty().insert(
        "chat_id"@,
        JsonModel::Text(chat_id),
    ).insert("creator_id"@, JsonModel::Integer(creator_id as int)).insert(
        "visibility"@,
        JsonModel::Text("VISIBILITY_PRIVATE"@),
    ).insert("character_id"@, JsonModel::Text(character_id)).insert(
        "type"@,
        JsonModel::Text("TYPE_ONE_ON_ONE"@),
    );
    let chat = match model_type {
        Some(m) => chat.insert("preferred_model_type"@, JsonModel::Text(m)),
        None => chat,
    };
    JsonModel::Object(
        Map::empty().insert("chat"@, JsonModel::Object(chat)).insert(
            "with_greeting"@,
            JsonModel::Bool(greeting),
        ),
    )
}

/// The payload of `update_primary_candidate`.
pub open spec fn update_primary_candidate_payload_model(
    chat_id: Seq<char>,
    turn_id: Seq<char>,
    candidate_id: Seq<char>,
) -> JsonModel {
    JsonModel::Object(
        Map::empty().insert("candidate_id"@, JsonModel::Text(candidate_id)).insert(
            "turn_key"@,
            JsonModel::Object(
                Map::empty().insert("chat_id"@, JsonModel::Text(chat_id)).insert(
                    "turn_id"@,
                    JsonModel::Text(turn_id),
                ),
            ),
        ),
    )
}

/// The payload of `create_and_generate_turn`: the caller's message as a
/// turn of a human author with one candidate, which is its primary one, and
/// the wish for one candidate in reply.
pub open spec fn send_message_payload_model(
    character_id: Seq<char>,
    chat_id: Seq<char>,
    text: Seq<char>,
    author_id: i64,
    candidate_id: Seq<char>,
    turn_id: Seq<char>,
) -> JsonModel {
    let author = JsonModel::Object(
        Map::empty().insert("author_id"@, JsonModel::Integer(author_id as int)).insert(
            "is_human"@,
            JsonModel::Bool(true),
        ).insert("name"@, JsonModel::Text(Seq::empty())),
    );
    let candidate = JsonModel::Object(
        Map::empty().insert("candidate_id"@, JsonModel::Text(candidate_id)).insert(
            "raw_content"@,
            JsonModel::Text(text),
        ),
    );
    let key = JsonModel::Object(
        Map::empty().insert("chat_id"@, JsonModel::Text(chat_id)).insert(
            "turn_id"@,
            JsonModel::Text(turn_id),
        ),
    );
    let turn = JsonModel::Object(
        Map::empty().insert("author"@, author).insert(
            "candidates"@,
            JsonModel::Array(seq![candidate]),
        ).insert("primary_candidate_id"@, JsonModel::Text(candidate_id)).insert("turn_key"@, key),
    );
    JsonModel::Object(
        Map::empty().insert("character_id"@, JsonModel::Text(character_id)).insert(
            "num_candidates"@,
            JsonModel::Integer(1),
        ).insert(
            "previous_annotations"@,
            JsonModel::Text("self.default_annotations()"@),
        ).insert("selected_language"@, JsonModel::Text(Seq::empty())).insert(
            "tts_enabled"@,
            JsonModel::Bool(false),
        ).insert("turn"@, turn).insert("user_name"@, JsonModel::Text(Seq::empty())),
    )
}

/// What `send_message` makes of the frames of a generation: the reply that
/// its newest snapshot and its end amount to.
pub open spec fn last_reply(frames: Seq<InboundFrameView>) -> Result<TurnView, StreamErrorView> {
    let end = run(frames);
    reply(
        if end.yielded.len() > 0 {
            Some(end.yielded.last())
        } else {
            None
        },
        end.outcome(),
    )
}

/// The reply that a generation amounts to: the failure where the service
/// refused; else the newest snapshot; and where there is none, the failure
/// that ended the generation, which is `StreamTerminated` if it had no
/// other.
pub open spec fn reply(newest: Option<TurnView>, end: Result<(), StreamErrorView>) -> Result<
    TurnView,
    StreamErrorView,
> {
    match end {
        Err(StreamErrorView::GenerationError(c)) => Err(StreamErrorView::GenerationError(c)),
        _ => match newest {
            Some(t) => Ok(t),
            None => match end {
                Err(e) => Err(e),
                Ok(_) => Err(StreamErrorView::StreamTerminated),
            },
        },
    }
}

/// What a failed `create_chat` is called.
pub open spec fn create_chat_complaint(e: ProtocolErrorView) -> Seq<char> {
    match e {
        ProtocolErrorView::Refused(comment) => "cannot create a new chat: "@ + comment,
        ProtocolErrorView::Incomplete => "Cannot create a new chat."@,
        ProtocolErrorView::Decode(d) => d.message(),
        ProtocolErrorView::Connection(c) => c.message(),
    }
}

/// What a failed generation is called.
pub open spec fn send_message_complaint(e: StreamErrorView) -> Seq<char> {
    match e {
        StreamErrorView::GenerationError(comment) => "cannot send message: "@ + comment,
        StreamErrorView::StreamTerminated => "could not find Turn"@,
        StreamErrorView::Decode(d) => d.message(),
        StreamErrorView::Connection(c) => c.message(),
    }
}

/// What one read of the connection settles of `update_primary_candidate`:
/// a frame as [`settles`] says; a text that cannot be read, a failed read
/// and the end of the stream settle it with `false`; a skipped message
/// settles nothing.
pub open spec fn settled_by(incoming: IncomingView) -> Option<bool> {
    match incoming {
        IncomingView::Frame(InboundFrameView::Acknowledged) => Some(true),
        IncomingView::Frame(InboundFrameView::NeoError { comment }) => Some(false),
        IncomingView::Frame(_) => None,
        IncomingView::Skipped => None,
        _ => Some(false),
    }
}

/// The calls about conversations.
#[derive(Debug, Clone, Copy)]
pub struct ChatMethods {}

impl ChatMethods {
    pub fn new() -> (r: Self) {
        ChatMethods {  }
    }

    /// Builds the payload of `create_chat`.
    pub fn create_chat_payload(
        chat_id: &str,
        creator_id: i64,
        character_id: &str,
        greeting: bool,
        model_type: &Option<String>,
    ) -> (r: serde_json::Value)
        ensures
            json_model(r) == create_chat_payload_model(
                chat_id@,
                creator_id,
                character_id@,
                greeting,
                opt_view(*model_type),
            ),
    {
        let mut chat = value_object();
        value_set(&mut chat, "chat_id", text_value(chat_id));
        value_set(&mut chat, "creator_id", value_i64(creator_id));
        value_set(&mut chat, "visibility", text_value("VISIBILITY_PRIVATE"));
        value_set(&mut chat, "character_id", text_value(character_id));
        value_set(&mut chat, "type", text_value("TYPE_ONE_ON_ONE"));
        match model_type {
            Some(m) => {
                value_set(&mut chat, "preferred_model_type", text_value(m.as_str()));
            },
            None => {},
        }
        let mut payload = value_object();
        value_set(&mut payload, "chat", chat);
        value_set(&mut payload, "with_greeting", value_bool(greeting));
        payload
    }

    /// The command that opens a conversation with a character, under a
    /// fresh request id and for a fresh chat id, which is returned beside
    /// it.
    pub fn create_chat_command(
        creator_id: i64,
        character_id: &str,
        greeting: bool,
        model_type: &Option<String>,
    ) -> (r: (CommandEnvelope, String))
        ensures
            r.0@.command == "create_chat"@,
            r.0@.origin == origin_tag(),
            r.0@.request_id.len() == 36,
            r.1@.len() == 36,
            r.0@.payload == create_chat_payload_model(
                r.1@,
                creator_id,
                character_id@,
                greeting,
                opt_view(*model_type),
            ),
    {
        let request_id = fresh_id();
        let chat_id = fresh_id();
        let payload = Self::create_chat_payload(
            chat_id.as_str(),
            creator_id,
            character_id,
            greeting,
            model_type,
        );
        (CommandEnvelope::new("create_chat", request_id.as_str(), "web-next", payload), chat_id)
    }

    /// Reads the frames that answer `create_chat`: the conversation, and
    /// the greeting if it was asked for.
    pub fn create_chat(frames: &Vec<InboundFrame>, greeting: bool) -> (r: Result<
        (Chat, Option<Turn>),
        ProtocolError,
    >)
        ensures
            create_chat_view(r) == run_create_chat(greeting, frame_views(frames@)).outcome(),
    {
        read_create_chat(greeting, frames)
    }

    /// Builds the payload of `update_primary_candidate`.
    pub fn update_primary_candidate_payload(chat_id: &str, turn_id: &str, candidate_id: &str) -> (r:
        serde_json::Value)
        ensures
            json_model(r) == update_primary_candidate_payload_model(
                chat_id@,
                turn_id@,
                candidate_id@,
            ),
    {
        let mut key = value_object();
        value_set(&mut key, "chat_id", text_value(chat_id));
        value_set(&mut key, "turn_id", text_value(turn_id));
        let mut payload = value_object();
        value_set(&mut payload, "candidate_id", text_value(candidate_id));
        value_set(&mut payload, "turn_key", key);
        payload
    }

    /// The command that makes a candidate the shown one of a turn, under a
    /// fresh request id.
    pub fn update_primary_candidate_command(chat_id: &str, turn_id: &str, candidate_id: &str) -> (r:
        CommandEnvelope)
        ensures
            r@.command == "update_primary_candidate"@,
            r@.origin == origin_tag(),
            r@.request_id.len() == 36,
            r@.payload == update_primary_candidate_payload_model(
                chat_id@,
                turn_id@,
                candidate_id@,
            ),
    {
        let request_id = fresh_id();
        let payload = Self::update_primary_candidate_payload(chat_id, turn_id, candidate_id);
        CommandEnvelope::new(
            "update_primary_candidate",
            request_id.as_str(),
            "web-next",
            payload,
        )
    }

    /// Whether the service acknowledged `update_primary_candidate`. A
    /// command that could not be sent was not acknowledged.
    pub fn update_primary_candidate(outcome: &Result<Vec<InboundFrame>, RequesterError>) -> (r:
        bool)
        ensures
            r == match outcome {
                Ok(frames) => acknowledged(frame_views(frames@)),
                Err(_) => false,
            },
    {
        match outcome {
            Ok(frames) => read_acknowledgement(frames),
            Err(_) => false,
        }
    }

    /// Builds the payload of `create_and_generate_turn`.
    pub fn send_message_payload(
        character_id: &str,
        chat_id: &str,
        text: &str,
        author_id: i64,
        candidate_id: &str,
        turn_id: &str,
    ) -> (r: serde_json::Value)
        ensures
            json_model(r) == send_message_payload_model(
                character_id@,
                chat_id@,
                text@,
                author_id,
                candidate_id@,
                turn_id@,
            ),
    {
        proof {
            reveal_strlit("");
        }
        assert(""@ =~= Seq::<char>::empty());
        let mut author = value_object();
        value_set(&mut author, "author_id", value_i64(author_id));
        value_set(&mut author, "is_human", value_bool(true));
        value_set(&mut author, "name", text_value(""));
        let mut candidate = value_object();
        value_set(&mut candidate, "candidate_id", text_value(candidate_id));
        value_set(&mut candidate, "raw_content", text_value(text));
        let ghost candidate_model = json_model(candidate);
        let mut candidates: Vec<serde_json::Value> = Vec::new();
        candidates.push(candidate);
        assert(models(candidates@) =~= seq![candidate_model]);
        let mut key = value_object();
        value_set(&mut key, "chat_id", text_value(chat_id));
        value_set(&mut key, "turn_id", text_value(turn_id));
        let mut turn = value_object();
        value_set(&mut turn, "author", author);
        value_set(&mut turn, "candidates", value_array(candidates));
        value_set(&mut turn, "primary_candidate_id", text_value(candidate_id));
        value_set(&mut turn, "turn_key", key);
        let mut payload = value_object();
        value_set(&mut payload, "character_id", text_value(character_id));
        value_set(&mut payload, "num_candidates", value_u64(1));
        value_set(&mut payload, "previous_annotations", text_value("self.default_annotations()"));
        value_set(&mut payload, "selected_language", text_value(""));
        value_set(&mut payload, "tts_enabled", value_bool(false));
        value_set(&mut payload, "turn", turn);
        value_set(&mut payload, "user_name", text_value(""));
        payload
    }

    /// The command that sends a message and asks for the reply, under fresh
    /// ids for the request, the turn and its candidate.
    pub fn send_message_command(character_id: &str, chat_id: &str, text: &str, author_id: i64) -> (r:
        CommandEnvelope)
        ensures
            r@.command == "create_and_generate_turn"@,
            r@.origin == origin_tag(),
            r@.request_id.len() == 36,
            exists|candidate_id: Seq<char>, turn_id: Seq<char>|
                candidate_id.len() == 36 && turn_id.len() == 36 && r@.payload
                    == #[trigger] send_message_payload_model(
                    character_id@,
                    chat_id@,
                    text@,
                    author_id,
                    candidate_id,
                    turn_id,
                ),
    {
        let candidate_id = fresh_id();
        let turn_id = fresh_id();
        let request_id = fresh_id();
        let payload = Self::send_message_payload(
            character_id,
            chat_id,
            text,
            author_id,
            candidate_id.as_str(),
            turn_id.as_str(),
        );
        CommandEnvelope::new(
            "create_and_generate_turn",
            request_id.as_str(),
            "web-next",
            payload,
        )
    }

    /// Decodes the frames that answer `create_and_generate_turn`: the
    /// growing snapshots of the reply, and how the generation ended.
    pub fn send_message_stream(frames: &Vec<InboundFrame>) -> (r: (
        Vec<Turn>,
        Result<(), StreamError>,
    ))
        ensures
            turn_views(r.0@) == run(frame_views(frames@)).yielded,
            match r.1 {
                Ok(_) => run(frame_views(frames@)).outcome() is Ok,
                Err(e) => run(frame_views(frames@)).outcome() == Err::<(), StreamErrorView>(e@),
            },
    {
        decode_all(frames)
    }

    /// What one read of the connection settles of
    /// `update_primary_candidate`: see [`settled_by`].
    pub fn update_primary_candidate_step(incoming: &Incoming) -> (r: Option<bool>)
        ensures
            r == settled_by(incoming@),
    {
        match incoming {
            Incoming::Frame(frame) => settles(frame),
            Incoming::Skipped => None,
            _ => Some(false),
        }
    }

    /// The failure of a call that a failed `create_chat` amounts to.
    pub fn create_chat_failure(e: ProtocolError) -> (r: RequesterError)
        ensures
            r@ == RequesterErrorView::WsError(create_chat_complaint(e@)),
    {
        match e {
            ProtocolError::Refused(comment) => RequesterError::WsError(
                "cannot create a new chat: ".to_owned().concat(comment.as_str()),
            ),
            ProtocolError::Incomplete => RequesterError::WsError(
                "Cannot create a new chat.".to_owned(),
            ),
            ProtocolError::Decode(d) => RequesterError::WsError(d.describe()),
            ProtocolError::Connection(c) => RequesterError::from_connection(c),
        }
    }

    /// The failure of a call that a failed generation amounts to.
    pub fn send_message_failure(e: StreamError) -> (r: RequesterError)
        ensures
            r@ == (match e@ {
                StreamErrorView::StreamTerminated => RequesterErrorView::RequestFailed(
                    send_message_complaint(e@),
                ),
                _ => RequesterErrorView::WsError(send_message_complaint(e@)),
            }),
    {
        match e {
            StreamError::GenerationError(comment) => RequesterError::WsError(
                "cannot send message: ".to_owned().concat(comment.as_str()),
            ),
            StreamError::StreamTerminated => RequesterError::RequestFailed(
                "could not find Turn".to_owned(),
            ),
            StreamError::Decode(d) => RequesterError::WsError(d.describe()),
            StreamError::Connection(c) => RequesterError::from_connection(c),
        }
    }

    /// The reply that a generation amounts to, by its newest snapshot and
    /// the way it ended: see [`reply`].
    pub fn reply_of(newest: Option<Turn>, end: Result<(), StreamError>) -> (r: Result<
        Turn,
        StreamError,
    >)
        ensures
            match r {
                Ok(t) => reply(
                    match newest {
                        Some(n) => Some(n@),
                        None => None,
                    },
                    match end {
                        Ok(_) => Ok(()),
                        Err(e) => Err(e@),
                    },
                ) == Ok::<TurnView, StreamErrorView>(t@),
                Err(e) => reply(
                    match newest {
                        Some(n) => Some(n@),
                        None => None,
                    },
                    match end {
                        Ok(_) => Ok(()),
                        Err(e) => Err(e@),
                    },
                ) == Err::<TurnView, StreamErrorView>(e@),
            },
    {
        match end {
            Err(StreamError::GenerationError(c)) => Err(StreamError::GenerationError(c)),
            Err(e) => match newest {
                Some(t) => Ok(t),
                None => Err(e),
            },
            Ok(_) => match newest {
                Some(t) => Ok(t),
                None => Err(StreamError::StreamTerminated),
            },
        }
    }

    /// The reply to a message: the newest snapshot of the generation.
    pub fn send_message(frames: &Vec<InboundFrame>) -> (r: Result<Turn, StreamError>)
        ensures
            match r {
                Ok(t) => last_reply(frame_views(frames@)) == Ok::<TurnView, StreamErrorView>(t@),
                Err(e) => last_reply(frame_views(frames@)) == Err::<TurnView, StreamErrorView>(
                    e@,
                ),
            },
    {
        let (mut turns, end) = decode_all(frames);
        let ghost before = turns@;
        let newest = turns.pop();
        proof {
            if before.len() > 0 {
                assert(turn_views(before).last() == before.last()@);
            }
        }
        Self::reply_of(newest, end)
    }
}

/// The contents of a list of chats.
pub open spec fn chat_views(items: Seq<Chat>) -> Seq<ChatView> {
    items.map_values(|c: Chat| c@)
}

/// The chats that a list of documents describes.
pub open spec fn decode_chats(items: Seq<JsonModel>) -> Seq<ChatView> {
    items.map_values(|m: JsonModel| Chat::decode(m))
}

/// Whether a message is kept: every one is, unless only pinned ones are
/// asked for and the message is not marked `is_pinned`.
pub open spec fn keeps(m: JsonModel, pinned_only: bool) -> bool {
    !pinned_only || bool_or(m, "is_pinned"@, false)
}

/// The turns that the kept documents of a list describe, or nothing where
/// one of the kept documents describes no turn.
pub open spec fn decode_turns(items: Seq<JsonModel>, pinned_only: bool) -> Option<Seq<TurnView>>
    decreases items.len(),
{
    if items.len() == 0 {
        Some(Seq::empty())
    } else if !keeps(items.last(), pinned_only) {
        decode_turns(items.drop_last(), pinned_only)
    } else {
        match (decode_turns(items.drop_last(), pinned_only), Turn::decode(items.last())) {
            (Some(earlier), Some(t)) => Some(earlier.push(t)),
            _ => None,
        }
    }
}

/// Where the kept documents of a list describe turns, so do those of each
/// of its beginnings.
pub proof fn lemma_decode_turns_prefix(items: Seq<JsonModel>, pinned_only: bool, n: int)
    requires
        0 <= n <= items.len(),
        decode_turns(items, pinned_only) is Some,
    ensures
        decode_turns(items.take(n), pinned_only) is Some,
    decreases items.len(),
{
    if n < items.len() {
        lemma_decode_turns_prefix(items.drop_last(), pinned_only, n);
        assert(items.drop_last().take(n) =~= items.take(n));
    } else {
        assert(items.take(n) =~= items);
    }
}

/// One page of messages: the turns, and the token of the next page if
/// there is one.
pub open spec fn decode_page(m: JsonModel, pinned_only: bool) -> Option<
    (Seq<TurnView>, Option<Seq<char>>),
> {
    match decode_turns(items_or_none(m, "turns"@), pinned_only) {
        Some(turns) => Some((turns, text_at(member_or(m, "meta"@, JsonModel::Null), "next_token"@))),
        None => None,
    }
}

/// The address of a page of messages.
pub open spec fn messages_url(chat_id: Seq<char>, next_token: Option<Seq<char>>) -> Seq<char> {
    let base = "https://neo.character.ai/turns/"@ + chat_id + "/"@;
    match next_token {
        Some(t) => base + "?next_token="@ + percent_encoded(vstd::utf8::encode_utf8(t)),
        None => base,
    }
}

/// The place of the first turn with the given id, or the length of the
/// list where there is none.
pub open spec fn first_with_id(turns: Seq<TurnView>, id: Seq<char>) -> int
    decreases turns.len(),
{
    if turns.len() == 0 {
        0
    } else if turns[0].id == id {
        0
    } else {
        1 + first_with_id(turns.drop_first(), id)
    }
}

/// What to do after a page of messages.
#[derive(Debug, Clone)]
pub enum PageStep {
    /// Fetch the page under this token.
    Next(String),
    /// The listing is complete.
    Done,
    /// The listing cannot go on; the text says why.
    Fail(String),
}

/// The content of a [`PageStep`].
pub enum PageStepView {
    Next(Seq<char>),
    Done,
    Fail(Seq<char>),
}

impl View for PageStep {
    type V = PageStepView;

    open spec fn view(&self) -> PageStepView {
        match self {
            PageStep::Next(t) => PageStepView::Next(t@),
            PageStep::Done => PageStepView::Done,
            PageStep::Fail(m) => PageStepView::Fail(m@),
        }
    }
}

impl ChatMethods {
    /// The request for the earlier conversations with a character.
    pub fn fetch_histories_request(
        character_id: &str,
        amount: usize,
        headers: StringMap<String>,
    ) -> (r: Call)
        ensures
            r.is(
                "POST"@,
                "https://plus.character.ai/chat/character/histories/"@,
                headers,
                Some(
                    BodyView::Text(
                        json_text(
                            JsonModel::Object(
                                Map::empty().insert(
                                    "external_id"@,
                                    JsonModel::Text(character_id@),
                                ).insert("number"@, JsonModel::Integer(amount as int)),
                            ),
                        ),
                    ),
                ),
            ),
    {
        let mut body = value_object();
        value_set(&mut body, "external_id", text_value(character_id));
        value_set(&mut body, "number", value_u64(amount as u64));
        Call::with_json(
            "POST",
            "https://plus.character.ai/chat/character/histories/".to_owned(),
            headers,
            &body,
        )
    }

    /// The earlier conversations: one entry for each element of the list
    /// under `histories`.
    pub fn fetch_histories(response: &serde_json::Value) -> (r: Vec<ChatHistory>)
        ensures
            r@.len() == items_or_none(json_model(*response), "histories"@).len(),
    {
        let mut out: Vec<ChatHistory> = Vec::new();
        match listing(response, "histories") {
            Listing::Items(items) => {
                let mut i: usize = 0;
                while i < items.len()
                    invariant
                        i <= items.len(),
                        out@.len() == i,
                    decreases items.len() - i,
                {
                    out.push(ChatHistory::from_json(&items[i]));
                    i += 1;
                }
            },
            _ => {},
        }
        out
    }

    /// The request for the conversations with a character.
    pub fn fetch_chats_request(
        character_id: &str,
        num_preview_turns: usize,
        headers: StringMap<String>,
    ) -> (r: Call)
        ensures
            r.is(
                "GET"@,
                "https://neo.character.ai/chats/?character_ids="@ + character_id@
                    + "&num_preview_turns="@ + decimal(num_preview_turns as nat),
                headers,
                None,
            ),
    {
        let url = "https://neo.character.ai/chats/?character_ids=".to_owned().concat(
            character_id,
        ).concat("&num_preview_turns=").concat(
            decimal_text(num_preview_turns as u128).as_str(),
        );
        Call::plain("GET", url, headers)
    }

    fn chats_under(response: &serde_json::Value, key: &str) -> (r: Vec<Chat>)
        ensures
            chat_views(r@) == decode_chats(items_or_none(json_model(*response), key@)),
    {
        let mut out: Vec<Chat> = Vec::new();
        match listing(response, key) {
            Listing::Items(items) => {
                let mut i: usize = 0;
                while i < items.len()
                    invariant
                        i <= items.len(),
                        out@.len() == i,
                        forall|j: int|
                            0 <= j < i ==> (#[trigger] out@[j])@ == Chat::decode(
                                json_model(items@[j]),
                            ),
                    decreases items.len() - i,
                {
                    out.push(Chat::from_json(&items[i]));
                    i += 1;
                }
                assert(chat_views(out@) =~= decode_chats(models(items@)));
            },
            _ => {
                assert(chat_views(out@) =~= decode_chats(Seq::<JsonModel>::empty()));
            },
        }
        out
    }

    /// The conversations with a character: the list under `chats`.
    pub fn fetch_chats(response: &serde_json::Value) -> (r: Vec<Chat>)
        ensures
            chat_views(r@) == decode_chats(items_or_none(json_model(*response), "chats"@)),
    {
        Self::chats_under(response, "chats")
    }

    /// The request for one conversation.
    pub fn fetch_chat_request(chat_id: &str, headers: StringMap<String>) -> (r: Call)
        ensures
            r.is("GET"@, "https://neo.character.ai/chat/"@ + chat_id@ + "/"@, headers, None),
    {
        let url = "https://neo.character.ai/chat/".to_owned().concat(chat_id).concat("/");
        Call::plain("GET", url, headers)
    }

    /// One conversation: the one under `chat`.
    pub fn fetch_chat(response: &serde_json::Value) -> (r: Chat)
        ensures
            r@ == Chat::decode(
                member_or(json_model(*response), "chat"@, JsonModel::Object(Map::empty())),
            ),
    {
        let blank = value_object();
        match value_get(response, "chat") {
            Some(c) => Chat::from_json(c),
            None => Chat::from_json(&blank),
        }
    }

    /// The request for the latest conversations.
    pub fn fetch_recent_chats_request(headers: StringMap<String>) -> (r: Call)
        ensures
            r.is("GET"@, "https://neo.character.ai/chats/recent/"@, headers, None),
    {
        Call::plain("GET", "https://neo.character.ai/chats/recent/".to_owned(), headers)
    }

    /// The latest conversations: the list under `chats`.
    pub fn fetch_recent_chats(response: &serde_json::Value) -> (r: Vec<Chat>)
        ensures
            chat_views(r@) == decode_chats(items_or_none(json_model(*response), "chats"@)),
    {
        Self::chats_under(response, "chats")
    }

    /// The request for a page of the messages of a conversation: the first
    /// page, or the one under a token.
    pub fn fetch_messages_request(
        chat_id: &str,
        next_token: &Option<String>,
        headers: StringMap<String>,
    ) -> (r: Call)
        ensures
            r.is("GET"@, messages_url(chat_id@, opt_view(*next_token)), headers, None),
    {
        let base = "https://neo.character.ai/turns/".to_owned().concat(chat_id).concat("/");
        let url = match next_token {
            Some(t) => base.concat("?next_token=").concat(percent_encode(t.as_str()).as_str()),
            None => base,
        };
        Call::plain("GET", url, headers)
    }

    /// A page of messages: the kept turns of the list under `turns`, and
    /// the token of the next page. `None` where a kept message cannot be
    /// read.
    pub fn fetch_messages(response: &serde_json::Value, pinned_only: bool) -> (r: Option<
        (Vec<Turn>, Option<String>),
    >)
        ensures
            match r {
                Some(page) => decode_page(json_model(*response), pinned_only) == Some(
                    (turn_views(page.0@), opt_view(page.1)),
                ),
                None => decode_page(json_model(*response), pinned_only) is None,
            },
    {
        let null = value_null();
        let meta = match value_get(response, "meta") {
            Some(m) => m,
            None => &null,
        };
        let next_token = get_text(meta, "next_token");
        let mut out: Vec<Turn> = Vec::new();
        assert(turn_views(out@) =~= Seq::<TurnView>::empty());
        match listing(response, "turns") {
            Listing::Items(items) => {
                let ghost all = models(items@);
                let mut i: usize = 0;
                assert(all.take(0) =~= Seq::<JsonModel>::empty());
                while i < items.len()
                    invariant
                        i <= items.len(),
                        all == models(items@),
                        items_or_none(json_model(*response), "turns"@) == all,
                        decode_turns(all.take(i as int), pinned_only) == Some(turn_views(out@)),
                    decreases items.len() - i,
                {
                    assert(all.take(i + 1).drop_last() =~= all.take(i as int));
                    assert(all.take(i + 1).last() == json_model(items@[i as int]));
                    let ghost before = out@;
                    if !pinned_only || get_bool_or(&items[i], "is_pinned", false) {
                        match Turn::try_from_json(&items[i]) {
                            Some(t) => {
                                out.push(t);
                                assert(turn_views(out@) =~= turn_views(before).push(t@));
                            },
                            None => {
                                proof {
                                    assert(keeps(all.take(i + 1).last(), pinned_only));
                                    assert(decode_turns(all.take(i + 1), pinned_only) is None);
                                    if decode_turns(all, pinned_only) is Some {
                                        lemma_decode_turns_prefix(all, pinned_only, i + 1);
                                    }
                                }
                                return None;
                            },
                        }
                    }
                    i += 1;
                }
                assert(all.take(i as int) =~= all);
            },
            _ => {},
        }
        Some((out, next_token))
    }

    /// Takes a page while all messages of a conversation are gathered. An
    /// empty page ends the listing and adds nothing; any other page is
    /// added, and the listing goes on under its token, or ends where it has
    /// none.
    pub fn fetch_all_messages(all: &mut Vec<Turn>, page: &Vec<Turn>, token: Option<String>) -> (r:
        PageStep)
        ensures
            turn_views(final(all)@) == turn_views(old(all)@) + turn_views(page@),
            r@ == (if page@.len() == 0 {
                PageStepView::Done
            } else {
                match token {
                    Some(t) => PageStepView::Next(t@),
                    None => PageStepView::Done,
                }
            }),
    {
        if page.len() == 0 {
            assert(turn_views(all@) + turn_views(page@) =~= turn_views(all@));
            return PageStep::Done;
        }
        let ghost start = turn_views(all@);
        let mut i: usize = 0;
        assert(start + turn_views(page@).take(0) =~= start);
        while i < page.len()
            invariant
                i <= page.len(),
                turn_views(all@) == start + turn_views(page@).take(i as int),
            decreases page.len() - i,
        {
            let ghost before = all@;
            all.push(page[i].snapshot());
            assert(turn_views(all@) =~= turn_views(before).push(page@[i as int]@));
            assert(start + turn_views(page@).take(i + 1) =~= (start + turn_views(page@).take(
                i as int,
            )).push(page@[i as int]@));
            i += 1;
        }
        assert(turn_views(page@).take(i as int) =~= turn_views(page@));
        match token {
            Some(t) => PageStep::Next(t),
            None => PageStep::Done,
        }
    }

    /// Takes a page while the messages that come before a given turn are
    /// gathered. The turns of the page up to the first with the given id
    /// are added. Where the page holds that turn the listing is complete;
    /// where it does not, the listing goes on under the token of the page.
    /// An empty page, or a page without that turn and without a token,
    /// fails the listing.
    pub fn fetch_following_messages(
        following: &mut Vec<Turn>,
        page: &Vec<Turn>,
        token: Option<String>,
        turn_id: &str,
    ) -> (r: PageStep)
        ensures
            turn_views(final(following)@) == turn_views(old(following)@) + turn_views(page@).take(
                first_with_id(turn_views(page@), turn_id@),
            ),
            r@ == (if page@.len() == 0 {
                PageStepView::Fail("cannot fetch following messages"@)
            } else if first_with_id(turn_views(page@), turn_id@) < page@.len() {
                PageStepView::Done
            } else {
                match token {
                    Some(t) => PageStepView::Next(t@),
                    None => PageStepView::Fail(
                        "Cannot fetch following messages. May be turn_id is invalid?"@,
                    ),
                }
            }),
    {
        let ghost start = turn_views(following@);
        let ghost views = turn_views(page@);
        if page.len() == 0 {
            assert(start + views.take(first_with_id(views, turn_id@)) =~= start);
            return PageStep::Fail("cannot fetch following messages".to_owned());
        }
        let mut i: usize = 0;
        assert(start + views.take(0) =~= start);
        assert(views.skip(0) =~= views);
        while i < page.len()
            invariant
                i <= page.len(),
                views == turn_views(page@),
                start == turn_views(old(following)@),
                turn_views(following@) == start + views.take(i as int),
                first_with_id(views, turn_id@) == i + first_with_id(views.skip(i as int), turn_id@),
            decreases page.len() - i,
        {
            assert(views.skip(i as int)[0] == page@[i as int]@);
            assert(views.skip(i as int).drop_first() =~= views.skip(i + 1));
            if same_text(page[i].id.as_str(), turn_id) {
                assert(first_with_id(views.skip(i as int), turn_id@) == 0);
                return PageStep::Done;
            }
            let ghost before = following@;
            following.push(page[i].snapshot());
            assert(turn_views(following@) =~= turn_views(before).push(page@[i as int]@));
            assert(start + views.take(i + 1) =~= (start + views.take(i as int)).push(
                page@[i as int]@,
            ));
            i += 1;
        }
        assert(views.skip(i as int) =~= Seq::<TurnView>::empty());
        match token {
            Some(t) => PageStep::Next(t),
            None => PageStep::Fail(
                "Cannot fetch following messages. May be turn_id is invalid?".to_owned(),
            ),
        }
    }

    /// The request that names a conversation.
    pub fn update_chat_name_request(chat_id: &str, name: &str, headers: StringMap<String>) -> (r:
        Call)
        ensures
            r.is(
                "PATCH"@,
                "https://neo.character.ai/chat/"@ + chat_id@ + "/update_name"@,
                headers,
                Some(BodyView::Text(json_text(object1("name"@, JsonModel::Text(name@))))),
            ),
    {
        let mut body = value_object();
        value_set(&mut body, "name", text_value(name));
        let url = "https://neo.character.ai/chat/".to_owned().concat(chat_id).concat(
            "/update_name",
        );
        Call::with_json("PATCH", url, headers, &body)
    }

    /// Whether the conversation was named: the call went through.
    pub fn update_chat_name<T>(outcome: &Result<T, RequesterError>) -> (r: bool)
        ensures
            r == outcome is Ok,
    {
        succeeded(outcome)
    }

    /// The request that archives a conversation.
    pub fn archive_chat_request(chat_id: &str, headers: StringMap<String>) -> (r: Call)
        ensures
            r.is(
                "PATCH"@,
                "https://neo.character.ai/chat/"@ + chat_id@ + "/archive"@,
                headers,
                Some(BodyView::Text("{}"@)),
            ),
    {
        let url = "https://neo.character.ai/chat/".to_owned().concat(chat_id).concat("/archive");
        Call {
            url,
            options: RequestOptions::new("PATCH", headers, Some(Body::Text("{}".to_owned()))),
        }
    }

    /// Whether the conversation was archived: the call went through.
    pub fn archive_chat<T>(outcome: &Result<T, RequesterError>) -> (r: bool)
        ensures
            r == outcome is Ok,
    {
        succeeded(outcome)
    }

    /// The request that takes a conversation out of the archive.
    pub fn unarchive_chat_request(chat_id: &str, headers: StringMap<String>) -> (r: Call)
        ensures
            r.is(
                "PATCH"@,
                "https://neo.character.ai/chat/"@ + chat_id@ + "/unarchive"@,
                headers,
                Some(BodyView::Text("{}"@)),
            ),
    {
        let url = "https://neo.character.ai/chat/".to_owned().concat(chat_id).concat(
            "/unarchive",
        );
        Call {
            url,
            options: RequestOptions::new("PATCH", headers, Some(Body::Text("{}".to_owned()))),
        }
    }

    /// Whether the conversation left the archive: the call went through.
    pub fn unarchive_chat<T>(outcome: &Result<T, RequesterError>) -> (r: bool)
        ensures
            r == outcome is Ok,
    {
        succeeded(outcome)
    }

    /// The request that copies a conversation up to a turn.
    pub fn copy_chat_request(chat_id: &str, end_turn_id: &str, headers: StringMap<String>) -> (r:
        Call)
        ensures
            r.is(
                "POST"@,
                "https://neo.character.ai/chat/"@ + chat_id@ + "/copy"@,
                headers,
                Some(
                    BodyView::Text(json_text(object1("end_turn_id"@, JsonModel::Text(end_turn_id@)))),
                ),
            ),
    {
        let mut body = value_object();
        value_set(&mut body, "end_turn_id", text_value(end_turn_id));
        let url = "https://neo.character.ai/chat/".to_owned().concat(chat_id).concat("/copy");
        Call::with_json("POST", url, headers, &body)
    }

    /// The id of the copy: the text under `new_chat_id`, if there is one.
    pub fn copy_chat(response: &serde_json::Value) -> (r: Option<String>)
        ensures
            opt_view(r) == text_at(json_model(*response), "new_chat_id"@),
    {
        get_text(response, "new_chat_id")
    }
}

} // verus!
