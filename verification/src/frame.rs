//! The frame codec: command envelopes going out, tagged frames coming in.

use vstd::prelude::*;
use crate::json::{
    bool_or, get_bool_or, get_text, get_text_or, json_model, json_parse, json_text, member_or,
    parse, text_at, text_or, text_value, value_get, value_null, value_object, value_set,
    value_text, JsonModel,
};
use crate::text::same_text;
use crate::types::chat::{Chat, ChatView, Turn, TurnView};

verus! {

/// A command on its way to the service. Built once, then only read.
#[derive(Debug, Clone)]
pub struct CommandEnvelope {
    pub command: String,
    pub request_id: String,
    pub origin: String,
    pub payload: serde_json::Value,
}

/// The content of a [`CommandEnvelope`].
pub struct CommandEnvelopeView {
    pub command: Seq<char>,
    pub request_id: Seq<char>,
    pub origin: Seq<char>,
    pub payload: JsonModel,
}

impl View for CommandEnvelope {
    type V = CommandEnvelopeView;

    open spec fn view(&self) -> CommandEnvelopeView {
        CommandEnvelopeView {
            command: self.command@,
            request_id: self.request_id@,
            origin: self.origin@,
            payload: json_model(self.payload),
        }
    }
}

impl CommandEnvelopeView {
    /// The document that goes on the wire: an object with the command, the
    /// origin tag, the payload and the request id.
    pub open spec fn document(self) -> JsonModel {
        JsonModel::Object(
            Map::empty().insert("command"@, JsonModel::Text(self.command)).insert(
                "origin_id"@,
                JsonModel::Text(self.origin),
            ).insert("payload"@, self.payload).insert(
                "request_id"@,
                JsonModel::Text(self.request_id),
            ),
        )
    }
}

impl CommandEnvelope {
    pub fn new(command: &str, request_id: &str, origin: &str, payload: serde_json::Value) -> (r:
        Self)
        ensures
            r@ == (CommandEnvelopeView {
                command: command@,
                request_id: request_id@,
                origin: origin@,
                payload: json_model(payload),
            }),
    {
        Self {
            command: command.to_owned(),
            request_id: request_id.to_owned(),
            origin: origin.to_owned(),
            payload,
        }
    }

    /// The envelope as a document.
    pub fn to_json(&self) -> (r: serde_json::Value)
        ensures
            json_model(r) == self@.document(),
    {
        let mut doc = value_object();
        value_set(&mut doc, "command", text_value(self.command.as_str()));
        value_set(&mut doc, "origin_id", text_value(self.origin.as_str()));
        value_set(&mut doc, "payload", self.payload.clone());
        value_set(&mut doc, "request_id", text_value(self.request_id.as_str()));
        doc
    }

    /// The text frame of the envelope: the compact text of its document.
    /// The same envelope always gives the same frame.
    pub fn encode(&self) -> (r: String)
        ensures
            r@ == json_text(self@.document()),
    {
        let doc = self.to_json();
        value_text(&doc)
    }
}

/// Why a frame could not be used.
#[derive(Debug, Clone, Copy, PartialEq, Eq, Structural)]
pub enum DecodeError {
    /// The text is no JSON document.
    InvalidJson,
    /// The frame carries a turn that had to be read and cannot be.
    MalformedTurn,
}

impl DecodeError {
    /// What is said of each kind of failure.
    pub open spec fn message(self) -> Seq<char> {
        match self {
            DecodeError::InvalidJson => "invalid JSON received"@,
            DecodeError::MalformedTurn => "the turn of a frame cannot be read"@,
        }
    }

    /// What is said of this failure.
    pub fn describe(&self) -> (r: String)
        ensures
            r@ == self.message(),
    {
        match self {
            DecodeError::InvalidJson => "invalid JSON received".to_owned(),
            DecodeError::MalformedTurn => "the turn of a frame cannot be read".to_owned(),
        }
    }
}

/// The turn of a turn frame.
#[derive(Debug, Clone)]
pub enum CarriedTurn {
    /// The turn as it was read.
    Read(Turn),
    /// A turn that cannot be read. Of its author this much is known:
    /// whether the frame calls it human.
    Unread { author_is_human: bool },
}

/// The content of a [`CarriedTurn`].
pub enum CarriedTurnView {
    Read(TurnView),
    Unread { author_is_human: bool },
}

impl CarriedTurnView {
    /// Whether the author of the turn is human.
    pub open spec fn author_is_human(self) -> bool {
        match self {
            CarriedTurnView::Read(turn) => turn.author_is_human,
            CarriedTurnView::Unread { author_is_human } => author_is_human,
        }
    }

    /// The turn, where it was read.
    pub open spec fn turn(self) -> Option<TurnView> {
        match self {
            CarriedTurnView::Read(turn) => Some(turn),
            CarriedTurnView::Unread { author_is_human } => None,
        }
    }
}

impl View for CarriedTurn {
    type V = CarriedTurnView;

    open spec fn view(&self) -> CarriedTurnView {
        match self {
            CarriedTurn::Read(turn) => CarriedTurnView::Read(turn@),
            CarriedTurn::Unread { author_is_human } => CarriedTurnView::Unread {
                author_is_human: *author_is_human,
            },
        }
    }
}

impl CarriedTurn {
    /// The turn that a document carries: the turn it describes, and where
    /// it describes none, what it says of the author under `is_human` of
    /// `author`, which is "not human" unless it says `true`.
    pub open spec fn decode(m: JsonModel) -> CarriedTurnView {
        match Turn::decode(m) {
            Some(turn) => CarriedTurnView::Read(turn),
            None => CarriedTurnView::Unread {
                author_is_human: bool_or(
                    member_or(m, "author"@, JsonModel::Null),
                    "is_human"@,
                    false,
                ),
            },
        }
    }

    /// Reads the turn that a document carries.
    pub fn from_json(json: &serde_json::Value) -> (r: Self)
        ensures
            r@ == Self::decode(json_model(*json)),
    {
        match Turn::try_from_json(json) {
            Some(turn) => CarriedTurn::Read(turn),
            None => {
                let null = value_null();
                let author = match value_get(json, "author") {
                    Some(a) => a,
                    None => &null,
                };
                CarriedTurn::Unread { author_is_human: get_bool_or(author, "is_human", false) }
            },
        }
    }

    /// Whether the author of the turn is human.
    pub fn author_is_human(&self) -> (r: bool)
        ensures
            r == self@.author_is_human(),
    {
        match self {
            CarriedTurn::Read(turn) => turn.author_is_human,
            CarriedTurn::Unread { author_is_human } => *author_is_human,
        }
    }

    /// An owned copy.
    pub fn snapshot(&self) -> (r: Self)
        ensures
            r@ == self@,
    {
        match self {
            CarriedTurn::Read(turn) => CarriedTurn::Read(turn.snapshot()),
            CarriedTurn::Unread { author_is_human } => CarriedTurn::Unread {
                author_is_human: *author_is_human,
            },
        }
    }
}

/// A frame of the service, by its `command`. Every JSON document is a
/// frame.
#[derive(Debug, Clone)]
pub enum InboundFrame {
    /// `ok`: the command was carried out.
    Acknowledged,
    /// `create_chat_response`: the conversation was opened.
    CreateChatResponse { chat: Chat },
    /// `add_turn`: a turn appears.
    AddTurn { turn: CarriedTurn },
    /// `update_turn`: a turn grows or changes.
    UpdateTurn { turn: CarriedTurn },
    /// `neo_error`: the service refuses, and says why.
    NeoError { comment: String },
    /// Any other frame. It is passed over.
    Other,
}

/// The content of an [`InboundFrame`].
pub enum InboundFrameView {
    Acknowledged,
    CreateChatResponse { chat: ChatView },
    AddTurn { turn: CarriedTurnView },
    UpdateTurn { turn: CarriedTurnView },
    NeoError { comment: Seq<char> },
    Other,
}

impl InboundFrameView {
    /// What a turn frame carries.
    pub open spec fn carried(self) -> Option<CarriedTurnView> {
        match self {
            InboundFrameView::AddTurn { turn } => Some(turn),
            InboundFrameView::UpdateTurn { turn } => Some(turn),
            _ => None,
        }
    }

    /// The turn that the frame carries, if it carries one that was read.
    pub open spec fn turn(self) -> Option<TurnView> {
        match self.carried() {
            Some(carried) => carried.turn(),
            None => None,
        }
    }
}

impl View for InboundFrame {
    type V = InboundFrameView;

    open spec fn view(&self) -> InboundFrameView {
        match self {
            InboundFrame::Acknowledged => InboundFrameView::Acknowledged,
            InboundFrame::CreateChatResponse { chat } => InboundFrameView::CreateChatResponse {
                chat: chat@,
            },
            InboundFrame::AddTurn { turn } => InboundFrameView::AddTurn { turn: turn@ },
            InboundFrame::UpdateTurn { turn } => InboundFrameView::UpdateTurn { turn: turn@ },
            InboundFrame::NeoError { comment } => InboundFrameView::NeoError { comment: comment@ },
            InboundFrame::Other => InboundFrameView::Other,
        }
    }
}

/// The content of the outcome of reading a frame.
pub open spec fn outcome_view(r: Result<InboundFrame, DecodeError>) -> Result<
    InboundFrameView,
    DecodeError,
> {
    match r {
        Ok(f) => Ok(f@),
        Err(e) => Err(e),
    }
}

impl InboundFrame {
    /// The frame that a document is.
    ///
    /// The text under `command` selects the kind. A turn frame carries what
    /// stands under `turn`, read or not; a confirmation its chat under
    /// `chat`; a refusal its reason under `comment` (empty where there is
    /// no text). A document without a known command is `Other`.
    pub open spec fn decode(m: JsonModel) -> InboundFrameView {
        let command = text_at(m, "command"@);
        if command == Some("ok"@) {
            InboundFrameView::Acknowledged
        } else if command == Some("create_chat_response"@) {
            InboundFrameView::CreateChatResponse {
                chat: Chat::decode(member_or(m, "chat"@, JsonModel::Null)),
            }
        } else if command == Some("add_turn"@) {
            InboundFrameView::AddTurn {
                turn: CarriedTurn::decode(member_or(m, "turn"@, JsonModel::Null)),
            }
        } else if command == Some("update_turn"@) {
            InboundFrameView::UpdateTurn {
                turn: CarriedTurn::decode(member_or(m, "turn"@, JsonModel::Null)),
            }
        } else if command == Some("neo_error"@) {
            InboundFrameView::NeoError { comment: text_or(m, "comment"@, Seq::empty()) }
        } else {
            InboundFrameView::Other
        }
    }

    /// The frame that a text is: that of the document it holds, and
    /// `InvalidJson` where it holds none. There is no other failure.
    pub open spec fn decode_text(text: Seq<char>) -> Result<InboundFrameView, DecodeError> {
        match json_parse(text) {
            Some(m) => Ok(Self::decode(m)),
            None => Err(DecodeError::InvalidJson),
        }
    }

    fn carried_by(json: &serde_json::Value) -> (r: CarriedTurn)
        ensures
            r@ == CarriedTurn::decode(member_or(json_model(*json), "turn"@, JsonModel::Null)),
    {
        let null = value_null();
        match value_get(json, "turn") {
            Some(t) => CarriedTurn::from_json(t),
            None => CarriedTurn::from_json(&null),
        }
    }

    /// Reads a frame from its document.
    pub fn from_json(json: &serde_json::Value) -> (r: Self)
        ensures
            r@ == Self::decode(json_model(*json)),
    {
        let command = match get_text(json, "command") {
            Some(c) => c,
            None => { return InboundFrame::Other; },
        };
        if same_text(command.as_str(), "ok") {
            InboundFrame::Acknowledged
        } else if same_text(command.as_str(), "create_chat_response") {
            let null = value_null();
            let chat = match value_get(json, "chat") {
                Some(c) => Chat::from_json(c),
                None => Chat::from_json(&null),
            };
            InboundFrame::CreateChatResponse { chat }
        } else if same_text(command.as_str(), "add_turn") {
            InboundFrame::AddTurn { turn: Self::carried_by(json) }
        } else if same_text(command.as_str(), "update_turn") {
            InboundFrame::UpdateTurn { turn: Self::carried_by(json) }
        } else if same_text(command.as_str(), "neo_error") {
            proof {
                reveal_strlit("");
            }
            assert(""@ =~= Seq::<char>::empty());
            InboundFrame::NeoError { comment: get_text_or(json, "comment", "") }
        } else {
            InboundFrame::Other
        }
    }

    /// An owned copy.
    pub fn snapshot(&self) -> (r: Self)
        ensures
            r@ == self@,
    {
        match self {
            InboundFrame::Acknowledged => InboundFrame::Acknowledged,
            InboundFrame::CreateChatResponse { chat } => InboundFrame::CreateChatResponse {
                chat: chat.snapshot(),
            },
            InboundFrame::AddTurn { turn } => InboundFrame::AddTurn { turn: turn.snapshot() },
            InboundFrame::UpdateTurn { turn } => InboundFrame::UpdateTurn { turn: turn.snapshot() },
            InboundFrame::NeoError { comment } => InboundFrame::NeoError {
                comment: comment.clone(),
            },
            InboundFrame::Other => InboundFrame::Other,
        }
    }

    /// Reads a text frame. It fails on a text that is no JSON document, and
    /// on no other.
    pub fn decode_frame(text: &str) -> (r: Result<Self, DecodeError>)
        ensures
            outcome_view(r) == Self::decode_text(text@),
    {
        match parse(text) {
            Ok(doc) => Ok(Self::from_json(&doc)),
            Err(_) => Err(DecodeError::InvalidJson),
        }
    }
}

/// The contents of a list of frames.
pub open spec fn frame_views(frames: Seq<InboundFrame>) -> Seq<InboundFrameView> {
    frames.map_values(|f: InboundFrame| f@)
}

} // verus!
