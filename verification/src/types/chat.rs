//! Conversations: the chat handle, a turn of a chat and the candidate texts
//! of a turn.

use vstd::prelude::*;
use crate::json::{
    bool_or, get_bool_or, get_i64_or, get_text, get_text_or, get_text_strict, i64_or,
    items_or_none, json_model, member, member_or, models, text_at, text_or, text_strict,
    text_value, value_as_array, value_get, value_is_object, value_null, JsonModel,
};
use crate::string_map::{
    lemma_map_entries, lemma_position, lookup, map_entries, position, upsert, StringMap,
};
use crate::text::{copy_opt, opt_view};

verus! {

/// One entry of the list of earlier conversations with a character. The
/// service's record of it is not read.
#[derive(Debug, Clone, Copy, PartialEq, Eq, Structural)]
pub struct ChatHistory {}

impl ChatHistory {
    pub fn new() -> (r: Self)
        ensures
            r == (ChatHistory {  }),
    {
        Self {  }
    }

    /// Reads an entry; nothing of the document is kept.
    pub fn from_json(json: &serde_json::Value) -> (r: Self)
        ensures
            r == (ChatHistory {  }),
    {
        Self::new()
    }
}

/// The handle of a conversation: its own id and the id of the character it
/// is held with.
#[derive(Debug, Clone)]
pub struct Chat {
    pub chat_id: String,
    pub character_id: String,
}

/// The content of a [`Chat`].
pub struct ChatView {
    pub chat_id: Seq<char>,
    pub character_id: Seq<char>,
}

impl View for Chat {
    type V = ChatView;

    open spec fn view(&self) -> ChatView {
        ChatView { chat_id: self.chat_id@, character_id: self.character_id@ }
    }
}

impl Chat {
    /// The handle that a document confirms: the texts under `chat_id` and
    /// `character_id`, each empty where the document has none.
    pub open spec fn decode(m: JsonModel) -> ChatView {
        ChatView {
            chat_id: text_or(m, "chat_id"@, Seq::empty()),
            character_id: text_or(m, "character_id"@, Seq::empty()),
        }
    }

    /// The handle with both ids empty.
    pub fn new() -> (r: Self)
        ensures
            r@ == (ChatView { chat_id: Seq::empty(), character_id: Seq::empty() }),
    {
        Self { chat_id: String::new(), character_id: String::new() }
    }

    /// Reads the handle that the service confirms.
    pub fn from_json(json: &serde_json::Value) -> (r: Self)
        ensures
            r@ == Self::decode(json_model(*json)),
    {
        proof {
            reveal_strlit("");
        }
        assert(""@ =~= Seq::<char>::empty());
        Self {
            chat_id: get_text_or(json, "chat_id", ""),
            character_id: get_text_or(json, "character_id", ""),
        }
    }

    /// An owned copy.
    pub fn snapshot(&self) -> (r: Self)
        ensures
            r@ == self@,
    {
        Self { chat_id: self.chat_id.clone(), character_id: self.character_id.clone() }
    }
}

/// One text variant of a turn.
#[derive(Debug, Clone)]
pub struct Candidate {
    pub id: String,
    pub text: String,
    pub is_final: bool,
    pub safety_truncated: bool,
    pub create_time: Option<String>,
}

/// The content of a [`Candidate`].
pub struct CandidateView {
    pub id: Seq<char>,
    pub text: Seq<char>,
    pub is_final: bool,
    pub safety_truncated: bool,
    pub create_time: Option<Seq<char>>,
}

impl View for Candidate {
    type V = CandidateView;

    open spec fn view(&self) -> CandidateView {
        CandidateView {
            id: self.id@,
            text: self.text@,
            is_final: self.is_final,
            safety_truncated: self.safety_truncated,
            create_time: opt_view(self.create_time),
        }
    }
}

impl Candidate {
    /// The candidate that a document describes. The id stands under
    /// `candidate_id` and the text under `raw_content`, each empty where
    /// absent; a document with anything but a string there describes none.
    /// The two flags are false unless the document says `true`.
    pub open spec fn decode(m: JsonModel) -> Option<CandidateView> {
        match (text_strict(m, "candidate_id"@), text_strict(m, "raw_content"@)) {
            (Some(id), Some(text)) => Some(
                CandidateView {
                    id,
                    text,
                    is_final: bool_or(m, "is_final"@, false),
                    safety_truncated: bool_or(m, "safety_truncated"@, false),
                    create_time: text_at(m, "create_time"@),
                },
            ),
            _ => None,
        }
    }

    pub fn new(
        id: &str,
        text: &str,
        is_final: bool,
        safety_truncated: bool,
        create_time: Option<String>,
    ) -> (r: Self)
        ensures
            r@ == (CandidateView {
                id: id@,
                text: text@,
                is_final,
                safety_truncated,
                create_time: opt_view(create_time),
            }),
    {
        Self { id: id.to_owned(), text: text.to_owned(), is_final, safety_truncated, create_time }
    }

    /// Reads a candidate, or `None` where the document describes none.
    pub fn try_from_json(json: &serde_json::Value) -> (r: Option<Self>)
        ensures
            match r {
                Some(c) => Self::decode(json_model(*json)) == Some(c@),
                None => Self::decode(json_model(*json)) is None,
            },
    {
        let id = match get_text_strict(json, "candidate_id") {
            Some(s) => s,
            None => { return None; },
        };
        let text = match get_text_strict(json, "raw_content") {
            Some(s) => s,
            None => { return None; },
        };
        Some(
            Self {
                id,
                text,
                is_final: get_bool_or(json, "is_final", false),
                safety_truncated: get_bool_or(json, "safety_truncated", false),
                create_time: get_text(json, "create_time"),
            },
        )
    }

    /// Reads a candidate from a document that describes one.
    pub fn from_json(json: &serde_json::Value) -> (r: Self)
        requires
            Self::decode(json_model(*json)) is Some,
        ensures
            Self::decode(json_model(*json)) == Some(r@),
    {
        match Self::try_from_json(json) {
            Some(c) => c,
            None => Self::new("", "", false, false, None),
        }
    }

    /// An owned copy.
    pub fn snapshot(&self) -> (r: Self)
        ensures
            r@ == self@,
    {
        Self {
            id: self.id.clone(),
            text: self.text.clone(),
            is_final: self.is_final,
            safety_truncated: self.safety_truncated,
            create_time: copy_opt(&self.create_time),
        }
    }
}

/// The candidates of a list of entries, each by its content.
pub open spec fn candidate_views(s: Seq<(Seq<char>, Candidate)>) -> Seq<
    (Seq<char>, CandidateView),
> {
    map_entries(s, |c: Candidate| c@)
}

/// The candidates that a list of documents describes, keyed by id: a later
/// one takes the place of an earlier one with the same id. Nothing where
/// one of the documents describes no candidate.
pub open spec fn decode_candidates(items: Seq<JsonModel>) -> Option<
    Seq<(Seq<char>, CandidateView)>,
>
    decreases items.len(),
{
    if items.len() == 0 {
        Some(Seq::empty())
    } else {
        match (decode_candidates(items.drop_last()), Candidate::decode(items.last())) {
            (Some(earlier), Some(c)) => Some(upsert(earlier, c.id, c)),
            _ => None,
        }
    }
}

/// Where a list of documents describes candidates, so does each of its
/// beginnings.
pub proof fn lemma_decode_candidates_prefix(items: Seq<JsonModel>, n: int)
    requires
        0 <= n <= items.len(),
        decode_candidates(items) is Some,
    ensures
        decode_candidates(items.take(n)) is Some,
    decreases items.len(),
{
    if n < items.len() {
        lemma_decode_candidates_prefix(items.drop_last(), n);
        assert(items.drop_last().take(n) =~= items.take(n));
    } else {
        assert(items.take(n) =~= items);
    }
}

/// One message of a conversation, with the candidate texts it has so far.
#[derive(Debug, Clone)]
pub struct Turn {
    pub id: String,
    pub chat_id: String,
    pub create_time: Option<String>,
    pub last_update_time: Option<String>,
    pub state: serde_json::Value,
    pub author_id: i64,
    pub author_name: String,
    pub author_is_human: bool,
    pub primary_candidate_id: Option<String>,
    pub candidates: StringMap<Candidate>,
}

/// The content of a [`Turn`].
pub struct TurnView {
    pub id: Seq<char>,
    pub chat_id: Seq<char>,
    pub create_time: Option<Seq<char>>,
    pub last_update_time: Option<Seq<char>>,
    pub state: JsonModel,
    pub author_id: i64,
    pub author_name: Seq<char>,
    pub author_is_human: bool,
    pub primary_candidate_id: Option<Seq<char>>,
    pub candidates: Seq<(Seq<char>, CandidateView)>,
}

impl TurnView {
    /// The candidate that the turn names as its primary one.
    pub open spec fn primary_candidate(self) -> Option<CandidateView> {
        match self.primary_candidate_id {
            Some(id) => lookup(self.candidates, id),
            None => None,
        }
    }

    /// The candidate under an id.
    pub open spec fn candidate(self, id: Seq<char>) -> Option<CandidateView> {
        lookup(self.candidates, id)
    }

    /// The id of the candidate that the turn lists last.
    pub open spec fn newest_id(self) -> Option<Seq<char>> {
        if self.candidates.len() > 0 {
            Some(self.candidates.last().0)
        } else {
            None
        }
    }

    /// The candidate that is shown: the primary one where the turn names
    /// one; else the candidate that arrived last, by its id, where one
    /// arrived.
    pub open spec fn shown_candidate(self, arrived: Option<Seq<char>>) -> Option<CandidateView> {
        match self.primary_candidate_id {
            Some(id) => self.candidate(id),
            None => match arrived {
                Some(id) => self.candidate(id),
                None => None,
            },
        }
    }

    /// Whether the shown candidate is there and finished.
    pub open spec fn shows_final(self, arrived: Option<Seq<char>>) -> bool {
        match self.shown_candidate(arrived) {
            Some(c) => c.is_final,
            None => false,
        }
    }
}

impl View for Turn {
    type V = TurnView;

    open spec fn view(&self) -> TurnView {
        TurnView {
            id: self.id@,
            chat_id: self.chat_id@,
            create_time: opt_view(self.create_time),
            last_update_time: opt_view(self.last_update_time),
            state: json_model(self.state),
            author_id: self.author_id,
            author_name: self.author_name@,
            author_is_human: self.author_is_human,
            primary_candidate_id: opt_view(self.primary_candidate_id),
            candidates: candidate_views(self.candidates@),
        }
    }
}

impl Turn {
    /// The turn that a document describes.
    ///
    /// The document is an object. Where it has a `turn_key`, the id of the
    /// turn is the `candidate_id` of that key and the chat is its `chat_id`;
    /// where it has none, they are the `id` and `chat_id` of the document
    /// itself. The author is read from `author`, the one time stamp from
    /// `create_time`, the candidates from `candidates`. An absent text is
    /// empty; a document with anything but a string where an id or a
    /// candidate's text belongs describes no turn.
    pub open spec fn decode(m: JsonModel) -> Option<TurnView> {
        let ids = match member(m, "turn_key"@) {
            Some(k) => (text_strict(k, "candidate_id"@), text_strict(k, "chat_id"@)),
            None => (text_strict(m, "id"@), text_strict(m, "chat_id"@)),
        };
        let author = member_or(m, "author"@, JsonModel::Null);
        match (ids.0, ids.1, decode_candidates(items_or_none(m, "candidates"@))) {
            (Some(id), Some(chat_id), Some(candidates)) => if m is Object {
                Some(
                    TurnView {
                        id,
                        chat_id,
                        create_time: text_at(m, "create_time"@),
                        last_update_time: text_at(m, "create_time"@),
                        state: member_or(m, "state"@, JsonModel::Text(Seq::empty())),
                        author_id: i64_or(author, "author_id"@, 0),
                        author_name: text_or(author, "name"@, Seq::empty()),
                        author_is_human: bool_or(author, "is_human"@, false),
                        primary_candidate_id: text_at(m, "primary_candidate_id"@),
                        candidates,
                    },
                )
            } else {
                None
            },
            _ => None,
        }
    }

    pub fn new(
        id: &str,
        chat_id: &str,
        create_time: Option<String>,
        last_update_time: Option<String>,
        state: serde_json::Value,
        author_id: i64,
        author_name: &str,
        author_is_human: bool,
        primary_candidate_id: Option<String>,
        candidates: StringMap<Candidate>,
    ) -> (r: Self)
        ensures
            r@ == (TurnView {
                id: id@,
                chat_id: chat_id@,
                create_time: opt_view(create_time),
                last_update_time: opt_view(last_update_time),
                state: json_model(state),
                author_id,
                author_name: author_name@,
                author_is_human,
                primary_candidate_id: opt_view(primary_candidate_id),
                candidates: candidate_views(candidates@),
            }),
    {
        Self {
            id: id.to_owned(),
            chat_id: chat_id.to_owned(),
            create_time,
            last_update_time,
            state,
            author_id,
            author_name: author_name.to_owned(),
            author_is_human,
            primary_candidate_id,
            candidates,
        }
    }

    fn candidates_from_json(items: &Vec<serde_json::Value>) -> (r: Option<StringMap<Candidate>>)
        ensures
            match r {
                Some(map) => decode_candidates(models(items@)) == Some(candidate_views(map@)),
                None => decode_candidates(models(items@)) is None,
            },
    {
        let mut map: StringMap<Candidate> = StringMap::new();
        let mut i: usize = 0;
        assert(models(items@).take(0) =~= Seq::<JsonModel>::empty());
        assert(candidate_views(map@) =~= Seq::<(Seq<char>, CandidateView)>::empty());
        while i < items.len()
            invariant
                i <= items.len(),
                decode_candidates(models(items@).take(i as int)) == Some(candidate_views(map@)),
            decreases items.len() - i,
        {
            let ghost all = models(items@);
            let ghost before = all.take(i as int);
            let ghost after = all.take(i + 1);
            assert(after.drop_last() =~= before);
            assert(after.last() == json_model(items@[i as int]));
            match Candidate::try_from_json(&items[i]) {
                Some(c) => {
                    proof {
                        lemma_map_entries(map@, |c: Candidate| c@, c.id@, c);
                    }
                    let key = c.id.clone();
                    map.insert(key, c);
                },
                None => {
                    proof {
                        if decode_candidates(all) is Some {
                            lemma_decode_candidates_prefix(all, i + 1);
                        }
                    }
                    return None;
                },
            }
            i += 1;
        }
        assert(models(items@).take(i as int) =~= models(items@));
        Some(map)
    }

    /// Reads a turn, or `None` where the document describes none.
    pub fn try_from_json(json: &serde_json::Value) -> (r: Option<Self>)
        ensures
            match r {
                Some(t) => Self::decode(json_model(*json)) == Some(t@),
                None => Self::decode(json_model(*json)) is None,
            },
    {
        proof {
            reveal_strlit("");
        }
        assert(""@ =~= Seq::<char>::empty());
        if !value_is_object(json) {
            return None;
        }
        let (id, chat_id) = match value_get(json, "turn_key") {
            Some(k) => (get_text_strict(k, "candidate_id"), get_text_strict(k, "chat_id")),
            None => (get_text_strict(json, "id"), get_text_strict(json, "chat_id")),
        };
        let id = match id {
            Some(s) => s,
            None => { return None; },
        };
        let chat_id = match chat_id {
            Some(s) => s,
            None => { return None; },
        };
        let candidates = match value_get(json, "candidates") {
            Some(c) => match value_as_array(c) {
                Some(items) => Self::candidates_from_json(items),
                None => Some(StringMap::new()),
            },
            None => Some(StringMap::new()),
        };
        let candidates = match candidates {
            Some(map) => map,
            None => { return None; },
        };
        let null = value_null();
        let author = match value_get(json, "author") {
            Some(a) => a,
            None => &null,
        };
        let state = match value_get(json, "state") {
            Some(s) => s.clone(),
            None => text_value(""),
        };
        assert(candidate_views(Seq::<(Seq<char>, Candidate)>::empty()) =~= Seq::<
            (Seq<char>, CandidateView),
        >::empty());
        Some(
            Self {
                id,
                chat_id,
                create_time: get_text(json, "create_time"),
                last_update_time: get_text(json, "create_time"),
                state,
                author_id: get_i64_or(author, "author_id", 0),
                author_name: get_text_or(author, "name", ""),
                author_is_human: get_bool_or(author, "is_human", false),
                primary_candidate_id: get_text(json, "primary_candidate_id"),
                candidates,
            },
        )
    }

    /// Reads a turn from a document that describes one.
    pub fn from_json(json: &serde_json::Value) -> (r: Self)
        requires
            Self::decode(json_model(*json)) is Some,
        ensures
            Self::decode(json_model(*json)) == Some(r@),
    {
        match Self::try_from_json(json) {
            Some(t) => t,
            None => Self::new(
                "",
                "",
                None,
                None,
                value_null(),
                0,
                "",
                false,
                None,
                StringMap::new(),
            ),
        }
    }

    /// Owned copies of the candidates, in the order of the turn's list.
    pub fn get_candidates(&self) -> (r: Vec<Candidate>)
        ensures
            r@.len() == self@.candidates.len(),
            forall|i: int| 0 <= i < r@.len() ==> (#[trigger] r@[i])@ == self@.candidates[i].1,
    {
        let mut out: Vec<Candidate> = Vec::new();
        let n = self.candidates.len();
        let mut i: usize = 0;
        while i < n
            invariant
                i <= n,
                n == self.candidates@.len(),
                out@.len() == i,
                forall|j: int| 0 <= j < i ==> (#[trigger] out@[j])@ == self@.candidates[j].1,
            decreases n - i,
        {
            out.push(self.candidates.value_at(i).snapshot());
            i += 1;
        }
        out
    }

    /// The candidate that the turn names as its primary one, if it names
    /// one and has it.
    pub fn get_primary_candidate(&self) -> (r: Option<&Candidate>)
        ensures
            match r {
                Some(c) => self@.primary_candidate() == Some(c@),
                None => self@.primary_candidate() is None,
            },
    {
        match &self.primary_candidate_id {
            Some(id) => self.candidate(id.as_str()),
            None => None,
        }
    }

    /// The candidate under an id.
    pub fn candidate(&self, id: &str) -> (r: Option<&Candidate>)
        ensures
            match r {
                Some(c) => self@.candidate(id@) == Some(c@),
                None => self@.candidate(id@) is None,
            },
    {
        proof {
            lemma_map_entries(self.candidates@, |c: Candidate| c@, id@, arbitrary());
        }
        self.candidates.get(id)
    }

    /// The id of the candidate that the turn lists last.
    pub fn newest_id(&self) -> (r: Option<String>)
        ensures
            opt_view(r) == self@.newest_id(),
    {
        let n = self.candidates.len();
        if n > 0 {
            Some(self.candidates.key_at(n - 1).clone())
        } else {
            None
        }
    }

    /// Whether the shown candidate is there and finished, where `arrived`
    /// is the id of the candidate that arrived last.
    pub fn shows_final(&self, arrived: &Option<String>) -> (r: bool)
        ensures
            r == self@.shows_final(opt_view(*arrived)),
    {
        let shown = match &self.primary_candidate_id {
            Some(id) => self.candidate(id.as_str()),
            None => match arrived {
                Some(id) => self.candidate(id.as_str()),
                None => None,
            },
        };
        match shown {
            Some(c) => c.is_final,
            None => false,
        }
    }

    /// An owned copy.
    pub fn snapshot(&self) -> (r: Self)
        ensures
            r@ == self@,
    {
        Self {
            id: self.id.clone(),
            chat_id: self.chat_id.clone(),
            create_time: copy_opt(&self.create_time),
            last_update_time: copy_opt(&self.last_update_time),
            state: self.state.clone(),
            author_id: self.author_id,
            author_name: self.author_name.clone(),
            author_is_human: self.author_is_human,
            primary_candidate_id: copy_opt(&self.primary_candidate_id),
            candidates: copy_candidates(&self.candidates),
        }
    }
}

/// An owned copy of a list of candidates.
pub fn copy_candidates(map: &StringMap<Candidate>) -> (r: StringMap<Candidate>)
    ensures
        candidate_views(r@) == candidate_views(map@),
{
    let mut out: StringMap<Candidate> = StringMap::new();
    let n = map.len();
    let mut i: usize = 0;
    assert(candidate_views(out@) =~= candidate_views(map@).take(0));
    while i < n
        invariant
            i <= n,
            n == map@.len(),
            crate::string_map::distinct_keys(map@),
            candidate_views(out@) == candidate_views(map@).take(i as int),
        decreases n - i,
    {
        let key = map.key_at(i).clone();
        let value = map.value_at(i).snapshot();
        proof {
            let views = candidate_views(out@);
            lemma_map_entries(out@, |c: Candidate| c@, key@, value);
            lemma_position(views, key@);
            let p = position(views, key@);
            if p < views.len() {
                assert(views[p] == candidate_views(map@)[p]);
                assert(map@[p].0 != map@[i as int].0);
            }
            assert(candidate_views(map@).take(i + 1) =~= candidate_views(map@).take(
                i as int,
            ).push((key@, value@)));
        }
        out.insert(key, value);
        i += 1;
    }
    assert(candidate_views(map@).take(n as int) =~= candidate_views(map@));
    out
}

} // verus!
