//! The remote calls of the service, group by group. For each call there is
//! the request that it makes and the reading of what comes back; the input
//! and output in between belong to the caller.

use vstd::prelude::*;
use crate::json::{
    get_text_or, items_of, items_or_none, items_strict, json_model, json_text, member, models,
    text_of, text_or, value_as_array, value_as_str, value_get, value_text, JsonModel,
};
use crate::types::character::{PartialCharacter, PartialCharacterView};
use crate::types::media::{Voice, VoiceView};
use crate::types::user::{
    character_views, characters_from_json, decode_characters, Persona, PersonaView,
};
use crate::requester::{body_view, Body, BodyView, RequestOptions, RequesterError};
use crate::string_map::StringMap;
use crate::text::same_text;

pub mod account;
pub mod character;
pub mod chat;
pub mod user;
pub mod utils;

verus! {

/// A request of the plain request and reply kind: where it goes, and what
/// it asks for.
#[derive(Debug, Clone)]
pub struct Call {
    pub url: String,
    pub options: RequestOptions,
}

impl Call {
    /// Whether the call goes to `url` with this method, these headers and
    /// this body.
    pub open spec fn is(
        self,
        method: Seq<char>,
        url: Seq<char>,
        headers: StringMap<String>,
        body: Option<BodyView>,
    ) -> bool {
        &&& self.url@ == url
        &&& self.options.method@ == method
        &&& self.options.headers == headers
        &&& body_view(self.options.body) == body
    }

    /// A call without a body.
    pub fn plain(method: &str, url: String, headers: StringMap<String>) -> (r: Self)
        ensures
            r.is(method@, url@, headers, None),
    {
        Call { url, options: RequestOptions::new(method, headers, None) }
    }

    /// A call whose body is the text of a document.
    pub fn with_json(
        method: &str,
        url: String,
        headers: StringMap<String>,
        body: &serde_json::Value,
    ) -> (r: Self)
        ensures
            r.is(method@, url@, headers, Some(BodyView::Text(json_text(json_model(*body))))),
    {
        Call {
            url,
            options: RequestOptions::new(method, headers, Some(Body::Text(value_text(body)))),
        }
    }
}

/// What stands under a key where a list is expected.
pub enum Listing<'a> {
    /// An array.
    Items(&'a Vec<serde_json::Value>),
    /// Nothing: the key is absent.
    Absent,
    /// Something that is no array.
    Other,
}

/// Looks up the list under a key.
pub fn listing<'a>(json: &'a serde_json::Value, key: &str) -> (r: Listing<'a>)
    ensures
        match r {
            Listing::Items(items) => member(json_model(*json), key@) is Some && items_of(
                member(json_model(*json), key@)->Some_0,
            ) == Some(models(items@)),
            Listing::Absent => member(json_model(*json), key@) is None,
            Listing::Other => member(json_model(*json), key@) is Some && items_of(
                member(json_model(*json), key@)->Some_0,
            ) is None,
        },
{
    match value_get(json, key) {
        Some(x) => match value_as_array(x) {
            Some(items) => Listing::Items(items),
            None => Listing::Other,
        },
        None => Listing::Absent,
    }
}

/// Whether a call went through: its outcome is no failure.
pub fn succeeded<T>(outcome: &Result<T, RequesterError>) -> (r: bool)
    ensures
        r == outcome is Ok,
{
    match outcome {
        Ok(_) => true,
        Err(_) => false,
    }
}

/// Whether an answer reports `OK` under `status`.
pub open spec fn reports_ok(m: JsonModel) -> bool {
    text_or(m, "status"@, Seq::empty()) == "OK"@
}

/// Exec form of [`reports_ok`].
pub fn status_ok(json: &serde_json::Value) -> (r: bool)
    ensures
        r == reports_ok(json_model(*json)),
{
    proof {
        reveal_strlit("");
    }
    assert(""@ =~= Seq::<char>::empty());
    let status = get_text_or(json, "status", "");
    same_text(status.as_str(), "OK")
}

/// The strings among a list of documents, in their order.
pub open spec fn texts_in(items: Seq<JsonModel>) -> Seq<Seq<char>>
    decreases items.len(),
{
    if items.len() == 0 {
        Seq::empty()
    } else {
        match text_of(items.last()) {
            Some(s) => texts_in(items.drop_last()).push(s),
            None => texts_in(items.drop_last()),
        }
    }
}

/// The texts of a list of strings.
pub open spec fn string_views(items: Seq<String>) -> Seq<Seq<char>> {
    items.map_values(|s: String| s@)
}

/// Reads the strings among a list of documents.
pub fn strings_in(items: &Vec<serde_json::Value>) -> (r: Vec<String>)
    ensures
        string_views(r@) == texts_in(models(items@)),
{
    let mut out: Vec<String> = Vec::new();
    let mut i: usize = 0;
    let ghost all = models(items@);
    assert(all.take(0) =~= Seq::<JsonModel>::empty());
    assert(string_views(out@) =~= Seq::<Seq<char>>::empty());
    while i < items.len()
        invariant
            i <= items.len(),
            all == models(items@),
            string_views(out@) == texts_in(all.take(i as int)),
        decreases items.len() - i,
    {
        assert(all.take(i + 1).drop_last() =~= all.take(i as int));
        assert(all.take(i + 1).last() == json_model(items@[i as int]));
        let ghost before = out@;
        match value_as_str(&items[i]) {
            Some(s) => {
                out.push(s.to_owned());
                assert(string_views(out@) =~= string_views(before).push(s@));
            },
            None => {},
        }
        i += 1;
    }
    assert(all.take(i as int) =~= all);
    out
}

/// The list under a key. Read strictly, an absent key gives the empty list
/// and anything but an array gives nothing; read leniently, both give the
/// empty list.
pub open spec fn list_under(m: JsonModel, key: Seq<char>, strict: bool) -> Option<Seq<JsonModel>> {
    if strict {
        items_strict(m, key)
    } else {
        Some(items_or_none(m, key))
    }
}

/// The contents of a list of voices.
pub open spec fn voice_views(items: Seq<Voice>) -> Seq<VoiceView> {
    items.map_values(|v: Voice| v@)
}

/// The voices that a list of documents describes, or nothing where one of
/// them describes none.
pub open spec fn decode_voices(items: Seq<JsonModel>) -> Option<Seq<VoiceView>> {
    if forall|i: int| 0 <= i < items.len() ==> Voice::decode(#[trigger] items[i]) is Some {
        Some(items.map_values(|m: JsonModel| Voice::decode(m)->Some_0))
    } else {
        None
    }
}

/// The voices of the list under a key.
pub open spec fn decode_voices_under(m: JsonModel, key: Seq<char>, strict: bool) -> Option<
    Seq<VoiceView>,
> {
    match list_under(m, key, strict) {
        Some(items) => decode_voices(items),
        None => None,
    }
}

/// Reads the voices of the list under a key.
pub fn voices_under(json: &serde_json::Value, key: &str, strict: bool) -> (r: Option<Vec<Voice>>)
    ensures
        match r {
            Some(list) => decode_voices_under(json_model(*json), key@, strict) == Some(
                voice_views(list@),
            ),
            None => decode_voices_under(json_model(*json), key@, strict) is None,
        },
{
    let mut out: Vec<Voice> = Vec::new();
    match listing(json, key) {
        Listing::Items(items) => {
            let ghost all = models(items@);
            let mut i: usize = 0;
            while i < items.len()
                invariant
                    i <= items.len(),
                    all == models(items@),
                    list_under(json_model(*json), key@, strict) == Some(all),
                    out@.len() == i,
                    forall|j: int|
                        0 <= j < i ==> Voice::decode(#[trigger] all[j]) == Some(out@[j]@),
                decreases items.len() - i,
            {
                match Voice::try_from_json(&items[i]) {
                    Some(v) => {
                        out.push(v);
                    },
                    None => {
                        assert(Voice::decode(all[i as int]) is None);
                        return None;
                    },
                }
                i += 1;
            }
            assert(voice_views(out@) =~= all.map_values(|m: JsonModel| Voice::decode(m)->Some_0));
            Some(out)
        },
        Listing::Absent => {
            assert(voice_views(out@) =~= Seq::<JsonModel>::empty().map_values(
                |m: JsonModel| Voice::decode(m)->Some_0,
            ));
            Some(out)
        },
        Listing::Other => {
            if strict {
                None
            } else {
                assert(voice_views(out@) =~= Seq::<JsonModel>::empty().map_values(
                    |m: JsonModel| Voice::decode(m)->Some_0,
                ));
                Some(out)
            }
        },
    }
}

/// The contents of a list of personas.
pub open spec fn persona_views(items: Seq<Persona>) -> Seq<PersonaView> {
    items.map_values(|p: Persona| p@)
}

/// The personas that a list of documents describes, or nothing where one
/// of them describes none.
pub open spec fn decode_personas(items: Seq<JsonModel>) -> Option<Seq<PersonaView>> {
    if forall|i: int| 0 <= i < items.len() ==> Persona::decode(#[trigger] items[i]) is Some {
        Some(items.map_values(|m: JsonModel| Persona::decode(m)->Some_0))
    } else {
        None
    }
}

/// The personas of the list under a key.
pub open spec fn decode_personas_under(m: JsonModel, key: Seq<char>, strict: bool) -> Option<
    Seq<PersonaView>,
> {
    match list_under(m, key, strict) {
        Some(items) => decode_personas(items),
        None => None,
    }
}

/// Reads the personas of the list under a key.
pub fn personas_under(json: &serde_json::Value, key: &str, strict: bool) -> (r: Option<
    Vec<Persona>,
>)
    ensures
        match r {
            Some(list) => decode_personas_under(json_model(*json), key@, strict) == Some(
                persona_views(list@),
            ),
            None => decode_personas_under(json_model(*json), key@, strict) is None,
        },
{
    let mut out: Vec<Persona> = Vec::new();
    match listing(json, key) {
        Listing::Items(items) => {
            let ghost all = models(items@);
            let mut i: usize = 0;
            while i < items.len()
                invariant
                    i <= items.len(),
                    all == models(items@),
                    list_under(json_model(*json), key@, strict) == Some(all),
                    out@.len() == i,
                    forall|j: int|
                        0 <= j < i ==> Persona::decode(#[trigger] all[j]) == Some(out@[j]@),
                decreases items.len() - i,
            {
                match Persona::try_from_json(&items[i]) {
                    Some(p) => {
                        out.push(p);
                    },
                    None => {
                        assert(Persona::decode(all[i as int]) is None);
                        return None;
                    },
                }
                i += 1;
            }
            assert(persona_views(out@) =~= all.map_values(
                |m: JsonModel| Persona::decode(m)->Some_0,
            ));
            Some(out)
        },
        Listing::Absent => {
            assert(persona_views(out@) =~= Seq::<JsonModel>::empty().map_values(
                |m: JsonModel| Persona::decode(m)->Some_0,
            ));
            Some(out)
        },
        Listing::Other => {
            if strict {
                None
            } else {
                assert(persona_views(out@) =~= Seq::<JsonModel>::empty().map_values(
                    |m: JsonModel| Persona::decode(m)->Some_0,
                ));
                Some(out)
            }
        },
    }
}

/// The short records of the list under a key.
pub open spec fn decode_characters_under(m: JsonModel, key: Seq<char>, strict: bool) -> Option<
    Seq<PartialCharacterView>,
> {
    match list_under(m, key, strict) {
        Some(items) => decode_characters(items),
        None => None,
    }
}

/// Reads the short records of the list under a key.
pub fn characters_under(json: &serde_json::Value, key: &str, strict: bool) -> (r: Option<
    Vec<PartialCharacter>,
>)
    ensures
        match r {
            Some(list) => decode_characters_under(json_model(*json), key@, strict) == Some(
                character_views(list@),
            ),
            None => decode_characters_under(json_model(*json), key@, strict) is None,
        },
{
    let none: Vec<PartialCharacter> = Vec::new();
    assert(character_views(none@) =~= Seq::<PartialCharacterView>::empty());
    match listing(json, key) {
        Listing::Items(items) => characters_from_json(items),
        Listing::Absent => Some(none),
        Listing::Other => if strict {
            None
        } else {
            Some(none)
        },
    }
}

/// The strings of the list under a key.
pub open spec fn texts_under(m: JsonModel, key: Seq<char>, strict: bool) -> Option<
    Seq<Seq<char>>,
> {
    match list_under(m, key, strict) {
        Some(items) => Some(texts_in(items)),
        None => None,
    }
}

/// Reads the strings of the list under a key.
pub fn strings_under(json: &serde_json::Value, key: &str, strict: bool) -> (r: Option<Vec<String>>)
    ensures
        match r {
            Some(list) => texts_under(json_model(*json), key@, strict) == Some(
                string_views(list@),
            ),
            None => texts_under(json_model(*json), key@, strict) is None,
        },
{
    let none: Vec<String> = Vec::new();
    assert(string_views(none@) =~= Seq::<Seq<char>>::empty());
    match listing(json, key) {
        Listing::Items(items) => Some(strings_in(items)),
        Listing::Absent => Some(none),
        Listing::Other => if strict {
            None
        } else {
            Some(none)
        },
    }
}

/// Whether a call went through and its answer reports `OK`.
pub fn confirmed(outcome: &Result<serde_json::Value, RequesterError>) -> (r: bool)
    ensures
        r == match outcome {
            Ok(response) => reports_ok(json_model(*response)),
            Err(_) => false,
        },
{
    match outcome {
        Ok(response) => status_ok(response),
        Err(_) => false,
    }
}

} // verus!
