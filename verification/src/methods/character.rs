//! The calls about characters.

use vstd::prelude::*;
use vstd::string::StringExecFns;
use crate::json::{
    element, get_text, items_or_empty, items_or_none, json_model, json_text, lists_members,
    member, member_or, models, object1, text_at, text_value, value_array, value_as_array,
    value_bool, value_entries, value_get, value_get_index, value_null, value_object, value_set,
    value_text, JsonModel,
};
use crate::methods::{
    characters_under, confirmed, decode_characters_under, listing, reports_ok, status_ok,
    string_views, Call, Listing,
};
use crate::outside::{fresh_id, percent_encode, percent_encoded};
use crate::requester::{BodyView, RequesterError, RequesterErrorView};
use crate::string_map::{as_map, lemma_as_map_upsert, StringMap};
use crate::text::{byte_len, decimal, len_of, numbered, quoted, quoted_text};
use crate::types::character::{Character, CharacterView, PartialCharacter, PartialCharacterView};
use crate::types::enums::Visibility;
use crate::types::user::{character_views, characters_from_json, decode_characters};

verus! {

/// What is said against the fields of a character, if anything: the name
/// has 3 to 20 bytes, the greeting 3 to 2048, the title none or 3 to 50,
/// the description at most 500, the definition at most 32000.
pub open spec fn character_complaint(
    name: Seq<char>,
    greeting: Seq<char>,
    title: Seq<char>,
    description: Seq<char>,
    definition: Seq<char>,
) -> Option<Seq<char>> {
    if byte_len(name) < 3 || byte_len(name) > 20 {
        Some(
            "name cannot be less than 3 characters or more than 20 (is "@ + decimal(byte_len(name))
                + " characters)"@,
        )
    } else if byte_len(greeting) < 3 || byte_len(greeting) > 2048 {
        Some(
            "greeting cannot be less than 3 characters or more than 2048 (is "@ + decimal(
                byte_len(greeting),
            ) + " characters)"@,
        )
    } else if byte_len(title) != 0 && (byte_len(title) < 3 || byte_len(title) > 50) {
        Some(
            "title cannot be less than 3 characters or more than 50 (is "@ + decimal(
                byte_len(title),
            ) + " characters)"@,
        )
    } else if byte_len(description) > 500 {
        Some(
            "description cannot be less than more than 500 (is "@ + decimal(byte_len(description))
                + " characters)"@,
        )
    } else if byte_len(definition) > 32000 {
        Some(
            "definition cannot be more than 32000 (is "@ + decimal(byte_len(definition))
                + " characters)"@,
        )
    } else {
        None
    }
}

/// The fields that the records of a new and of a changed character share.
pub open spec fn character_fields(
    name: Seq<char>,
    greeting: Seq<char>,
    title: Seq<char>,
    description: Seq<char>,
    definition: Seq<char>,
    copyable: bool,
    visibility: Visibility,
    avatar_rel_path: Seq<char>,
    default_voice_id: Seq<char>,
) -> Map<Seq<char>, JsonModel> {
    Map::empty().insert("avatar_rel_path"@, JsonModel::Text(avatar_rel_path)).insert(
        "base_img_prompt"@,
        JsonModel::Text(Seq::empty()),
    ).insert("categories"@, JsonModel::Array(Seq::empty())).insert(
        "copyable"@,
        JsonModel::Bool(copyable),
    ).insert("default_voice_id"@, JsonModel::Text(default_voice_id)).insert(
        "definition"@,
        JsonModel::Text(definition),
    ).insert("description"@, JsonModel::Text(description)).insert(
        "greeting"@,
        JsonModel::Text(greeting),
    ).insert("img_gen_enabled"@, JsonModel::Bool(false)).insert(
        "name"@,
        JsonModel::Text(name),
    ).insert("strip_img_prompt_from_msg"@, JsonModel::Bool(false)).insert(
        "title"@,
        JsonModel::Text(title),
    ).insert("visibility"@, JsonModel::Text(visibility.name())).insert(
        "voice_id"@,
        JsonModel::Text(Seq::empty()),
    )
}

/// What `create_character` and `edit_character` make of an answer that
/// reports `OK`: the character under `character`.
pub open spec fn character_in(m: JsonModel) -> Option<CharacterView> {
    Character::decode(member_or(m, "character"@, JsonModel::Object(Map::empty())))
}

/// The names of the creators in a list: for each element the text under
/// `name`, empty where there is none.
pub open spec fn creator_names(items: Seq<JsonModel>) -> Seq<Seq<char>> {
    items.map_values(
        |m: JsonModel|
            match text_at(m, "name"@) {
                Some(s) => s,
                None => Seq::empty(),
            },
    )
}

/// The members of the object under `characters_by_curated_category`; none
/// where there is no such object.
pub open spec fn category_members(m: JsonModel) -> Map<Seq<char>, JsonModel> {
    match member(m, "characters_by_curated_category"@) {
        Some(JsonModel::Object(members)) => members,
        _ => Map::empty(),
    }
}

/// The characters by category: for each member of the object its list of
/// characters, empty where the member is no list. Nothing where a character
/// cannot be read.
pub open spec fn decode_categories(m: JsonModel) -> Option<
    Map<Seq<char>, Seq<PartialCharacterView>>,
> {
    let members = category_members(m);
    if forall|k: Seq<char>| #[trigger]
        members.contains_key(k) ==> decode_characters(items_or_empty(members[k])) is Some {
        Some(
            Map::new(
                |k: Seq<char>| members.contains_key(k),
                |k: Seq<char>| decode_characters(items_or_empty(members[k]))->Some_0,
            ),
        )
    } else {
        None
    }
}

/// The contents of the characters by category.
pub open spec fn category_views(s: Seq<(Seq<char>, Vec<PartialCharacter>)>) -> Map<
    Seq<char>,
    Seq<PartialCharacterView>,
> {
    as_map(s).map_values(|v: Vec<PartialCharacter>| character_views(v@))
}

/// The characters that a search found: the list under `characters` of
/// `json` of `data` of `result` of the first element of the answer.
pub open spec fn search_hits(m: JsonModel) -> Seq<JsonModel> {
    match element(m, 0) {
        Some(first) => items_or_none(
            member_or(
                member_or(member_or(first, "result"@, JsonModel::Null), "data"@, JsonModel::Null),
                "json"@,
                JsonModel::Null,
            ),
            "characters"@,
        ),
        None => Seq::empty(),
    }
}

/// The input of a search for characters: the query, percent-encoded, in
/// the envelope of a batch of one.
pub open spec fn search_input(name: Seq<char>) -> JsonModel {
    object1(
        "0"@,
        object1(
            "json"@,
            object1(
                "searchQuery"@,
                JsonModel::Text(percent_encoded(vstd::utf8::encode_utf8(name))),
            ),
        ),
    )
}

/// The calls about characters.
#[derive(Debug, Clone, Copy)]
pub struct CharacterMethods {}

impl CharacterMethods {
    pub fn new() -> (r: Self) {
        CharacterMethods {  }
    }

    /// The request for the curated characters, by category.
    pub fn fetch_characters_by_category_request(headers: StringMap<String>) -> (r: Call)
        ensures
            r.is(
                "GET"@,
                "https://plus.character.ai/chat/curated_categories/characters/"@,
                headers,
                None,
            ),
    {
        Call::plain(
            "GET",
            "https://plus.character.ai/chat/curated_categories/characters/".to_owned(),
            headers,
        )
    }

    /// The curated characters by category, or `None` where a character
    /// cannot be read.
    pub fn fetch_characters_by_category(response: &serde_json::Value) -> (r: Option<
        StringMap<Vec<PartialCharacter>>,
    >)
        ensures
            match r {
                Some(map) => decode_categories(json_model(*response)) == Some(
                    category_views(map@),
                ),
                None => decode_categories(json_model(*response)) is None,
            },
    {
        let mut out: StringMap<Vec<PartialCharacter>> = StringMap::new();
        assert(category_views(out@) =~= Map::<Seq<char>, Seq<PartialCharacterView>>::empty());
        let entries = match value_get(response, "characters_by_curated_category") {
            Some(by_category) => match value_entries(by_category) {
                Some(es) => es,
                None => {
                    assert(decode_categories(json_model(*response)) == Some(
                        category_views(out@),
                    )) by {
                        assert(category_views(out@) =~= Map::new(
                            |k: Seq<char>| category_members(json_model(*response)).contains_key(k),
                            |k: Seq<char>|
                                decode_characters(
                                    items_or_empty(category_members(json_model(*response))[k]),
                                )->Some_0,
                        ));
                    }
                    return Some(out);
                },
            },
            None => {
                assert(decode_categories(json_model(*response)) == Some(category_views(out@))) by {
                    assert(category_views(out@) =~= Map::new(
                        |k: Seq<char>| category_members(json_model(*response)).contains_key(k),
                        |k: Seq<char>|
                            decode_characters(
                                items_or_empty(category_members(json_model(*response))[k]),
                            )->Some_0,
                    ));
                }
                return Some(out);
            },
        };
        let ghost members = category_members(json_model(*response));
        let mut i: usize = 0;
        while i < entries.len()
            invariant
                i <= entries.len(),
                members == category_members(json_model(*response)),
                lists_members(entries@, members),
                forall|j: int|
                    0 <= j < i ==> decode_characters(
                        items_or_empty(members[(#[trigger] entries@[j]).0@]),
                    ) is Some,
                category_views(out@) == Map::<Seq<char>, Seq<PartialCharacterView>>::new(
                    |k: Seq<char>| exists|j: int| 0 <= j < i && (#[trigger] entries@[j]).0@ == k,
                    |k: Seq<char>| decode_characters(items_or_empty(members[k]))->Some_0,
                ),
            decreases entries.len() - i,
        {
            let ghost before = category_views(out@);
            let ghost key = entries@[i as int].0@;
            assert(members.contains_key(key));
            assert(json_model(*entries@[i as int].1) == members[key]);
            let list = match value_as_array(entries[i].1) {
                Some(items) => match characters_from_json(items) {
                    Some(list) => list,
                    None => {
                        return None;
                    },
                },
                None => {
                    let none: Vec<PartialCharacter> = Vec::new();
                    assert(character_views(none@) =~= Seq::<PartialCharacterView>::empty());
                    none
                },
            };
            let n = out.len();
            proof {
                lemma_as_map_upsert(out@, key, list);
            }
            out.insert(entries[i].0.clone(), list);
            assert(category_views(out@) =~= before.insert(key, character_views(list@)));
            i += 1;
            assert(category_views(out@) =~= Map::<Seq<char>, Seq<PartialCharacterView>>::new(
                |k: Seq<char>| exists|j: int| 0 <= j < i && (#[trigger] entries@[j]).0@ == k,
                |k: Seq<char>| decode_characters(items_or_empty(members[k]))->Some_0,
            ));
        }
        assert(category_views(out@) =~= Map::new(
            |k: Seq<char>| members.contains_key(k),
            |k: Seq<char>| decode_characters(items_or_empty(members[k]))->Some_0,
        ));
        assert forall|k: Seq<char>| #[trigger] members.contains_key(k) implies decode_characters(
            items_or_empty(members[k]),
        ) is Some by {
            let j = choose|j: int| 0 <= j < entries@.len() && (#[trigger] entries@[j]).0@ == k;
            assert(decode_characters(items_or_empty(members[entries@[j].0@])) is Some);
        }
        Some(out)
    }

    /// The request for the characters recommended to the client.
    pub fn fetch_recommended_characters_request(headers: StringMap<String>) -> (r: Call)
        ensures
            r.is("GET"@, "https://neo.character.ai/recommendation/v1/user"@, headers, None),
    {
        Call::plain("GET", "https://neo.character.ai/recommendation/v1/user".to_owned(), headers)
    }

    /// The recommended characters: the list under `characters`, empty
    /// where there is no list. `None` where a character cannot be read.
    pub fn fetch_recommended_characters(response: &serde_json::Value) -> (r: Option<
        Vec<PartialCharacter>,
    >)
        ensures
            match r {
                Some(list) => decode_characters_under(json_model(*response), "characters"@, false)
                    == Some(character_views(list@)),
                None => decode_characters_under(json_model(*response), "characters"@, false)
                    is None,
            },
    {
        characters_under(response, "characters", false)
    }

    /// The request for the featured characters.
    pub fn fetch_featured_characters_request(headers: StringMap<String>) -> (r: Call)
        ensures
            r.is(
                "GET"@,
                "https://plus.character.ai/chat/characters/featured_v2/"@,
                headers,
                None,
            ),
    {
        Call::plain(
            "GET",
            "https://plus.character.ai/chat/characters/featured_v2/".to_owned(),
            headers,
        )
    }

    /// The featured characters, read as the recommended ones.
    pub fn fetch_featured_characters(response: &serde_json::Value) -> (r: Option<
        Vec<PartialCharacter>,
    >)
        ensures
            match r {
                Some(list) => decode_characters_under(json_model(*response), "characters"@, false)
                    == Some(character_views(list@)),
                None => decode_characters_under(json_model(*response), "characters"@, false)
                    is None,
            },
    {
        characters_under(response, "characters", false)
    }

    /// The request for the characters that resemble a given one.
    pub fn fetch_similar_characters_request(character_id: &str, headers: StringMap<String>) -> (r:
        Call)
        ensures
            r.is(
                "GET"@,
                "https://neo.character.ai/recommendation/v1/character/"@ + character_id@,
                headers,
                None,
            ),
    {
        Call::plain(
            "GET",
            "https://neo.character.ai/recommendation/v1/character/".to_owned().concat(
                character_id,
            ),
            headers,
        )
    }

    /// The similar characters, read as the recommended ones.
    pub fn fetch_similar_characters(response: &serde_json::Value) -> (r: Option<
        Vec<PartialCharacter>,
    >)
        ensures
            match r {
                Some(list) => decode_characters_under(json_model(*response), "characters"@, false)
                    == Some(character_views(list@)),
                None => decode_characters_under(json_model(*response), "characters"@, false)
                    is None,
            },
    {
        characters_under(response, "characters", false)
    }

    /// The request for the full record of a character.
    pub fn fetch_character_info_request(character_id: &str, headers: StringMap<String>) -> (r:
        Call)
        ensures
            r.is(
                "POST"@,
                "https://plus.character.ai/chat/character/info/"@,
                headers,
                Some(
                    BodyView::Text(
                        json_text(object1("external_id"@, JsonModel::Text(character_id@))),
                    ),
                ),
            ),
    {
        let mut body = value_object();
        value_set(&mut body, "external_id", text_value(character_id));
        Call::with_json(
            "POST",
            "https://plus.character.ai/chat/character/info/".to_owned(),
            headers,
            &body,
        )
    }

    /// The full record of a character. An answer that does not report `OK`
    /// is a failure whose text is what stands under `error`; `None` where
    /// the record cannot be read.
    pub fn fetch_character_info(response: &serde_json::Value) -> (r: Option<
        Result<Character, String>,
    >)
        ensures
            match r {
                Some(Ok(c)) => reports_ok(json_model(*response)) && character_in(
                    json_model(*response),
                ) == Some(c@),
                Some(Err(e)) => !reports_ok(json_model(*response)) && e@ == json_text(
                    member_or(json_model(*response), "error"@, JsonModel::Text(Seq::empty())),
                ),
                None => reports_ok(json_model(*response)) && character_in(json_model(*response))
                    is None,
            },
    {
        proof {
            reveal_strlit("");
        }
        assert(""@ =~= Seq::<char>::empty());
        if !status_ok(response) {
            let message = match value_get(response, "error") {
                Some(e) => value_text(e),
                None => value_text(&text_value("")),
            };
            return Some(Err(message));
        }
        match Self::character_of(response) {
            Some(c) => Some(Ok(c)),
            None => None,
        }
    }

    fn character_of(response: &serde_json::Value) -> (r: Option<Character>)
        ensures
            match r {
                Some(c) => character_in(json_model(*response)) == Some(c@),
                None => character_in(json_model(*response)) is None,
            },
    {
        let blank = value_object();
        match value_get(response, "character") {
            Some(c) => Character::try_from_json(c),
            None => Character::try_from_json(&blank),
        }
    }

    /// The request that searches for characters by name.
    pub fn search_characters_request(character_name: &str, headers: StringMap<String>) -> (r:
        Call)
        ensures
            r.is(
                "GET"@,
                "https://character.ai/api/trpc/search.search?batch=1&input="@ + json_text(
                    search_input(character_name@),
                ),
                headers,
                None,
            ),
    {
        let mut query = value_object();
        value_set(
            &mut query,
            "searchQuery",
            text_value(percent_encode(character_name).as_str()),
        );
        let mut inner = value_object();
        value_set(&mut inner, "json", query);
        let mut payload = value_object();
        value_set(&mut payload, "0", inner);
        let url = "https://character.ai/api/trpc/search.search?batch=1&input=".to_owned().concat(
            value_text(&payload).as_str(),
        );
        Call::plain("GET", url, headers)
    }

    /// The characters that a search found, or `None` where one of them
    /// cannot be read.
    pub fn search_characters(response: &serde_json::Value) -> (r: Option<Vec<PartialCharacter>>)
        ensures
            match r {
                Some(list) => decode_characters(search_hits(json_model(*response))) == Some(
                    character_views(list@),
                ),
                None => decode_characters(search_hits(json_model(*response))) is None,
            },
    {
        let none: Vec<PartialCharacter> = Vec::new();
        assert(character_views(none@) =~= Seq::<PartialCharacterView>::empty());
        let null = value_null();
        let first = match value_get_index(response, 0) {
            Some(f) => f,
            None => {
                return Some(none);
            },
        };
        let result = match value_get(first, "result") {
            Some(x) => x,
            None => &null,
        };
        let data = match value_get(result, "data") {
            Some(x) => x,
            None => &null,
        };
        let json = match value_get(data, "json") {
            Some(x) => x,
            None => &null,
        };
        match listing(json, "characters") {
            Listing::Items(items) => characters_from_json(items),
            _ => Some(none),
        }
    }

    /// The request that searches for creators by name.
    pub fn search_creators_request(creator_name: &str, headers: StringMap<String>) -> (r: Call)
        ensures
            r.is(
                "GET"@,
                "https://plus.character.ai/chat/creators/search/?query="@ + percent_encoded(
                    vstd::utf8::encode_utf8(creator_name@),
                ),
                headers,
                None,
            ),
    {
        let url = "https://plus.character.ai/chat/creators/search/?query=".to_owned().concat(
            percent_encode(creator_name).as_str(),
        );
        Call::plain("GET", url, headers)
    }

    /// The names of the creators that a search found: one for each element
    /// of the list under `creators`.
    pub fn search_creators(response: &serde_json::Value) -> (r: Vec<String>)
        ensures
            string_views(r@) == creator_names(items_or_none(json_model(*response), "creators"@)),
    {
        proof {
            reveal_strlit("");
        }
        assert(""@ =~= Seq::<char>::empty());
        let mut out: Vec<String> = Vec::new();
        match listing(response, "creators") {
            Listing::Items(items) => {
                let mut i: usize = 0;
                while i < items.len()
                    invariant
                        i <= items.len(),
                        out@.len() == i,
                        forall|j: int|
                            0 <= j < i ==> (#[trigger] out@[j])@ == (match text_at(
                                json_model(items@[j]),
                                "name"@,
                            ) {
                                Some(s) => s,
                                None => Seq::empty(),
                            }),
                    decreases items.len() - i,
                {
                    let name = match get_text(&items[i], "name") {
                        Some(s) => s,
                        None => String::new(),
                    };
                    out.push(name);
                    i += 1;
                }
                assert(string_views(out@) =~= creator_names(models(items@)));
            },
            _ => {
                assert(string_views(out@) =~= creator_names(Seq::<JsonModel>::empty()));
            },
        }
        out
    }

    /// The request that votes on a character: up, down, or no vote.
    pub fn add_like_to_character_request(
        character_id: &str,
        like: Option<bool>,
        headers: StringMap<String>,
    ) -> (r: Call)
        ensures
            r.is(
                "POST"@,
                "https://plus.character.ai/chat/character/vote/"@,
                headers,
                Some(
                    BodyView::Text(
                        json_text(
                            JsonModel::Object(
                                Map::empty().insert(
                                    "external_id"@,
                                    JsonModel::Text(character_id@),
                                ).insert(
                                    "vote"@,
                                    match like {
                                        Some(b) => JsonModel::Bool(b),
                                        None => JsonModel::Null,
                                    },
                                ),
                            ),
                        ),
                    ),
                ),
            ),
    {
        let mut body = value_object();
        value_set(&mut body, "external_id", text_value(character_id));
        value_set(
            &mut body,
            "vote",
            match like {
                Some(b) => value_bool(b),
                None => value_null(),
            },
        );
        Call::with_json(
            "POST",
            "https://plus.character.ai/chat/character/vote/".to_owned(),
            headers,
            &body,
        )
    }

    /// Whether the vote was taken: the call went through and its answer
    /// reports `OK`.
    pub fn add_like_to_character(outcome: &Result<serde_json::Value, RequesterError>) -> (r: bool)
        ensures
            r == match outcome {
                Ok(response) => reports_ok(json_model(*response)),
                Err(_) => false,
            },
    {
        confirmed(outcome)
    }

    fn check_fields(
        name: &str,
        greeting: &str,
        title: &str,
        description: &str,
        definition: &str,
    ) -> (r: Option<String>)
        ensures
            match r {
                Some(e) => character_complaint(
                    name@,
                    greeting@,
                    title@,
                    description@,
                    definition@,
                ) == Some(e@),
                None => character_complaint(name@, greeting@, title@, description@, definition@)
                    is None,
            },
    {
        if len_of(name) < 3 || len_of(name) > 20 {
            Some(
                numbered(
                    "name cannot be less than 3 characters or more than 20 (is ",
                    len_of(name),
                    " characters)",
                ),
            )
        } else if len_of(greeting) < 3 || len_of(greeting) > 2048 {
            Some(
                numbered(
                    "greeting cannot be less than 3 characters or more than 2048 (is ",
                    len_of(greeting),
                    " characters)",
                ),
            )
        } else if len_of(title) != 0 && (len_of(title) < 3 || len_of(title) > 50) {
            Some(
                numbered(
                    "title cannot be less than 3 characters or more than 50 (is ",
                    len_of(title),
                    " characters)",
                ),
            )
        } else if len_of(description) > 500 {
            Some(
                numbered(
                    "description cannot be less than more than 500 (is ",
                    len_of(description),
                    " characters)",
                ),
            )
        } else if len_of(definition) > 32000 {
            Some(
                numbered(
                    "definition cannot be more than 32000 (is ",
                    len_of(definition),
                    " characters)",
                ),
            )
        } else {
            None
        }
    }

    fn fields(
        name: &str,
        greeting: &str,
        title: &str,
        description: &str,
        definition: &str,
        copyable: bool,
        visibility: Visibility,
        avatar_rel_path: &str,
        default_voice_id: &str,
    ) -> (r: serde_json::Value)
        ensures
            json_model(r) == JsonModel::Object(
                character_fields(
                    name@,
                    greeting@,
                    title@,
                    description@,
                    definition@,
                    copyable,
                    visibility,
                    avatar_rel_path@,
                    default_voice_id@,
                ),
            ),
    {
        proof {
            reveal_strlit("");
        }
        assert(""@ =~= Seq::<char>::empty());
        let none: Vec<serde_json::Value> = Vec::new();
        assert(models(none@) =~= Seq::<JsonModel>::empty());
        let mut body = value_object();
        value_set(&mut body, "avatar_rel_path", text_value(avatar_rel_path));
        value_set(&mut body, "base_img_prompt", text_value(""));
        value_set(&mut body, "categories", value_array(none));
        value_set(&mut body, "copyable", value_bool(copyable));
        value_set(&mut body, "default_voice_id", text_value(default_voice_id));
        value_set(&mut body, "definition", text_value(definition));
        value_set(&mut body, "description", text_value(description));
        value_set(&mut body, "greeting", text_value(greeting));
        value_set(&mut body, "img_gen_enabled", value_bool(false));
        value_set(&mut body, "name", text_value(name));
        value_set(&mut body, "strip_img_prompt_from_msg", value_bool(false));
        value_set(&mut body, "title", text_value(title));
        value_set(&mut body, "visibility", text_value(visibility.to_string()));
        value_set(&mut body, "voice_id", text_value(""));
        body
    }

    /// The request that makes a character, under a fresh identifier. The
    /// fields are checked first; the error is the complaint against them.
    pub fn create_character_request(
        name: &str,
        greeting: &str,
        title: &str,
        description: &str,
        definition: &str,
        copyable: bool,
        visibility: Visibility,
        avatar_rel_path: &str,
        default_voice_id: &str,
        headers: StringMap<String>,
    ) -> (r: Result<Call, String>)
        ensures
            match r {
                Ok(call) => character_complaint(
                    name@,
                    greeting@,
                    title@,
                    description@,
                    definition@,
                ) is None && exists|identifier: Seq<char>|
                    identifier.len() == 36 && call.is(
                        "POST"@,
                        "https://plus.character.ai/chat/character/create/"@,
                        headers,
                        Some(
                            BodyView::Text(
                                json_text(
                                    JsonModel::Object(
                                        character_fields(
                                            name@,
                                            greeting@,
                                            title@,
                                            description@,
                                            definition@,
                                            copyable,
                                            visibility,
                                            avatar_rel_path@,
                                            default_voice_id@,
                                        ).insert(
                                            "identifier"@,
                                            #[trigger] identified(identifier),
                                        ),
                                    ),
                                ),
                            ),
                        ),
                    ),
                Err(e) => character_complaint(name@, greeting@, title@, description@, definition@)
                    == Some(e@),
            },
    {
        match Self::check_fields(name, greeting, title, description, definition) {
            Some(e) => {
                return Err(e);
            },
            None => {},
        }
        let identifier = fresh_id();
        let mut body = Self::fields(
            name,
            greeting,
            title,
            description,
            definition,
            copyable,
            visibility,
            avatar_rel_path,
            default_voice_id,
        );
        value_set(
            &mut body,
            "identifier",
            text_value("id:".to_owned().concat(identifier.as_str()).as_str()),
        );
        let call = Call::with_json(
            "POST",
            "https://plus.character.ai/chat/character/create/".to_owned(),
            headers,
            &body,
        );
        assert(json_model(body) == JsonModel::Object(
            character_fields(
                name@,
                greeting@,
                title@,
                description@,
                definition@,
                copyable,
                visibility,
                avatar_rel_path@,
                default_voice_id@,
            ).insert("identifier"@, identified(identifier@)),
        ));
        Ok(call)
    }

    /// Reads the answer to `create_character`. An answer that does not
    /// report `OK` is a failure; `None` where the character cannot be read.
    pub fn create_character(response: &serde_json::Value) -> (r: Option<
        Result<Character, RequesterError>,
    >)
        ensures
            match r {
                Some(Ok(c)) => reports_ok(json_model(*response)) && character_in(
                    json_model(*response),
                ) == Some(c@),
                Some(Err(e)) => !reports_ok(json_model(*response)) && e@
                    == RequesterErrorView::RequestFailed("malformed JSON object received"@),
                None => reports_ok(json_model(*response)) && character_in(json_model(*response))
                    is None,
            },
    {
        if status_ok(response) {
            match Self::character_of(response) {
                Some(c) => Some(Ok(c)),
                None => None,
            }
        } else {
            Some(Err(RequesterError::RequestFailed("malformed JSON object received".to_owned())))
        }
    }

    /// The request that changes a character. The fields are checked first;
    /// the error is the complaint against them.
    pub fn edit_character_request(
        character_id: &str,
        name: &str,
        greeting: &str,
        title: &str,
        description: &str,
        definition: &str,
        copyable: bool,
        visibility: Visibility,
        avatar_rel_path: &str,
        default_voice_id: &str,
        headers: StringMap<String>,
    ) -> (r: Result<Call, String>)
        ensures
            match r {
                Ok(call) => character_complaint(
                    name@,
                    greeting@,
                    title@,
                    description@,
                    definition@,
                ) is None && call.is(
                    "POST"@,
                    "https://plus.character.ai/chat/character/update/"@,
                    headers,
                    Some(
                        BodyView::Text(
                            json_text(
                                JsonModel::Object(
                                    character_fields(
                                        name@,
                                        greeting@,
                                        title@,
                                        description@,
                                        definition@,
                                        copyable,
                                        visibility,
                                        avatar_rel_path@,
                                        default_voice_id@,
                                    ).insert("archived"@, JsonModel::Bool(false)).insert(
                                        "external_id"@,
                                        JsonModel::Text(character_id@),
                                    ),
                                ),
                            ),
                        ),
                    ),
                ),
                Err(e) => character_complaint(name@, greeting@, title@, description@, definition@)
                    == Some(e@),
            },
    {
        match Self::check_fields(name, greeting, title, description, definition) {
            Some(e) => {
                return Err(e);
            },
            None => {},
        }
        let mut body = Self::fields(
            name,
            greeting,
            title,
            description,
            definition,
            copyable,
            visibility,
            avatar_rel_path,
            default_voice_id,
        );
        value_set(&mut body, "archived", value_bool(false));
        value_set(&mut body, "external_id", text_value(character_id));
        Ok(
            Call::with_json(
                "POST",
                "https://plus.character.ai/chat/character/update/".to_owned(),
                headers,
                &body,
            ),
        )
    }

    /// Reads the answer to `edit_character`. An answer that does not
    /// report `OK` is a failure that quotes what stands under `error`;
    /// `None` where the character cannot be read.
    pub fn edit_character(response: &serde_json::Value) -> (r: Option<
        Result<Character, RequesterError>,
    >)
        ensures
            match r {
                Some(Ok(c)) => reports_ok(json_model(*response)) && character_in(
                    json_model(*response),
                ) == Some(c@),
                Some(Err(e)) => !reports_ok(json_model(*response)) && e@
                    == RequesterErrorView::RequestFailed(
                    "cannot edit character: "@ + quoted_text(
                        json_text(
                            member_or(
                                json_model(*response),
                                "error"@,
                                JsonModel::Text(Seq::empty()),
                            ),
                        ),
                    ),
                ),
                None => reports_ok(json_model(*response)) && character_in(json_model(*response))
                    is None,
            },
    {
        if status_ok(response) {
            match Self::character_of(response) {
                Some(c) => Some(Ok(c)),
                None => None,
            }
        } else {
            proof {
                reveal_strlit("");
            }
            assert(""@ =~= Seq::<char>::empty());
            let error = match value_get(response, "error") {
                Some(e) => value_text(e),
                None => value_text(&text_value("")),
            };
            let message = "cannot edit character: ".to_owned().concat(
                quoted(error.as_str()).as_str(),
            );
            Some(Err(RequesterError::RequestFailed(message)))
        }
    }
}

/// The identifier of a new record: `id:` and a fresh id.
pub open spec fn identified(id: Seq<char>) -> JsonModel {
    JsonModel::Text("id:"@ + id)
}

} // verus!
