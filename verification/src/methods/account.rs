//! The calls about the client's own account: profile, settings, personas.

use vstd::prelude::*;
use vstd::string::StringExecFns;
use crate::json::{
    bool_strict, get_bool_strict, json_debug_text, json_model, json_text, member, member_or, text_value,
    value_array, value_bool, value_debug, value_get, value_is_null, value_object, value_set,
    value_text, value_u64, JsonModel,
};
use crate::methods::{
    characters_under, decode_characters_under, decode_personas_under, decode_voices_under,
    persona_views, personas_under, reports_ok, status_ok, string_views, strings_under, texts_under,
    voice_views, voices_under, Call,
};
use crate::outside::fresh_id;
use crate::requester::{BodyView, RequesterError, RequesterErrorView};
use crate::string_map::{as_map, lemma_as_map_upsert, StringMap};
use crate::text::{byte_len, decimal, len_of, numbered};
use crate::types::character::PartialCharacter;
use crate::types::media::Voice;
use crate::types::user::{
    character_views, text_map, Account, AccountView, Persona, PersonaView, Settings, SettingsView,
};

verus! {

/// What a persona call makes of its answer. Unless the answer reports `OK`
/// and carries a persona, the call failed, with the text of what stands
/// under `error`. Else it gives the persona, and nothing where that cannot
/// be read.
pub open spec fn persona_answer(m: JsonModel) -> Option<Result<PersonaView, Seq<char>>> {
    if !reports_ok(m) || member_or(m, "persona"@, JsonModel::Null) is Null {
        Some(Err(json_text(member_or(m, "error"@, JsonModel::Text(Seq::empty())))))
    } else {
        match Persona::decode(member(m, "persona"@)->Some_0) {
            Some(p) => Some(Ok(p)),
            None => None,
        }
    }
}

/// The content of the outcome of a persona call.
pub open spec fn persona_outcome_view(r: Option<Result<Persona, RequesterError>>) -> Option<
    Result<PersonaView, Seq<char>>,
> {
    match r {
        Some(Ok(p)) => Some(Ok(p@)),
        Some(Err(RequesterError::RequestFailed(m))) => Some(Err(m@)),
        _ => None,
    }
}

/// What is said against the fields of an account, if anything: the user
/// name has 2 to 20 bytes, the name 2 to 50, the bio at most 500.
pub open spec fn edit_account_complaint(name: Seq<char>, username: Seq<char>, bio: Seq<char>) -> Option<
    Seq<char>,
> {
    if byte_len(username) < 2 || byte_len(username) > 20 {
        Some(
            "username cannot be less than 2 characters or more than 20 (is "@ + decimal(
                byte_len(username),
            ) + " characters)"@,
        )
    } else if byte_len(name) < 2 || byte_len(name) > 50 {
        Some(
            "name cannot be less than 2 characters or more than 50 (is "@ + decimal(byte_len(name))
                + " characters)"@,
        )
    } else if byte_len(bio) > 500 {
        Some("bio cannot be more than 500 characters (is "@ + decimal(byte_len(bio)) + " characters)"@)
    } else {
        None
    }
}

/// The body of `edit_account`. The picture is named only where a path is
/// given, and the avatar is then an uploaded one.
pub open spec fn edit_account_body(
    name: Seq<char>,
    username: Seq<char>,
    bio: Seq<char>,
    avatar_path: Seq<char>,
) -> JsonModel {
    let base = Map::<Seq<char>, JsonModel>::empty().insert("name"@, JsonModel::Text(name)).insert(
        "username"@,
        JsonModel::Text(username),
    ).insert("bio"@, JsonModel::Text(bio)).insert(
        "avatar_type"@,
        JsonModel::Text(
            if byte_len(avatar_path) > 0 {
                "UPLOADED"@
            } else {
                "DEFAULT"@
            },
        ),
    );
    JsonModel::Object(
        if byte_len(avatar_path) > 0 {
            base.insert("avatar_rel_path"@, JsonModel::Text(avatar_path))
        } else {
            base
        },
    )
}

/// What is said against the fields of a new persona, if anything: the name
/// has 3 to 20 bytes, the definition at most 720.
pub open spec fn create_persona_complaint(name: Seq<char>, definition: Seq<char>) -> Option<
    Seq<char>,
> {
    if byte_len(name) < 3 || byte_len(name) > 20 {
        Some(
            "name cannot be less than 3 characters or more than 20 (is "@ + decimal(byte_len(name))
                + " characters)"@,
        )
    } else if byte_len(definition) > 720 {
        Some(
            "definition cannot be more than 720 characters (is "@ + decimal(byte_len(definition))
                + " characters)"@,
        )
    } else {
        None
    }
}

/// The body of `create_persona`.
pub open spec fn create_persona_body(
    name: Seq<char>,
    definition: Seq<char>,
    avatar_path: Seq<char>,
    identifier: Seq<char>,
) -> JsonModel {
    JsonModel::Object(
        Map::empty().insert("avatar_file_name"@, JsonModel::Text(Seq::empty())).insert(
            "avatar_rel_path"@,
            JsonModel::Text(avatar_path),
        ).insert("base_img_prompt"@, JsonModel::Text(Seq::empty())).insert(
            "categories"@,
            JsonModel::Array(Seq::empty()),
        ).insert("copyable"@, JsonModel::Bool(false)).insert(
            "definition"@,
            JsonModel::Text(definition),
        ).insert("description"@, JsonModel::Text("This is my persona."@)).insert(
            "greeting"@,
            JsonModel::Text("Hello! This is my persona"@),
        ).insert("identifier"@, JsonModel::Text("id:"@ + identifier)).insert(
            "img_gen_enabled"@,
            JsonModel::Bool(false),
        ).insert("name"@, JsonModel::Text(name)).insert(
            "strip_img_prompt_from_msg"@,
            JsonModel::Bool(false),
        ).insert("title"@, JsonModel::Text(name)).insert(
            "visibility"@,
            JsonModel::Text("PRIVATE"@),
        ).insert("voice_id"@, JsonModel::Text(Seq::empty())),
    )
}

/// Whether a name can be the name of a persona: 3 to 20 bytes.
pub open spec fn persona_name_fits(name: Seq<char>) -> bool {
    3 <= byte_len(name) <= 20
}

/// The name that an edited persona gets: the given one where it fits, else
/// the one that the persona has.
pub open spec fn edited_name(name: Seq<char>, persona: PersonaView) -> Seq<char> {
    if persona_name_fits(name) {
        name
    } else {
        persona.name
    }
}

/// What is said against the fields of an edited persona, if anything.
pub open spec fn edit_persona_complaint(
    name: Seq<char>,
    definition: Seq<char>,
    persona: PersonaView,
) -> Option<Seq<char>> {
    if !persona_name_fits(edited_name(name, persona)) {
        Some(
            "name cannot be less than 3 characters or more than 20 characters (is "@ + decimal(
                byte_len(persona.name),
            )
                + " characters). Please provide a Persona object to `edit_persona` for it to fall back to if you plan to trigger this data validation error."@,
        )
    } else if byte_len(definition) > 720 {
        Some(
            "definition cannot be more than 720 characters (is "@ + decimal(byte_len(definition))
                + " characters)"@,
        )
    } else {
        None
    }
}

/// The body of a persona update: the record of the persona as the service
/// keeps it, owned by the account.
pub open spec fn persona_update_body(
    id: Seq<char>,
    name: Seq<char>,
    definition: Seq<char>,
    avatar_path: Seq<char>,
    description: Seq<char>,
    greeting: Seq<char>,
    account: AccountView,
    archived: bool,
) -> JsonModel {
    let base = Map::<Seq<char>, JsonModel>::empty().insert(
        "avatar_file_name"@,
        JsonModel::Text(avatar_path),
    ).insert("avatar_rel_path"@, JsonModel::Text(avatar_path)).insert(
        "default_voice_id"@,
        JsonModel::Text(Seq::empty()),
    ).insert("is_persona"@, JsonModel::Bool(true)).insert(
        "copyable"@,
        JsonModel::Bool(false),
    ).insert("definition"@, JsonModel::Text(definition)).insert(
        "external_id"@,
        JsonModel::Text(id),
    ).insert("description"@, JsonModel::Text(description)).insert(
        "greeting"@,
        JsonModel::Text(greeting),
    ).insert("enabled"@, JsonModel::Bool(false)).insert(
        "img_gen_enabled"@,
        JsonModel::Bool(false),
    ).insert("name"@, JsonModel::Text(name)).insert(
        "participant__name"@,
        JsonModel::Text(name),
    ).insert("participant__num_interactions"@, JsonModel::Integer(0)).insert(
        "strip_img_prompt_from_msg"@,
        JsonModel::Bool(false),
    ).insert("title"@, JsonModel::Text(name)).insert(
        "user__id"@,
        JsonModel::Integer(account.id as int),
    ).insert("user__username"@, JsonModel::Text(account.username)).insert(
        "visibility"@,
        JsonModel::Text("PRIVATE"@),
    );
    JsonModel::Object(
        if archived {
            base.insert("archived"@, JsonModel::Bool(true))
        } else {
            base
        },
    )
}

/// The settings after an update: the default persona where one is given,
/// and the persona of a character where both are given.
pub open spec fn updated_settings(
    before: SettingsView,
    default_persona_id: Option<Seq<char>>,
    persona_override: Option<Seq<char>>,
    character_id: Option<Seq<char>>,
) -> SettingsView {
    SettingsView {
        default_persona_id: match default_persona_id {
            Some(id) => id,
            None => before.default_persona_id,
        },
        persona_overrides: match (character_id, persona_override) {
            (Some(c), Some(p)) => before.persona_overrides.insert(c, p),
            _ => before.persona_overrides,
        },
        ..before
    }
}

/// What `update_settings` makes of its answer. The answer carries a
/// boolean `success`, false where absent. Where it is set the call failed;
/// else the answer holds the new settings. Nothing where `success` is no
/// boolean or the settings cannot be read.
pub open spec fn settings_answer(m: JsonModel) -> Option<Result<SettingsView, ()>> {
    match bool_strict(m, "success"@, false) {
        Some(true) => Some(Err(())),
        Some(false) => match Settings::decode(m) {
            Some(s) => Some(Ok(s)),
            None => None,
        },
        None => None,
    }
}

/// The text that is given, or the empty text where none is.
pub open spec fn or_empty(s: Option<&str>) -> Seq<char> {
    match s {
        Some(t) => t@,
        None => Seq::empty(),
    }
}

/// The calls about the client's own account.
#[derive(Debug, Clone, Copy)]
pub struct AccountMethods {}

impl AccountMethods {
    pub fn new() -> (r: Self) {
        AccountMethods {  }
    }

    /// The request for the profile.
    pub fn fetch_profile_request(headers: StringMap<String>) -> (r: Call)
        ensures
            r.is("GET"@, "https://plus.character.ai/chat/user/"@, headers, None),
    {
        Call::plain("GET", "https://plus.character.ai/chat/user/".to_owned(), headers)
    }

    /// The profile: the account under `user`, `user`. `None` where the
    /// answer has no such member or the account cannot be read.
    pub fn fetch_profile(response: &serde_json::Value) -> (r: Option<Account>)
        ensures
            match r {
                Some(a) => member(json_model(*response), "user"@) is Some && member(
                    member(json_model(*response), "user"@)->Some_0,
                    "user"@,
                ) is Some && Account::decode(
                    member(member(json_model(*response), "user"@)->Some_0, "user"@)->Some_0,
                ) == Some(a@),
                None => member(json_model(*response), "user"@) is None || member(
                    member(json_model(*response), "user"@)->Some_0,
                    "user"@,
                ) is None || Account::decode(
                    member(member(json_model(*response), "user"@)->Some_0, "user"@)->Some_0,
                ) is None,
            },
    {
        let outer = value_get(response, "user")?;
        let inner = value_get(outer, "user")?;
        Account::try_from_json(inner)
    }

    /// The request for the settings.
    pub fn fetch_settings_request(headers: StringMap<String>) -> (r: Call)
        ensures
            r.is("GET"@, "https://plus.character.ai/chat/user/settings/"@, headers, None),
    {
        Call::plain("GET", "https://plus.character.ai/chat/user/settings/".to_owned(), headers)
    }

    /// The settings, or `None` where they cannot be read.
    pub fn fetch_settings(response: &serde_json::Value) -> (r: Option<Settings>)
        ensures
            match r {
                Some(s) => Settings::decode(json_model(*response)) == Some(s@),
                None => Settings::decode(json_model(*response)) is None,
            },
    {
        Settings::try_from_json(response)
    }

    /// The request for the followers.
    pub fn fetch_followers_request(headers: StringMap<String>) -> (r: Call)
        ensures
            r.is("GET"@, "https://plus.character.ai/chat/user/followers/"@, headers, None),
    {
        Call::plain("GET", "https://plus.character.ai/chat/user/followers/".to_owned(), headers)
    }

    /// The followers: the strings of the list under `followers`. `None`
    /// where something other than a list stands there.
    pub fn fetch_followers(response: &serde_json::Value) -> (r: Option<Vec<String>>)
        ensures
            match r {
                Some(list) => texts_under(json_model(*response), "followers"@, true) == Some(
                    string_views(list@),
                ),
                None => texts_under(json_model(*response), "followers"@, true) is None,
            },
    {
        strings_under(response, "followers", true)
    }

    /// The request for the accounts that the client follows.
    pub fn fetch_following_request(headers: StringMap<String>) -> (r: Call)
        ensures
            r.is("GET"@, "https://plus.character.ai/chat/user/following/"@, headers, None),
    {
        Call::plain("GET", "https://plus.character.ai/chat/user/following/".to_owned(), headers)
    }

    /// The followed accounts: the strings of the list under `following`.
    /// `None` where something other than a list stands there.
    pub fn fetch_following(response: &serde_json::Value) -> (r: Option<Vec<String>>)
        ensures
            match r {
                Some(list) => texts_under(json_model(*response), "following"@, true) == Some(
                    string_views(list@),
                ),
                None => texts_under(json_model(*response), "following"@, true) is None,
            },
    {
        strings_under(response, "following", true)
    }

    /// The request for one persona.
    pub fn fetch_persona_request(id: &str, headers: StringMap<String>) -> (r: Call)
        ensures
            r.is("GET"@, "https://plus.character.ai/chat/persona/?id="@ + id@, headers, None),
    {
        Call::plain(
            "GET",
            "https://plus.character.ai/chat/persona/?id=".to_owned().concat(id),
            headers,
        )
    }

    /// The persona, or `None` where it cannot be read.
    pub fn fetch_persona(response: &serde_json::Value) -> (r: Option<Persona>)
        ensures
            match r {
                Some(p) => Persona::decode(json_model(*response)) == Some(p@),
                None => Persona::decode(json_model(*response)) is None,
            },
    {
        Persona::try_from_json(response)
    }

    /// The request for all personas.
    pub fn fetch_personas_request(headers: StringMap<String>) -> (r: Call)
        ensures
            r.is(
                "GET"@,
                "https://plus.character.ai/chat/personas/?force_refresh=1"@,
                headers,
                None,
            ),
    {
        Call::plain(
            "GET",
            "https://plus.character.ai/chat/personas/?force_refresh=1".to_owned(),
            headers,
        )
    }

    /// The personas: the list under `personas`. `None` where something
    /// other than a list stands there or a persona cannot be read.
    pub fn fetch_personas(response: &serde_json::Value) -> (r: Option<Vec<Persona>>)
        ensures
            match r {
                Some(list) => decode_personas_under(json_model(*response), "personas"@, true)
                    == Some(persona_views(list@)),
                None => decode_personas_under(json_model(*response), "personas"@, true) is None,
            },
    {
        personas_under(response, "personas", true)
    }

    /// The request for the client's own characters.
    pub fn fetch_characters_request(headers: StringMap<String>) -> (r: Call)
        ensures
            r.is("GET"@, "https://plus.character.ai/chat/chracters/?scope=user"@, headers, None),
    {
        Call::plain(
            "GET",
            "https://plus.character.ai/chat/chracters/?scope=user".to_owned(),
            headers,
        )
    }

    /// The client's own characters: the list under `characters`. `None`
    /// where something other than a list stands there or a character
    /// cannot be read.
    pub fn fetch_characters(response: &serde_json::Value) -> (r: Option<Vec<PartialCharacter>>)
        ensures
            match r {
                Some(list) => decode_characters_under(json_model(*response), "characters"@, true)
                    == Some(character_views(list@)),
                None => decode_characters_under(json_model(*response), "characters"@, true)
                    is None,
            },
    {
        characters_under(response, "characters", true)
    }

    /// The request for the characters that the client voted up.
    pub fn fetch_characters_ranked_request(headers: StringMap<String>) -> (r: Call)
        ensures
            r.is(
                "GET"@,
                "https://plus.character.ai/chat/user/characters/upvoted/"@,
                headers,
                None,
            ),
    {
        Call::plain(
            "GET",
            "https://plus.character.ai/chat/user/characters/upvoted/".to_owned(),
            headers,
        )
    }

    /// The characters that the client voted up: the list under
    /// `characters`, read as in `fetch_characters`.
    pub fn fetch_characters_ranked(response: &serde_json::Value) -> (r: Option<
        Vec<PartialCharacter>,
    >)
        ensures
            match r {
                Some(list) => decode_characters_under(json_model(*response), "characters"@, true)
                    == Some(character_views(list@)),
                None => decode_characters_under(json_model(*response), "characters"@, true)
                    is None,
            },
    {
        characters_under(response, "characters", true)
    }

    /// The request for the client's own voices.
    pub fn fetch_voices_request(headers: StringMap<String>) -> (r: Call)
        ensures
            r.is(
                "GET"@,
                "https://plus.character.ai/multimodal/api/v1/voices/user"@,
                headers,
                None,
            ),
    {
        Call::plain(
            "GET",
            "https://plus.character.ai/multimodal/api/v1/voices/user".to_owned(),
            headers,
        )
    }

    /// The client's own voices: the list under `voices`. `None` where
    /// something other than a list stands there or a voice cannot be read.
    pub fn fetch_voices(response: &serde_json::Value) -> (r: Option<Vec<Voice>>)
        ensures
            match r {
                Some(list) => decode_voices_under(json_model(*response), "voices"@, true) == Some(
                    voice_views(list@),
                ),
                None => decode_voices_under(json_model(*response), "voices"@, true) is None,
            },
    {
        voices_under(response, "voices", true)
    }

    /// Changes settings before they are sent. An update names a default
    /// persona, a persona for a character, or a voice; one that names none
    /// of them is refused, with the complaint as its error.
    pub fn apply_settings_update(
        settings: &mut Settings,
        default_persona_id: Option<&str>,
        persona_override: Option<&str>,
        voice_override: Option<&str>,
        character_id: Option<&str>,
    ) -> (r: Result<(), String>)
        ensures
            match r {
                Ok(_) => !(default_persona_id is None && persona_override is None
                    && voice_override is None) && final(settings)@ == updated_settings(
                    old(settings)@,
                    match default_persona_id {
                        Some(s) => Some(s@),
                        None => None,
                    },
                    match persona_override {
                        Some(s) => Some(s@),
                        None => None,
                    },
                    match character_id {
                        Some(s) => Some(s@),
                        None => None,
                    },
                ),
                Err(e) => default_persona_id is None && persona_override is None
                    && voice_override is None && *final(settings) == *old(settings) && e@
                    == "You must provide an updated value when calling update_settings"@,
            },
    {
        if default_persona_id.is_none() && persona_override.is_none() && voice_override.is_none() {
            return Err("You must provide an updated value when calling update_settings".to_owned());
        }
        match default_persona_id {
            Some(id) => {
                settings.default_persona_id = id.to_owned();
            },
            None => {},
        }
        match character_id {
            Some(c) => match persona_override {
                Some(p) => {
                    let n = settings.persona_overrides.len();
                    let value = p.to_owned();
                    proof {
                        lemma_as_map_upsert(settings.persona_overrides@, c@, value);
                    }
                    let ghost before = text_map(as_map(settings.persona_overrides@));
                    settings.persona_overrides.insert(c.to_owned(), value);
                    assert(text_map(as_map(settings.persona_overrides@)) =~= before.insert(
                        c@,
                        p@,
                    ));
                },
                None => {},
            },
            None => {},
        }
        Ok(())
    }

    /// The request that stores settings.
    pub fn update_settings_request(settings: &Settings, headers: StringMap<String>) -> (r: Call)
        ensures
            r.is(
                "POST"@,
                "https://plus.character.ai/chat/user/update_settings/"@,
                headers,
                Some(BodyView::Text(json_text(settings@.document()))),
            ),
    {
        let body = settings.to_json();
        Call::with_json(
            "POST",
            "https://plus.character.ai/chat/user/update_settings/".to_owned(),
            headers,
            &body,
        )
    }

    /// Reads the answer to `update_settings`: see [`settings_answer`].
    pub fn update_settings(response: &serde_json::Value) -> (r: Option<
        Result<Settings, RequesterError>,
    >)
        ensures
            match r {
                Some(Ok(s)) => settings_answer(json_model(*response)) == Some(
                    Ok::<SettingsView, ()>(s@),
                ),
                Some(Err(e)) => settings_answer(json_model(*response)) == Some(
                    Err::<SettingsView, ()>(()),
                ) && e@ == RequesterErrorView::RequestFailed(
                    "cargo:warn=Malformed data received.\n"@ + json_debug_text(
                        json_model(*response),
                    ),
                ),
                None => settings_answer(json_model(*response)) is None,
            },
    {
        let success = get_bool_strict(response, "success", false)?;
        if success {
            let message = "cargo:warn=Malformed data received.\n".to_owned().concat(
                value_debug(response).as_str(),
            );
            Some(Err(RequesterError::RequestFailed(message)))
        } else {
            match Settings::try_from_json(response) {
                Some(s) => Some(Ok(s)),
                None => None,
            }
        }
    }

    /// Makes a persona the default one in settings that are about to be
    /// stored; without an id, the default is the empty id.
    pub fn set_default_persona(settings: &mut Settings, id: Option<&str>)
        ensures
            final(settings)@ == updated_settings(
                old(settings)@,
                Some(
                    or_empty(id),
                ),
                None,
                None,
            ),
    {
        proof {
            reveal_strlit("");
        }
        assert(""@ =~= Seq::<char>::empty());
        let id = match id {
            Some(s) => s,
            None => "",
        };
        let _ = Self::apply_settings_update(settings, Some(id), None, None, None);
    }

    /// Chooses the persona for a character in settings that are about to
    /// be stored; without a persona, the choice is the empty id.
    pub fn set_persona(settings: &mut Settings, character_id: &str, persona_id: Option<&str>)
        ensures
            final(settings)@ == updated_settings(
                old(settings)@,
                None,
                Some(
                    or_empty(persona_id),
                ),
                Some(character_id@),
            ),
    {
        proof {
            reveal_strlit("");
        }
        assert(""@ =~= Seq::<char>::empty());
        let persona_id = match persona_id {
            Some(s) => s,
            None => "",
        };
        let _ = Self::apply_settings_update(
            settings,
            None,
            Some(persona_id),
            None,
            Some(character_id),
        );
    }

    /// Chooses a voice in settings that are about to be stored. The
    /// settings hold no voice: they stay as they are.
    pub fn set_voice(settings: &mut Settings, voice_id: Option<&str>)
        ensures
            final(settings)@ == old(settings)@,
    {
        let voice_id = match voice_id {
            Some(s) => s,
            None => "",
        };
        let _ = Self::apply_settings_update(settings, None, None, Some(voice_id), None);
    }

    /// Whether settings were stored: the call went through and its answer
    /// held the new settings.
    pub fn settings_stored(outcome: &Result<serde_json::Value, RequesterError>) -> (r: bool)
        ensures
            r == match outcome {
                Ok(response) => settings_answer(json_model(*response)) is Some && settings_answer(
                    json_model(*response),
                )->Some_0 is Ok,
                Err(_) => false,
            },
    {
        match outcome {
            Ok(response) => match Self::update_settings(response) {
                Some(Ok(_)) => true,
                _ => false,
            },
            Err(_) => false,
        }
    }

    /// The request that changes the account. The fields are checked first;
    /// the error is the complaint against them.
    pub fn edit_account_request(
        name: &str,
        username: &str,
        bio: Option<&str>,
        avatar_path: Option<&str>,
        headers: StringMap<String>,
    ) -> (r: Result<Call, String>)
        ensures
            match r {
                Ok(call) => edit_account_complaint(
                    name@,
                    username@,
                    or_empty(bio),
                ) is None && call.is(
                    "POST"@,
                    "https://plus.character.ai/chat/user/update/"@,
                    headers,
                    Some(
                        BodyView::Text(
                            json_text(
                                edit_account_body(
                                    name@,
                                    username@,
                                    or_empty(bio),
                                    or_empty(avatar_path),
                                ),
                            ),
                        ),
                    ),
                ),
                Err(e) => edit_account_complaint(
                    name@,
                    username@,
                    or_empty(bio),
                ) == Some(e@),
            },
    {
        proof {
            reveal_strlit("");
        }
        assert(""@ =~= Seq::<char>::empty());
        let bio = match bio {
            Some(b) => b,
            None => "",
        };
        let avatar_path = match avatar_path {
            Some(p) => p,
            None => "",
        };
        if len_of(username) < 2 || len_of(username) > 20 {
            return Err(
                numbered(
                    "username cannot be less than 2 characters or more than 20 (is ",
                    len_of(username),
                    " characters)",
                ),
            );
        }
        if len_of(name) < 2 || len_of(name) > 50 {
            return Err(
                numbered(
                    "name cannot be less than 2 characters or more than 50 (is ",
                    len_of(name),
                    " characters)",
                ),
            );
        }
        if len_of(bio) > 500 {
            return Err(
                numbered("bio cannot be more than 500 characters (is ", len_of(bio), " characters)"),
            );
        }
        let uploaded = len_of(avatar_path) > 0;
        let mut body = value_object();
        value_set(&mut body, "name", text_value(name));
        value_set(&mut body, "username", text_value(username));
        value_set(&mut body, "bio", text_value(bio));
        value_set(
            &mut body,
            "avatar_type",
            text_value(
                if uploaded {
                    "UPLOADED"
                } else {
                    "DEFAULT"
                },
            ),
        );
        if uploaded {
            value_set(&mut body, "avatar_rel_path", text_value(avatar_path));
        }
        Ok(
            Call::with_json(
                "POST",
                "https://plus.character.ai/chat/user/update/".to_owned(),
                headers,
                &body,
            ),
        )
    }

    /// What `edit_account` returns for an answer: whether the answer does
    /// not report `OK`.
    pub fn edit_account(response: &serde_json::Value) -> (r: bool)
        ensures
            r == !reports_ok(json_model(*response)),
    {
        !status_ok(response)
    }

    fn persona_reply(response: &serde_json::Value) -> (r: Option<Result<Persona, RequesterError>>)
        ensures
            persona_outcome_view(r) == persona_answer(json_model(*response)),
            r is Some ==> r->Some_0 is Ok || r->Some_0->Err_0 is RequestFailed,
    {
        proof {
            reveal_strlit("");
        }
        assert(""@ =~= Seq::<char>::empty());
        let missing = match value_get(response, "persona") {
            Some(p) => value_is_null(p),
            None => true,
        };
        if !status_ok(response) || missing {
            let message = match value_get(response, "error") {
                Some(e) => value_text(e),
                None => value_text(&text_value("")),
            };
            return Some(Err(RequesterError::RequestFailed(message)));
        }
        match value_get(response, "persona") {
            Some(p) => match Persona::try_from_json(p) {
                Some(persona) => Some(Ok(persona)),
                None => None,
            },
            None => None,
        }
    }

    /// The request that makes a persona, under a fresh identifier. The
    /// fields are checked first; the error is the complaint against them.
    pub fn create_persona_request(
        name: &str,
        definition: Option<&str>,
        avatar_path: Option<&str>,
        headers: StringMap<String>,
    ) -> (r: Result<Call, String>)
        ensures
            match r {
                Ok(call) => create_persona_complaint(
                    name@,
                    or_empty(definition),
                ) is None && exists|identifier: Seq<char>|
                    identifier.len() == 36 && call.is(
                        "POST"@,
                        "https://plus.character.ai/chat/persona/create/"@,
                        headers,
                        Some(
                            BodyView::Text(
                                json_text(
                                    #[trigger] create_persona_body(
                                        name@,
                                        or_empty(definition),
                                        or_empty(avatar_path),
                                        identifier,
                                    ),
                                ),
                            ),
                        ),
                    ),
                Err(e) => create_persona_complaint(
                    name@,
                    or_empty(definition),
                ) == Some(e@),
            },
    {
        proof {
            reveal_strlit("");
        }
        assert(""@ =~= Seq::<char>::empty());
        let definition_text = match definition {
            Some(d) => d,
            None => "",
        };
        let avatar_text = match avatar_path {
            Some(p) => p,
            None => "",
        };
        assert(definition_text@ == or_empty(definition));
        assert(avatar_text@ == or_empty(avatar_path));
        if len_of(name) < 3 || len_of(name) > 20 {
            return Err(
                numbered(
                    "name cannot be less than 3 characters or more than 20 (is ",
                    len_of(name),
                    " characters)",
                ),
            );
        }
        if len_of(definition_text) > 720 {
            return Err(
                numbered(
                    "definition cannot be more than 720 characters (is ",
                    len_of(definition_text),
                    " characters)",
                ),
            );
        }
        let identifier = fresh_id();
        let none: Vec<serde_json::Value> = Vec::new();
        assert(crate::json::models(none@) =~= Seq::<JsonModel>::empty());
        let mut body = value_object();
        value_set(&mut body, "avatar_file_name", text_value(""));
        value_set(&mut body, "avatar_rel_path", text_value(avatar_text));
        value_set(&mut body, "base_img_prompt", text_value(""));
        value_set(&mut body, "categories", value_array(none));
        value_set(&mut body, "copyable", value_bool(false));
        value_set(&mut body, "definition", text_value(definition_text));
        value_set(&mut body, "description", text_value("This is my persona."));
        value_set(&mut body, "greeting", text_value("Hello! This is my persona"));
        value_set(
            &mut body,
            "identifier",
            text_value("id:".to_owned().concat(identifier.as_str()).as_str()),
        );
        value_set(&mut body, "img_gen_enabled", value_bool(false));
        value_set(&mut body, "name", text_value(name));
        value_set(&mut body, "strip_img_prompt_from_msg", value_bool(false));
        value_set(&mut body, "title", text_value(name));
        value_set(&mut body, "visibility", text_value("PRIVATE"));
        value_set(&mut body, "voice_id", text_value(""));
        assert(json_model(body) == create_persona_body(
            name@,
            or_empty(definition),
            or_empty(avatar_path),
            identifier@,
        ));
        let call = Call::with_json(
            "POST",
            "https://plus.character.ai/chat/persona/create/".to_owned(),
            headers,
            &body,
        );
        assert(identifier@.len() == 36 && call.is(
            "POST"@,
            "https://plus.character.ai/chat/persona/create/"@,
            headers,
            Some(
                BodyView::Text(
                    json_text(
                        #[trigger] create_persona_body(
                            name@,
                            or_empty(definition),
                            or_empty(avatar_path),
                            identifier@,
                        ),
                    ),
                ),
            ),
        ));
        Ok(call)
    }

    /// Reads the answer to `create_persona`: see [`persona_answer`].
    pub fn create_persona(response: &serde_json::Value) -> (r: Option<
        Result<Persona, RequesterError>,
    >)
        ensures
            persona_outcome_view(r) == persona_answer(json_model(*response)),
            r is Some ==> r->Some_0 is Ok || r->Some_0->Err_0 is RequestFailed,
    {
        Self::persona_reply(response)
    }

    /// The request that stores the record of a persona.
    pub fn update_persona_internal_request(body: &serde_json::Value, headers: StringMap<String>) -> (r:
        Call)
        ensures
            r.is(
                "POST"@,
                "https://plus.character.ai/chat/persona/update/"@,
                headers,
                Some(BodyView::Text(json_text(json_model(*body)))),
            ),
    {
        Call::with_json(
            "POST",
            "https://plus.character.ai/chat/persona/update/".to_owned(),
            headers,
            body,
        )
    }

    /// Reads the answer to a persona update: see [`persona_answer`].
    pub fn update_persona_internal(response: &serde_json::Value) -> (r: Option<
        Result<Persona, RequesterError>,
    >)
        ensures
            persona_outcome_view(r) == persona_answer(json_model(*response)),
            r is Some ==> r->Some_0 is Ok || r->Some_0->Err_0 is RequestFailed,
    {
        Self::persona_reply(response)
    }

    fn persona_record(
        id: &str,
        name: &str,
        definition: &str,
        avatar_path: &str,
        description: &str,
        greeting: &str,
        account: &Account,
        archived: bool,
    ) -> (r: serde_json::Value)
        ensures
            json_model(r) == persona_update_body(
                id@,
                name@,
                definition@,
                avatar_path@,
                description@,
                greeting@,
                account@,
                archived,
            ),
    {
        proof {
            reveal_strlit("");
        }
        assert(""@ =~= Seq::<char>::empty());
        let mut body = value_object();
        value_set(&mut body, "avatar_file_name", text_value(avatar_path));
        value_set(&mut body, "avatar_rel_path", text_value(avatar_path));
        value_set(&mut body, "default_voice_id", text_value(""));
        value_set(&mut body, "is_persona", value_bool(true));
        value_set(&mut body, "copyable", value_bool(false));
        value_set(&mut body, "definition", text_value(definition));
        value_set(&mut body, "external_id", text_value(id));
        value_set(&mut body, "description", text_value(description));
        value_set(&mut body, "greeting", text_value(greeting));
        value_set(&mut body, "enabled", value_bool(false));
        value_set(&mut body, "img_gen_enabled", value_bool(false));
        value_set(&mut body, "name", text_value(name));
        value_set(&mut body, "participant__name", text_value(name));
        value_set(&mut body, "participant__num_interactions", value_u64(0));
        value_set(&mut body, "strip_img_prompt_from_msg", value_bool(false));
        value_set(&mut body, "title", text_value(name));
        value_set(&mut body, "user__id", crate::json::value_i64(account.id));
        value_set(&mut body, "user__username", text_value(account.username.as_str()));
        value_set(&mut body, "visibility", text_value("PRIVATE"));
        if archived {
            value_set(&mut body, "archived", value_bool(true));
        }
        body
    }

    /// The request that changes a persona. A name that does not fit gives
    /// way to the name of the persona as it is; the fields are then
    /// checked, and the error is the complaint against them.
    pub fn edit_persona_request(
        id: &str,
        name: Option<&str>,
        definition: Option<&str>,
        avatar_path: Option<&str>,
        persona: &Persona,
        account: &Account,
        headers: StringMap<String>,
    ) -> (r: Result<Call, String>)
        ensures
            match r {
                Ok(call) => edit_persona_complaint(
                    or_empty(name),
                    or_empty(definition),
                    persona@,
                ) is None && call.is(
                    "POST"@,
                    "https://plus.character.ai/chat/persona/update/"@,
                    headers,
                    Some(
                        BodyView::Text(
                            json_text(
                                persona_update_body(
                                    id@,
                                    edited_name(
                                        or_empty(name),
                                        persona@,
                                    ),
                                    or_empty(definition),
                                    or_empty(avatar_path),
                                    persona@.description,
                                    persona@.greeting,
                                    account@,
                                    false,
                                ),
                            ),
                        ),
                    ),
                ),
                Err(e) => edit_persona_complaint(
                    or_empty(name),
                    or_empty(definition),
                    persona@,
                ) == Some(e@),
            },
    {
        proof {
            reveal_strlit("");
        }
        assert(""@ =~= Seq::<char>::empty());
        let mut name = match name {
            Some(n) => n,
            None => "",
        };
        let definition = match definition {
            Some(d) => d,
            None => "",
        };
        let avatar_path = match avatar_path {
            Some(p) => p,
            None => "",
        };
        if len_of(name) < 3 || len_of(name) > 20 {
            name = persona.name.as_str();
            if len_of(name) < 3 || len_of(name) > 20 {
                return Err(
                    numbered(
                        "name cannot be less than 3 characters or more than 20 characters (is ",
                        len_of(name),
                        " characters). Please provide a Persona object to `edit_persona` for it to fall back to if you plan to trigger this data validation error.",
                    ),
                );
            }
        }
        if len_of(definition) > 720 {
            return Err(
                numbered(
                    "definition cannot be more than 720 characters (is ",
                    len_of(definition),
                    " characters)",
                ),
            );
        }
        let body = Self::persona_record(
            id,
            name,
            definition,
            avatar_path,
            persona.description.as_str(),
            persona.greeting.as_str(),
            account,
            false,
        );
        Ok(Self::update_persona_internal_request(&body, headers))
    }

    /// Reads the answer to `edit_persona`: see [`persona_answer`].
    pub fn edit_persona(response: &serde_json::Value) -> (r: Option<
        Result<Persona, RequesterError>,
    >)
        ensures
            persona_outcome_view(r) == persona_answer(json_model(*response)),
            r is Some ==> r->Some_0 is Ok || r->Some_0->Err_0 is RequestFailed,
    {
        Self::persona_reply(response)
    }

    /// The request that deletes a persona: its record as it is, marked as
    /// archived.
    pub fn delete_persona_request(
        id: &str,
        persona: &Persona,
        account: &Account,
        headers: StringMap<String>,
    ) -> (r: Call)
        ensures
            r.is(
                "POST"@,
                "https://plus.character.ai/chat/persona/update/"@,
                headers,
                Some(
                    BodyView::Text(
                        json_text(
                            persona_update_body(
                                id@,
                                persona@.name,
                                persona@.definition,
                                match persona@.avatar {
                                    Some(a) => a,
                                    None => Seq::empty(),
                                },
                                persona@.description,
                                persona@.greeting,
                                account@,
                                true,
                            ),
                        ),
                    ),
                ),
            ),
    {
        proof {
            reveal_strlit("");
        }
        assert(""@ =~= Seq::<char>::empty());
        let avatar_path = match &persona.avatar {
            Some(a) => a.file_name.as_str(),
            None => "",
        };
        let body = Self::persona_record(
            id,
            persona.name.as_str(),
            persona.definition.as_str(),
            avatar_path,
            persona.description.as_str(),
            persona.greeting.as_str(),
            account,
            true,
        );
        Self::update_persona_internal_request(&body, headers)
    }

    /// Reads the answer to `delete_persona`: see [`persona_answer`].
    pub fn delete_persona(response: &serde_json::Value) -> (r: Option<
        Result<Persona, RequesterError>,
    >)
        ensures
            persona_outcome_view(r) == persona_answer(json_model(*response)),
            r is Some ==> r->Some_0 is Ok || r->Some_0->Err_0 is RequestFailed,
    {
        Self::persona_reply(response)
    }
}

} // verus!
