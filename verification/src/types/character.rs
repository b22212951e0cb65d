//! Characters: the full record and the short one of lists.

use vstd::prelude::*;
use crate::json::{
    bool_strict, get_bool_strict, get_i64, get_text, get_text_or, get_text_or_else,
    get_text_strict, get_text_strict_or, i64_at, json_model, member, opt_text_value, text_at,
    text_of, text_or, text_or_else, text_strict, text_strict_or, text_value, value_as_str,
    value_get, value_i64, value_null, value_object, value_set, JsonModel,
};
use crate::text::opt_view;
use crate::types::enums::Visibility;
use crate::types::media::{avatar_view, Avatar};

verus! {

/// The name that a document gives: the text under `participant__name`, or,
/// where that key is absent, under `name`, or, where both are absent, the
/// empty text. Nothing where something other than a string stands there.
pub open spec fn display_name(m: JsonModel) -> Option<Seq<char>> {
    match member(m, "participant__name"@) {
        Some(x) => text_of(x),
        None => text_strict(m, "name"@),
    }
}

/// Exec form of [`display_name`].
pub fn get_display_name(json: &serde_json::Value) -> (r: Option<String>)
    ensures
        match r {
            Some(s) => display_name(json_model(*json)) == Some(s@),
            None => display_name(json_model(*json)) is None,
        },
{
    match value_get(json, "participant__name") {
        Some(x) => match value_as_str(x) {
            Some(s) => Some(s.to_owned()),
            None => None,
        },
        None => get_text_strict(json, "name"),
    }
}

/// The document of an optional integer: `null` where there is none.
pub open spec fn opt_i64_model(n: Option<i64>) -> JsonModel {
    match n {
        Some(i) => JsonModel::Integer(i as int),
        None => JsonModel::Null,
    }
}

/// Exec form of [`opt_i64_model`].
pub fn opt_i64_value(n: Option<i64>) -> (r: serde_json::Value)
    ensures
        json_model(r) == opt_i64_model(n),
{
    match n {
        Some(i) => value_i64(i),
        None => value_null(),
    }
}

/// The short record of a character, as lists carry it.
#[derive(Debug, Clone)]
pub struct PartialCharacter {
    pub id: String,
    pub name: String,
    pub description: String,
    pub definition: String,
    pub greeting: String,
    pub avatar: Option<Avatar>,
    pub visibility: Visibility,
    pub upvotes: Option<i64>,
    pub title: String,
    pub author_username: Option<String>,
    pub num_interactions: Option<i64>,
}

/// The content of a [`PartialCharacter`].
pub struct PartialCharacterView {
    pub id: Seq<char>,
    pub name: Seq<char>,
    pub description: Seq<char>,
    pub definition: Seq<char>,
    pub greeting: Seq<char>,
    pub avatar: Option<Seq<char>>,
    pub visibility: Visibility,
    pub upvotes: Option<i64>,
    pub title: Seq<char>,
    pub author_username: Option<Seq<char>>,
    pub num_interactions: Option<i64>,
}

impl View for PartialCharacter {
    type V = PartialCharacterView;

    open spec fn view(&self) -> PartialCharacterView {
        PartialCharacterView {
            id: self.id@,
            name: self.name@,
            description: self.description@,
            definition: self.definition@,
            greeting: self.greeting@,
            avatar: avatar_view(self.avatar),
            visibility: self.visibility,
            upvotes: self.upvotes,
            title: self.title@,
            author_username: opt_view(self.author_username),
            num_interactions: self.num_interactions,
        }
    }
}

impl PartialCharacterView {
    /// The document of a short record.
    pub open spec fn document(self) -> JsonModel {
        JsonModel::Object(
            Map::empty().insert("external_id"@, JsonModel::Text(self.id)).insert(
                "participant__name"@,
                JsonModel::Text(self.name),
            ).insert("description"@, JsonModel::Text(self.description)).insert(
                "definition"@,
                JsonModel::Text(self.definition),
            ).insert("greeting"@, JsonModel::Text(self.greeting)).insert(
                "avatar_file_name"@,
                match self.avatar {
                    Some(a) => JsonModel::Text(a),
                    None => JsonModel::Null,
                },
            ).insert("visibility"@, JsonModel::Text(self.visibility.name())).insert(
                "upvotes"@,
                opt_i64_model(self.upvotes),
            ).insert("title"@, JsonModel::Text(self.title)).insert(
                "user__username"@,
                match self.author_username {
                    Some(a) => JsonModel::Text(a),
                    None => JsonModel::Null,
                },
            ).insert("participant__num_interactions"@, opt_i64_model(self.num_interactions)),
        )
    }
}

/// The document of an optional picture: its file name, or `null`.
pub fn avatar_value(a: &Option<Avatar>) -> (r: serde_json::Value)
    ensures
        json_model(r) == (match avatar_view(*a) {
            Some(name) => JsonModel::Text(name),
            None => JsonModel::Null,
        }),
{
    match a {
        Some(x) => text_value(x.file_name.as_str()),
        None => value_null(),
    }
}

impl PartialCharacter {
    /// The short record that a document describes. An absent text is empty;
    /// the visibility is `PUBLIC` unless the document names another. A
    /// document with anything but a string under `external_id`, the name,
    /// `description`, `greeting` or `title` describes none.
    pub open spec fn decode(m: JsonModel) -> Option<PartialCharacterView> {
        let id = text_strict(m, "external_id"@);
        let name = display_name(m);
        let description = text_strict(m, "description"@);
        let greeting = text_strict(m, "greeting"@);
        let title = text_strict(m, "title"@);
        if id is Some && name is Some && description is Some && greeting is Some && title
            is Some {
            Some(
                PartialCharacterView {
                    id: id->Some_0,
                    name: name->Some_0,
                    description: description->Some_0,
                    definition: text_or(m, "definition"@, Seq::empty()),
                    greeting: greeting->Some_0,
                    avatar: text_at(m, "avatar_file_name"@),
                    visibility: Visibility::of_name(
                        text_or_else(m, "visibility"@, "PUBLIC"@, "PUBLIC"@),
                    ),
                    upvotes: i64_at(m, "upvotes"@),
                    title: title->Some_0,
                    author_username: text_at(m, "user__username"@),
                    num_interactions: i64_at(m, "participant__num_interactions"@),
                },
            )
        } else {
            None
        }
    }

    pub fn new(
        id: &str,
        name: &str,
        description: &str,
        definition: &str,
        greeting: &str,
        avatar: Option<Avatar>,
        visibility: Visibility,
        upvotes: Option<i64>,
        title: &str,
        author_username: Option<String>,
        num_interactions: Option<i64>,
    ) -> (r: Self)
        ensures
            r@ == (PartialCharacterView {
                id: id@,
                name: name@,
                description: description@,
                definition: definition@,
                greeting: greeting@,
                avatar: avatar_view(avatar),
                visibility,
                upvotes,
                title: title@,
                author_username: opt_view(author_username),
                num_interactions,
            }),
    {
        Self {
            id: id.to_owned(),
            name: name.to_owned(),
            description: description.to_owned(),
            definition: definition.to_owned(),
            greeting: greeting.to_owned(),
            avatar,
            visibility,
            upvotes,
            title: title.to_owned(),
            author_username,
            num_interactions,
        }
    }

    /// Reads a short record, or `None` where the document describes none.
    pub fn try_from_json(json: &serde_json::Value) -> (r: Option<Self>)
        ensures
            match r {
                Some(c) => Self::decode(json_model(*json)) == Some(c@),
                None => Self::decode(json_model(*json)) is None,
            },
    {
        proof {
            reveal_strlit("");
        }
        assert(""@ =~= Seq::<char>::empty());
        let id = get_text_strict(json, "external_id")?;
        let name = get_display_name(json)?;
        let description = get_text_strict(json, "description")?;
        let greeting = get_text_strict(json, "greeting")?;
        let title = get_text_strict(json, "title")?;
        let visibility = get_text_or_else(json, "visibility", "PUBLIC", "PUBLIC");
        Some(
            Self {
                id,
                name,
                description,
                definition: get_text_or(json, "definition", ""),
                greeting,
                avatar: Avatar::from_json(json),
                visibility: Visibility::from_string(visibility.as_str()),
                upvotes: get_i64(json, "upvotes"),
                title,
                author_username: get_text(json, "user__username"),
                num_interactions: get_i64(json, "participant__num_interactions"),
            },
        )
    }

    /// Reads a short record from a document that describes one.
    pub fn from_json(json: &serde_json::Value) -> (r: Self)
        requires
            Self::decode(json_model(*json)) is Some,
        ensures
            Self::decode(json_model(*json)) == Some(r@),
    {
        match Self::try_from_json(json) {
            Some(c) => c,
            None => Self::new("", "", "", "", "", None, Visibility::Public, None, "", None, None),
        }
    }

    /// The short record as a document.
    pub fn to_json(&self) -> (r: serde_json::Value)
        ensures
            json_model(r) == self@.document(),
    {
        let mut doc = value_object();
        value_set(&mut doc, "external_id", text_value(self.id.as_str()));
        value_set(&mut doc, "participant__name", text_value(self.name.as_str()));
        value_set(&mut doc, "description", text_value(self.description.as_str()));
        value_set(&mut doc, "definition", text_value(self.definition.as_str()));
        value_set(&mut doc, "greeting", text_value(self.greeting.as_str()));
        value_set(&mut doc, "avatar_file_name", avatar_value(&self.avatar));
        value_set(&mut doc, "visibility", text_value(self.visibility.to_string()));
        value_set(&mut doc, "upvotes", opt_i64_value(self.upvotes));
        value_set(&mut doc, "title", text_value(self.title.as_str()));
        value_set(&mut doc, "user__username", opt_text_value(&self.author_username));
        value_set(
            &mut doc,
            "participant__num_interactions",
            opt_i64_value(self.num_interactions),
        );
        doc
    }
}

/// The texts of a list of strings.
pub open spec fn text_views(items: Seq<String>) -> Seq<Seq<char>> {
    items.map_values(|s: String| s@)
}

/// The full record of a character.
#[derive(Debug, Clone)]
pub struct Character {
    pub id: String,
    pub name: String,
    pub description: String,
    pub definition: String,
    pub greeting: String,
    pub avatar: Option<Avatar>,
    pub visibility: Visibility,
    pub upvotes: Option<i64>,
    pub title: String,
    pub author_username: Option<String>,
    pub num_interactions: Option<i64>,
    pub internal_id: String,
    pub voice_id: String,
    pub default_voice_id: String,
    pub identifier: String,
    pub copyable: bool,
    pub starter_prompts: serde_json::Value,
    pub comments_enabled: bool,
    pub songs: Vec<String>,
    pub image_gen_enabled: bool,
    pub base_image_prompt: String,
    pub image_prompt_regex: String,
    pub strip_image_prompt_from_message: bool,
}

/// The content of a [`Character`].
pub struct CharacterView {
    pub id: Seq<char>,
    pub name: Seq<char>,
    pub description: Seq<char>,
    pub definition: Seq<char>,
    pub greeting: Seq<char>,
    pub avatar: Option<Seq<char>>,
    pub visibility: Visibility,
    pub upvotes: Option<i64>,
    pub title: Seq<char>,
    pub author_username: Option<Seq<char>>,
    pub num_interactions: Option<i64>,
    pub internal_id: Seq<char>,
    pub voice_id: Seq<char>,
    pub default_voice_id: Seq<char>,
    pub identifier: Seq<char>,
    pub copyable: bool,
    pub starter_prompts: JsonModel,
    pub comments_enabled: bool,
    pub songs: Seq<Seq<char>>,
    pub image_gen_enabled: bool,
    pub base_image_prompt: Seq<char>,
    pub image_prompt_regex: Seq<char>,
    pub strip_image_prompt_from_message: bool,
}

impl View for Character {
    type V = CharacterView;

    open spec fn view(&self) -> CharacterView {
        CharacterView {
            id: self.id@,
            name: self.name@,
            description: self.description@,
            definition: self.definition@,
            greeting: self.greeting@,
            avatar: avatar_view(self.avatar),
            visibility: self.visibility,
            upvotes: self.upvotes,
            title: self.title@,
            author_username: opt_view(self.author_username),
            num_interactions: self.num_interactions,
            internal_id: self.internal_id@,
            voice_id: self.voice_id@,
            default_voice_id: self.default_voice_id@,
            identifier: self.identifier@,
            copyable: self.copyable,
            starter_prompts: json_model(self.starter_prompts),
            comments_enabled: self.comments_enabled,
            songs: text_views(self.songs@),
            image_gen_enabled: self.image_gen_enabled,
            base_image_prompt: self.base_image_prompt@,
            image_prompt_regex: self.image_prompt_regex@,
            strip_image_prompt_from_message: self.strip_image_prompt_from_message,
        }
    }
}

impl Character {
    /// Whether every text and flag that a full record needs can be read: a
    /// key that is there holds a string where a text belongs and a boolean
    /// where a flag belongs.
    pub open spec fn readable(m: JsonModel) -> bool {
        &&& text_strict(m, "external_id"@) is Some
        &&& display_name(m) is Some
        &&& text_strict(m, "description"@) is Some
        &&& text_strict(m, "greeting"@) is Some
        &&& text_strict_or(m, "visibility"@, "PUBLIC"@) is Some
        &&& text_strict(m, "title"@) is Some
        &&& text_strict(m, "participant__user__username"@) is Some
        &&& text_strict(m, "voice_id"@) is Some
        &&& text_strict(m, "default_voice_id"@) is Some
        &&& text_strict(m, "identifier"@) is Some
        &&& bool_strict(m, "copyable"@, false) is Some
        &&& bool_strict(m, "comments_enabled"@, false) is Some
        &&& bool_strict(m, "img_gen_enabled"@, false) is Some
        &&& text_strict(m, "base_img_prompt"@) is Some
        &&& text_strict(m, "img_prompt_regex"@) is Some
        &&& bool_strict(m, "strip_img_prompt_from_msg"@, false) is Some
    }

    /// The full record that a document describes. An absent text is empty,
    /// an absent flag false, the visibility `PUBLIC` unless the document
    /// names another. The record has no starter prompts and no songs: a
    /// document with a `starter_prompts` member describes no record, and
    /// neither does one that is not `readable`.
    pub open spec fn decode(m: JsonModel) -> Option<CharacterView> {
        if Self::readable(m) && member(m, "starter_prompts"@) is None {
            Some(
                CharacterView {
                    id: text_strict(m, "external_id"@)->Some_0,
                    name: display_name(m)->Some_0,
                    description: text_strict(m, "description"@)->Some_0,
                    definition: text_or(m, "definition"@, Seq::empty()),
                    greeting: text_strict(m, "greeting"@)->Some_0,
                    avatar: text_at(m, "avatar_file_name"@),
                    visibility: Visibility::of_name(
                        text_strict_or(m, "visibility"@, "PUBLIC"@)->Some_0,
                    ),
                    upvotes: i64_at(m, "upvotes"@),
                    title: text_strict(m, "title"@)->Some_0,
                    author_username: text_at(m, "user__username"@),
                    num_interactions: i64_at(m, "participant__num_interactions"@),
                    internal_id: text_strict(m, "participant__user__username"@)->Some_0,
                    voice_id: text_strict(m, "voice_id"@)->Some_0,
                    default_voice_id: text_strict(m, "default_voice_id"@)->Some_0,
                    identifier: text_strict(m, "identifier"@)->Some_0,
                    copyable: bool_strict(m, "copyable"@, false)->Some_0,
                    starter_prompts: JsonModel::Object(Map::empty()),
                    comments_enabled: bool_strict(m, "comments_enabled"@, false)->Some_0,
                    songs: Seq::empty(),
                    image_gen_enabled: bool_strict(m, "img_gen_enabled"@, false)->Some_0,
                    base_image_prompt: text_strict(m, "base_img_prompt"@)->Some_0,
                    image_prompt_regex: text_strict(m, "img_prompt_regex"@)->Some_0,
                    strip_image_prompt_from_message: bool_strict(
                        m,
                        "strip_img_prompt_from_msg"@,
                        false,
                    )->Some_0,
                },
            )
        } else {
            None
        }
    }

    pub fn new(
        id: &str,
        name: &str,
        description: &str,
        definition: &str,
        greeting: &str,
        avatar: Option<Avatar>,
        visibility: Visibility,
        upvotes: Option<i64>,
        title: &str,
        author_username: Option<String>,
        num_interactions: Option<i64>,
        internal_id: &str,
        voice_id: &str,
        default_voice_id: &str,
        identifier: &str,
        copyable: bool,
        starter_prompts: serde_json::Value,
        comments_enabled: bool,
        songs: Vec<String>,
        image_gen_enabled: bool,
        base_image_prompt: &str,
        image_prompt_regex: &str,
        strip_image_prompt_from_message: bool,
    ) -> (r: Self)
        ensures
            r@ == (CharacterView {
                id: id@,
                name: name@,
                description: description@,
                definition: definition@,
                greeting: greeting@,
                avatar: avatar_view(avatar),
                visibility,
                upvotes,
                title: title@,
                author_username: opt_view(author_username),
                num_interactions,
                internal_id: internal_id@,
                voice_id: voice_id@,
                default_voice_id: default_voice_id@,
                identifier: identifier@,
                copyable,
                starter_prompts: json_model(starter_prompts),
                comments_enabled,
                songs: text_views(songs@),
                image_gen_enabled,
                base_image_prompt: base_image_prompt@,
                image_prompt_regex: image_prompt_regex@,
                strip_image_prompt_from_message,
            }),
    {
        Self {
            id: id.to_owned(),
            name: name.to_owned(),
            description: description.to_owned(),
            definition: definition.to_owned(),
            greeting: greeting.to_owned(),
            avatar,
            visibility,
            upvotes,
            title: title.to_owned(),
            author_username,
            num_interactions,
            internal_id: internal_id.to_owned(),
            voice_id: voice_id.to_owned(),
            default_voice_id: default_voice_id.to_owned(),
            identifier: identifier.to_owned(),
            copyable,
            starter_prompts,
            comments_enabled,
            songs,
            image_gen_enabled,
            base_image_prompt: base_image_prompt.to_owned(),
            image_prompt_regex: image_prompt_regex.to_owned(),
            strip_image_prompt_from_message,
        }
    }

    /// Reads a full record, or `None` where the document describes none.
    pub fn try_from_json(json: &serde_json::Value) -> (r: Option<Self>)
        ensures
            match r {
                Some(c) => Self::decode(json_model(*json)) == Some(c@),
                None => Self::decode(json_model(*json)) is None,
            },
    {
        proof {
            reveal_strlit("");
        }
        assert(""@ =~= Seq::<char>::empty());
        let id = get_text_strict(json, "external_id")?;
        let name = get_display_name(json)?;
        let description = get_text_strict(json, "description")?;
        let greeting = get_text_strict(json, "greeting")?;
        let visibility = get_text_strict_or(json, "visibility", "PUBLIC")?;
        let title = get_text_strict(json, "title")?;
        let internal_id = get_text_strict(json, "participant__user__username")?;
        let voice_id = get_text_strict(json, "voice_id")?;
        let default_voice_id = get_text_strict(json, "default_voice_id")?;
        let identifier = get_text_strict(json, "identifier")?;
        let copyable = get_bool_strict(json, "copyable", false)?;
        if value_get(json, "starter_prompts").is_some() {
            return None;
        }
        let comments_enabled = get_bool_strict(json, "comments_enabled", false)?;
        let image_gen_enabled = get_bool_strict(json, "img_gen_enabled", false)?;
        let base_image_prompt = get_text_strict(json, "base_img_prompt")?;
        let image_prompt_regex = get_text_strict(json, "img_prompt_regex")?;
        let strip = get_bool_strict(json, "strip_img_prompt_from_msg", false)?;
        let songs: Vec<String> = Vec::new();
        assert(text_views(songs@) =~= Seq::<Seq<char>>::empty());
        Some(
            Self {
                id,
                name,
                description,
                definition: get_text_or(json, "definition", ""),
                greeting,
                avatar: Avatar::from_json(json),
                visibility: Visibility::from_string(visibility.as_str()),
                upvotes: get_i64(json, "upvotes"),
                title,
                author_username: get_text(json, "user__username"),
                num_interactions: get_i64(json, "participant__num_interactions"),
                internal_id,
                voice_id,
                default_voice_id,
                identifier,
                copyable,
                starter_prompts: value_object(),
                comments_enabled,
                songs,
                image_gen_enabled,
                base_image_prompt,
                image_prompt_regex,
                strip_image_prompt_from_message: strip,
            },
        )
    }

    /// Reads a full record from a document that describes one.
    pub fn from_json(json: &serde_json::Value) -> (r: Self)
        requires
            Self::decode(json_model(*json)) is Some,
        ensures
            Self::decode(json_model(*json)) == Some(r@),
    {
        match Self::try_from_json(json) {
            Some(c) => c,
            None => Self::new(
                "",
                "",
                "",
                "",
                "",
                None,
                Visibility::Public,
                None,
                "",
                None,
                None,
                "",
                "",
                "",
                "",
                false,
                value_object(),
                false,
                Vec::new(),
                false,
                "",
                "",
                false,
            ),
        }
    }
}

} // verus!
