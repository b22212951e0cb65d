//! Pictures and voices.

use vstd::prelude::*;
use vstd::string::StringExecFns;
use crate::json::{
    get_text, get_text_strict, get_text_strict_or, json_model, member_or, text_at, text_strict,
    text_strict_or, value_get, value_object, JsonModel,
};
use crate::text::{opt_view, signed_decimal, signed_decimal_text};
use crate::types::enums::{Gender, Visibility};

verus! {

/// A picture, by the name of its file at the service.
#[derive(Debug, Clone, PartialEq, Eq)]
pub struct Avatar {
    pub file_name: String,
}

/// The content of an optional picture: the name of its file.
pub open spec fn avatar_view(a: Option<Avatar>) -> Option<Seq<char>> {
    match a {
        Some(x) => Some(x.file_name@),
        None => None,
    }
}

/// The address of a picture in a given size: the size in decimal, and `1`
/// for the animated picture, `0` for the still one.
pub open spec fn avatar_url(file_name: Seq<char>, size: int, animated: bool) -> Seq<char> {
    "https://characterai.io/i/"@ + signed_decimal(size) + "/static/avatars/"@ + file_name
        + "?webp=true&anim="@ + (if animated {
        "1"@
    } else {
        "0"@
    })
}

impl Avatar {
    pub fn new(file_name: &str) -> (r: Self)
        ensures
            r.file_name@ == file_name@,
    {
        Self { file_name: file_name.to_owned() }
    }

    /// The picture that a document names under `avatar_file_name`, if it
    /// names one.
    pub fn from_json(json: &serde_json::Value) -> (r: Option<Self>)
        ensures
            avatar_view(r) == text_at(json_model(*json), "avatar_file_name"@),
    {
        match get_text(json, "avatar_file_name") {
            Some(name) => Some(Self { file_name: name }),
            None => None,
        }
    }

    /// The address of the picture in a given size.
    pub fn get_url(&self, size: i32, animated: bool) -> (r: String)
        ensures
            r@ == avatar_url(self.file_name@, size as int, animated),
    {
        "https://characterai.io/i/".to_owned().concat(
            signed_decimal_text(size as i64).as_str(),
        ).concat("/static/avatars/").concat(self.file_name.as_str()).concat(
            "?webp=true&anim=",
        ).concat(
            if animated {
                "1"
            } else {
                "0"
            },
        )
    }

    /// The address of the still picture in size 400.
    pub fn get_default_url(&self) -> (r: String)
        ensures
            r@ == avatar_url(self.file_name@, 400, false),
    {
        self.get_url(400, false)
    }

    /// An owned copy.
    pub fn snapshot(&self) -> (r: Self)
        ensures
            r.file_name@ == self.file_name@,
    {
        Self { file_name: self.file_name.clone() }
    }
}

/// An owned copy of an optional picture.
pub fn copy_avatar(a: &Option<Avatar>) -> (r: Option<Avatar>)
    ensures
        avatar_view(r) == avatar_view(*a),
{
    match a {
        Some(x) => Some(x.snapshot()),
        None => None,
    }
}

/// A voice.
#[derive(Debug, Clone)]
pub struct Voice {
    pub id: String,
    pub name: String,
    pub description: String,
    pub gender: Gender,
    pub visibility: Visibility,
    pub preview_text: String,
    pub preview_audio_uri: Option<String>,
    pub creator_id: Option<String>,
    pub creator_username: Option<String>,
    pub last_update: Option<String>,
    pub internal_status: String,
}

/// The content of a [`Voice`].
pub struct VoiceView {
    pub id: Seq<char>,
    pub name: Seq<char>,
    pub description: Seq<char>,
    pub gender: Gender,
    pub visibility: Visibility,
    pub preview_text: Seq<char>,
    pub preview_audio_uri: Option<Seq<char>>,
    pub creator_id: Option<Seq<char>>,
    pub creator_username: Option<Seq<char>>,
    pub last_update: Option<Seq<char>>,
    pub internal_status: Seq<char>,
}

impl View for Voice {
    type V = VoiceView;

    open spec fn view(&self) -> VoiceView {
        VoiceView {
            id: self.id@,
            name: self.name@,
            description: self.description@,
            gender: self.gender,
            visibility: self.visibility,
            preview_text: self.preview_text@,
            preview_audio_uri: opt_view(self.preview_audio_uri),
            creator_id: opt_view(self.creator_id),
            creator_username: opt_view(self.creator_username),
            last_update: opt_view(self.last_update),
            internal_status: self.internal_status@,
        }
    }
}

impl Voice {
    /// The voice that a document describes. An absent text is empty, an
    /// absent gender is `neutral`, an absent visibility `PRIVATE`; the
    /// creator is read from `creatorInfo`. A document with anything but a
    /// string under `id`, `name`, `description`, `gender`, `visibility`,
    /// `preview_text` or `internal_status` describes no voice.
    pub open spec fn decode(m: JsonModel) -> Option<VoiceView> {
        let creator = member_or(m, "creatorInfo"@, JsonModel::Object(Map::empty()));
        match (
            text_strict(m, "id"@),
            text_strict(m, "name"@),
            text_strict(m, "description"@),
            text_strict_or(m, "gender"@, "neutral"@),
            text_strict_or(m, "visibility"@, "PRIVATE"@),
            text_strict(m, "preview_text"@),
            text_strict(m, "internal_status"@),
        ) {
            (
                Some(id),
                Some(name),
                Some(description),
                Some(gender),
                Some(visibility),
                Some(preview_text),
                Some(internal_status),
            ) => Some(
                VoiceView {
                    id,
                    name,
                    description,
                    gender: Gender::of_name(gender),
                    visibility: Visibility::of_name(visibility),
                    preview_text,
                    preview_audio_uri: text_at(m, "preview_audio_uri"@),
                    creator_id: text_at(creator, "id"@),
                    creator_username: text_at(creator, "username"@),
                    last_update: text_at(m, "last_update"@),
                    internal_status,
                },
            ),
            _ => None,
        }
    }

    pub fn new(
        id: &str,
        name: &str,
        description: &str,
        gender: Gender,
        visibility: Visibility,
        preview_text: &str,
        preview_audio_uri: Option<String>,
        creator_id: Option<String>,
        creator_username: Option<String>,
        last_update: Option<String>,
        internal_status: &str,
    ) -> (r: Self)
        ensures
            r@ == (VoiceView {
                id: id@,
                name: name@,
                description: description@,
                gender,
                visibility,
                preview_text: preview_text@,
                preview_audio_uri: opt_view(preview_audio_uri),
                creator_id: opt_view(creator_id),
                creator_username: opt_view(creator_username),
                last_update: opt_view(last_update),
                internal_status: internal_status@,
            }),
    {
        Self {
            id: id.to_owned(),
            name: name.to_owned(),
            description: description.to_owned(),
            gender,
            visibility,
            preview_text: preview_text.to_owned(),
            preview_audio_uri,
            creator_id,
            creator_username,
            last_update,
            internal_status: internal_status.to_owned(),
        }
    }

    /// Reads a voice, or `None` where the document describes none.
    pub fn try_from_json(json: &serde_json::Value) -> (r: Option<Self>)
        ensures
            match r {
                Some(v) => Self::decode(json_model(*json)) == Some(v@),
                None => Self::decode(json_model(*json)) is None,
            },
    {
        let blank = value_object();
        let creator = match value_get(json, "creatorInfo") {
            Some(c) => c,
            None => &blank,
        };
        let id = match get_text_strict(json, "id") {
            Some(s) => s,
            None => { return None; },
        };
        let name = match get_text_strict(json, "name") {
            Some(s) => s,
            None => { return None; },
        };
        let description = match get_text_strict(json, "description") {
            Some(s) => s,
            None => { return None; },
        };
        let gender = match get_text_strict_or(json, "gender", "neutral") {
            Some(s) => s,
            None => { return None; },
        };
        let visibility = match get_text_strict_or(json, "visibility", "PRIVATE") {
            Some(s) => s,
            None => { return None; },
        };
        let preview_text = match get_text_strict(json, "preview_text") {
            Some(s) => s,
            None => { return None; },
        };
        let internal_status = match get_text_strict(json, "internal_status") {
            Some(s) => s,
            None => { return None; },
        };
        Some(
            Self {
                id,
                name,
                description,
                gender: Gender::from_string(gender.as_str()),
                visibility: Visibility::from_string(visibility.as_str()),
                preview_text,
                preview_audio_uri: get_text(json, "preview_audio_uri"),
                creator_id: get_text(creator, "id"),
                creator_username: get_text(creator, "username"),
                last_update: get_text(json, "last_update"),
                internal_status,
            },
        )
    }

    /// Reads a voice from a document that describes one.
    pub fn from_json(json: &serde_json::Value) -> (r: Self)
        requires
            Self::decode(json_model(*json)) is Some,
        ensures
            Self::decode(json_model(*json)) == Some(r@),
    {
        match Self::try_from_json(json) {
            Some(v) => v,
            None => Self::new(
                "",
                "",
                "",
                Gender::Neutral,
                Visibility::Hidden,
                "",
                None,
                None,
                None,
                None,
                "",
            ),
        }
    }
}

} // verus!
