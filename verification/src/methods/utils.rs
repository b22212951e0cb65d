//! The calls about voices, pictures and speech, and the ping.

use vstd::prelude::*;
use vstd::string::{StrSliceExecFns, StringExecFns};
use crate::json::{
    element, get_text, items_or_none, json_model, json_text, member_or, models, object1,
    opt_text_model, opt_text_value, text_at, text_value, value_get, value_get_index, value_null,
    value_object, value_set, value_text, value_u64, JsonModel,
};
use crate::methods::{
    decode_voices_under, listing, string_views, succeeded, voice_views, voices_under, Call,
    Listing,
};
use crate::outside::{base64_encode, base64_standard, percent_encode, percent_encoded, random_u128};
use crate::requester::{Body, BodyView, RequestOptions, RequesterError, RequesterErrorView};
use crate::string_map::{lemma_text_entries_upsert, text_entries, upsert, StringMap};
use crate::text::{byte_len, decimal, decimal_text, len_of, numbered, quoted, quoted_text};
use crate::types::enums::Visibility;
use crate::types::media::{avatar_url, Avatar, Voice, VoiceView};

verus! {

/// The voice under `voice` of an answer.
pub open spec fn voice_in(m: JsonModel) -> Option<VoiceView> {
    Voice::decode(member_or(m, "voice"@, JsonModel::Object(Map::empty())))
}

/// The addresses in a list of pictures: for each element that has a string
/// under `url`, that string.
pub open spec fn urls_in(items: Seq<JsonModel>) -> Seq<Seq<char>>
    decreases items.len(),
{
    if items.len() == 0 {
        Seq::empty()
    } else {
        match text_at(items.last(), "url"@) {
            Some(s) => urls_in(items.drop_last()).push(s),
            None => urls_in(items.drop_last()),
        }
    }
}

/// The body of `upload_avatar`: the picture as a data address, in the
/// envelope of a batch of one.
pub open spec fn upload_avatar_body(data: Seq<u8>, mime_type: Seq<char>) -> JsonModel {
    object1(
        "0"@,
        object1(
            "json"@,
            object1(
                "imageDataUrl"@,
                JsonModel::Text("data:"@ + mime_type + ";base64,"@ + base64_standard(data)),
            ),
        ),
    )
}

/// The name of the file of an uploaded picture: the string under `json` of
/// `data` of `result` of the first element of the answer.
pub open spec fn uploaded_file(m: JsonModel) -> Option<Seq<char>> {
    match element(m, 0) {
        Some(first) => text_at(
            member_or(member_or(first, "result"@, JsonModel::Null), "data"@, JsonModel::Null),
            "json"@,
        ),
        None => None,
    }
}

/// What is said against the fields of a voice, if anything: the name has 3
/// to 20 bytes, the description at most 120, and the voice is not unlisted.
pub open spec fn upload_voice_complaint(
    name: Seq<char>,
    description: Seq<char>,
    visibility: Visibility,
) -> Option<Seq<char>> {
    if byte_len(name) < 3 || byte_len(name) > 20 {
        Some(
            "mame cannot be less than 3 characters or more than 20 characters (is "@ + decimal(
                byte_len(name),
            ) + " characters)"@,
        )
    } else if byte_len(description) > 120 {
        Some(
            "description cannot be more than 120 characters (is "@ + decimal(
                byte_len(description),
            ) + " characters)"@,
        )
    } else if visibility == Visibility::Unlisted {
        Some("visibility cannot be Unlisted"@)
    } else {
        None
    }
}

/// The description of an uploaded voice, as the form carries it.
pub open spec fn upload_voice_json(
    name: Seq<char>,
    description: Seq<char>,
    visibility: Visibility,
) -> JsonModel {
    object1(
        "voice"@,
        JsonModel::Object(
            Map::empty().insert("name"@, JsonModel::Text(name)).insert(
                "description"@,
                JsonModel::Text(description),
            ).insert("gender"@, JsonModel::Text("neutral"@)).insert(
                "visibility"@,
                JsonModel::Text(visibility.name()),
            ).insert(
                "previewText"@,
                JsonModel::Text("Good day! Here to make life a little less complicated."@),
            ).insert("audioSourceType"@, JsonModel::Text("file"@)),
        ),
    )
}

/// What the form of an uploaded voice holds before the sound.
pub open spec fn form_head(boundary: Seq<char>, mime_type: Seq<char>) -> Seq<char> {
    "--"@ + boundary
        + "\r\nContent-Disposition: form-data; name=\"file\"; filename=\"input.mp3\"\r\nContent-Type: "@
        + mime_type + "\r\n\r\n"@
}

/// What the form of an uploaded voice holds after the sound.
pub open spec fn form_tail(boundary: Seq<char>, json: Seq<char>) -> Seq<char> {
    "\r\n--"@ + boundary + "\r\nContent-Disposition: form-data; name=\"json\"\r\n\r\n"@ + json
        + "\r\n--"@ + boundary + "--\r\n"@
}

/// The form of an uploaded voice, in bytes: the head, the sound, the tail.
pub open spec fn form_bytes(
    boundary: Seq<char>,
    mime_type: Seq<char>,
    data: Seq<u8>,
    json: Seq<char>,
) -> Seq<u8> {
    vstd::utf8::encode_utf8(form_head(boundary, mime_type)) + data + vstd::utf8::encode_utf8(
        form_tail(boundary, json),
    )
}

/// The boundary of a form, from a number.
pub open spec fn boundary_of(n: u128) -> Seq<char> {
    "---------------------------"@ + decimal(n as nat)
}

/// What is said against the fields of a changed voice, if anything.
pub open spec fn edit_voice_complaint(
    name: Seq<char>,
    description: Seq<char>,
    visibility: Visibility,
) -> Option<Seq<char>> {
    if byte_len(name) == 0 || byte_len(description) == 0 {
        Some("mame and description must be specified."@)
    } else if byte_len(name) < 3 || byte_len(name) > 20 {
        Some(
            "mame cannot be less than 3 characters or more than 20 characters (is "@ + decimal(
                byte_len(name),
            ) + " characters)"@,
        )
    } else if byte_len(description) > 120 {
        Some("Cannot edit voice. Description must be no more than 120 characters."@)
    } else if visibility == Visibility::Unlisted {
        Some("Cannot edit voice. Visibility must be 'public' or 'private'."@)
    } else {
        None
    }
}

/// An optional text as a document.
pub open spec fn opt_doc(s: Option<Seq<char>>) -> JsonModel {
    match s {
        Some(t) => JsonModel::Text(t),
        None => JsonModel::Null,
    }
}

/// The body of `edit_voice`: the record of the voice as a draft, with the
/// new name, description and visibility.
pub open spec fn edit_voice_body(
    voice: VoiceView,
    name: Seq<char>,
    description: Seq<char>,
    visibility: Visibility,
) -> JsonModel {
    object1(
        "voice"@,
        JsonModel::Object(
            Map::empty().insert("audioSourceType"@, JsonModel::Text("file"@)).insert(
                "backendId"@,
                JsonModel::Text(voice.id),
            ).insert("backendProvider"@, JsonModel::Text("cai"@)).insert(
                "creatorInfo"@,
                JsonModel::Object(
                    Map::empty().insert("id"@, opt_doc(voice.creator_id)).insert(
                        "source"@,
                        JsonModel::Text("user"@),
                    ).insert("username"@, JsonModel::Text(Seq::empty())),
                ),
            ).insert("description"@, JsonModel::Text(description)).insert(
                "gender"@,
                JsonModel::Text(voice.gender.name()),
            ).insert("id"@, JsonModel::Text(voice.id)).insert(
                "internalStatus"@,
                JsonModel::Text("draft"@),
            ).insert("lastUpdateTime"@, JsonModel::Text("0001-01-01T00:00:00Z"@)).insert(
                "name"@,
                JsonModel::Text(name),
            ).insert("previewAudioURI"@, opt_doc(voice.preview_audio_uri)).insert(
                "previewText"@,
                JsonModel::Text(voice.preview_text),
            ).insert("visibility"@, JsonModel::Text(visibility.name())),
        ),
    )
}

/// The body of `generate_speech`.
pub open spec fn generate_speech_body(
    chat_id: Seq<char>,
    turn_id: Seq<char>,
    candidate_id: Seq<char>,
    voice_id: Seq<char>,
) -> JsonModel {
    JsonModel::Object(
        Map::empty().insert("candidateId"@, JsonModel::Text(candidate_id)).insert(
            "roomId"@,
            JsonModel::Text(chat_id),
        ).insert("turnId"@, JsonModel::Text(turn_id)).insert(
            "voiceId"@,
            JsonModel::Text(voice_id),
        ),
    )
}

/// What the service says when it makes no speech: the text under `message`
/// of `error`, empty where there is none.
pub open spec fn speech_refusal(m: JsonModel) -> Seq<char> {
    "could not generate speech: "@ + (match text_at(
        member_or(m, "error"@, JsonModel::Null),
        "message"@,
    ) {
        Some(s) => s,
        None => Seq::empty(),
    })
}

/// What `generate_speech` asks of the caller after the first answer.
#[derive(Debug, Clone)]
pub enum Speech {
    /// The address of the sound is the result.
    Url(String),
    /// Fetch the sound at this address.
    Fetch(String),
}

/// Adds bytes to the end of a buffer.
pub fn append_bytes(out: &mut Vec<u8>, more: &Vec<u8>)
    ensures
        final(out)@ == old(out)@ + more@,
{
    let ghost start = out@;
    let mut i: usize = 0;
    assert(start + more@.take(0) =~= start);
    while i < more.len()
        invariant
            i <= more.len(),
            out@ == start + more@.take(i as int),
        decreases more.len() - i,
    {
        out.push(more[i]);
        assert(start + more@.take(i + 1) =~= (start + more@.take(i as int)).push(more@[i as int]));
        i += 1;
    }
    assert(more@.take(i as int) =~= more@);
}

/// The calls about voices, pictures and speech.
#[derive(Debug, Clone, Copy)]
pub struct UtilsMethods {}

impl UtilsMethods {
    pub fn new() -> (r: Self) {
        UtilsMethods {  }
    }

    fn voice_of(response: &serde_json::Value) -> (r: Option<Voice>)
        ensures
            match r {
                Some(v) => voice_in(json_model(*response)) == Some(v@),
                None => voice_in(json_model(*response)) is None,
            },
    {
        let blank = value_object();
        match value_get(response, "voice") {
            Some(v) => Voice::try_from_json(v),
            None => Voice::try_from_json(&blank),
        }
    }

    /// The request for one voice.
    pub fn fetch_voice_request(voice_id: &str, headers: StringMap<String>) -> (r: Call)
        ensures
            r.is(
                "GET"@,
                "https://neo.character.ai/multimodal/api/v1/voices/"@ + voice_id@,
                headers,
                None,
            ),
    {
        Call::plain(
            "GET",
            "https://neo.character.ai/multimodal/api/v1/voices/".to_owned().concat(voice_id),
            headers,
        )
    }

    /// The voice under `voice`, or `None` where it cannot be read.
    pub fn fetch_voice(response: &serde_json::Value) -> (r: Option<Voice>)
        ensures
            match r {
                Some(v) => voice_in(json_model(*response)) == Some(v@),
                None => voice_in(json_model(*response)) is None,
            },
    {
        Self::voice_of(response)
    }

    /// The request that searches for voices by name.
    pub fn search_voices_request(voice_name: &str, headers: StringMap<String>) -> (r: Call)
        ensures
            r.is(
                "GET"@,
                "https://neo.character.ai/multimodal/api/v1/voices/search?query="@
                    + percent_encoded(vstd::utf8::encode_utf8(voice_name@)),
                headers,
                None,
            ),
    {
        let url =
            "https://neo.character.ai/multimodal/api/v1/voices/search?query=".to_owned().concat(
            percent_encode(voice_name).as_str(),
        );
        Call::plain("GET", url, headers)
    }

    /// The voices that a search found: the list under `voices`, empty
    /// where there is no list. `None` where a voice cannot be read.
    pub fn search_voices(response: &serde_json::Value) -> (r: Option<Vec<Voice>>)
        ensures
            match r {
                Some(list) => decode_voices_under(json_model(*response), "voices"@, false) == Some(
                    voice_views(list@),
                ),
                None => decode_voices_under(json_model(*response), "voices"@, false) is None,
            },
    {
        voices_under(response, "voices", false)
    }

    /// The request for pictures made from a prompt; four where no number
    /// is given.
    pub fn generate_image_request(
        prompt: &str,
        num_candidates: Option<u8>,
        headers: StringMap<String>,
    ) -> (r: Call)
        ensures
            r.is(
                "POST"@,
                "https://plus.character.ai/chat/character/generate-avatar-options"@,
                headers,
                Some(
                    BodyView::Text(
                        json_text(
                            JsonModel::Object(
                                Map::empty().insert("prompt"@, JsonModel::Text(prompt@)).insert(
                                    "num_candidates"@,
                                    JsonModel::Integer(
                                        match num_candidates {
                                            Some(n) => n as int,
                                            None => 4,
                                        },
                                    ),
                                ).insert("model_version"@, JsonModel::Text("v1"@)),
                            ),
                        ),
                    ),
                ),
            ),
    {
        let n: u8 = match num_candidates {
            Some(n) => n,
            None => 4,
        };
        let mut body = value_object();
        value_set(&mut body, "prompt", text_value(prompt));
        value_set(&mut body, "num_candidates", value_u64(n as u64));
        value_set(&mut body, "model_version", text_value("v1"));
        Call::with_json(
            "POST",
            "https://plus.character.ai/chat/character/generate-avatar-options".to_owned(),
            headers,
            &body,
        )
    }

    /// The addresses of the pictures: those of the list under `result`.
    pub fn generate_image(response: &serde_json::Value) -> (r: Vec<String>)
        ensures
            string_views(r@) == urls_in(items_or_none(json_model(*response), "result"@)),
    {
        let mut out: Vec<String> = Vec::new();
        assert(string_views(out@) =~= Seq::<Seq<char>>::empty());
        match listing(response, "result") {
            Listing::Items(items) => {
                let ghost all = models(items@);
                let mut i: usize = 0;
                assert(all.take(0) =~= Seq::<JsonModel>::empty());
                while i < items.len()
                    invariant
                        i <= items.len(),
                        all == models(items@),
                        string_views(out@) == urls_in(all.take(i as int)),
                    decreases items.len() - i,
                {
                    assert(all.take(i + 1).drop_last() =~= all.take(i as int));
                    assert(all.take(i + 1).last() == json_model(items@[i as int]));
                    let ghost before = out@;
                    match get_text(&items[i], "url") {
                        Some(s) => {
                            out.push(s);
                            assert(string_views(out@) =~= string_views(before).push(s@));
                        },
                        None => {},
                    }
                    i += 1;
                }
                assert(all.take(i as int) =~= all);
            },
            _ => {},
        }
        out
    }

    /// The request that uploads a picture.
    pub fn upload_avatar_request(data: &Vec<u8>, mime_type: &str, headers: StringMap<String>) -> (r:
        Call)
        ensures
            r.is(
                "POST"@,
                "https://character.ai/api/trpc/user.uploadAvatar?batch=1"@,
                headers,
                Some(BodyView::Text(json_text(upload_avatar_body(data@, mime_type@)))),
            ),
    {
        let address = "data:".to_owned().concat(mime_type).concat(";base64,").concat(
            base64_encode(data).as_str(),
        );
        let mut image = value_object();
        value_set(&mut image, "imageDataUrl", text_value(address.as_str()));
        let mut inner = value_object();
        value_set(&mut inner, "json", image);
        let mut body = value_object();
        value_set(&mut body, "0", inner);
        Call::with_json(
            "POST",
            "https://character.ai/api/trpc/user.uploadAvatar?batch=1".to_owned(),
            headers,
            &body,
        )
    }

    /// The uploaded picture, by the file that the answer names; an answer
    /// that names none is a failure.
    pub fn upload_avatar(response: &serde_json::Value) -> (r: Result<Avatar, String>)
        ensures
            match r {
                Ok(a) => uploaded_file(json_model(*response)) == Some(a.file_name@),
                Err(e) => uploaded_file(json_model(*response)) is None && e@
                    == "Cannot upload avatar. Invalid response."@,
            },
    {
        let null = value_null();
        let name = match value_get_index(response, 0) {
            Some(first) => {
                let result = match value_get(first, "result") {
                    Some(x) => x,
                    None => &null,
                };
                let data = match value_get(result, "data") {
                    Some(x) => x,
                    None => &null,
                };
                get_text(data, "json")
            },
            None => None,
        };
        match name {
            Some(file_name) => Ok(Avatar { file_name }),
            None => Err("Cannot upload avatar. Invalid response.".to_owned()),
        }
    }

    /// The request that looks whether an uploaded picture can be had.
    pub fn upload_avatar_check_request(avatar: &Avatar, headers: StringMap<String>) -> (r: Call)
        ensures
            r.is("GET"@, avatar_url(avatar.file_name@, 400, false), headers, None),
    {
        Call::plain("GET", avatar.get_default_url(), headers)
    }

    /// The uploaded picture once it was looked for: a picture that cannot
    /// be had is a failure, which names the kind of the failed call.
    pub fn upload_avatar_checked<T>(avatar: Avatar, outcome: &Result<T, RequesterError>) -> (r:
        Result<Avatar, String>)
        ensures
            match outcome {
                Ok(_) => r == Ok::<Avatar, String>(avatar),
                Err(e) => r is Err && r->Err_0@ == "Cannot upload avatar. "@ + e@.description(),
            },
    {
        match outcome {
            Ok(_) => Ok(avatar),
            Err(e) => Err("Cannot upload avatar. ".to_owned().concat(e.to_string().as_str())),
        }
    }

    /// The form of an uploaded voice for a given boundary.
    pub fn upload_voice_form(
        boundary: &str,
        data: &Vec<u8>,
        mime_type: &str,
        name: &str,
        description: &str,
        visibility: Visibility,
    ) -> (r: Vec<u8>)
        ensures
            r@ == form_bytes(
                boundary@,
                mime_type@,
                data@,
                json_text(upload_voice_json(name@, description@, visibility)),
            ),
    {
        let mut voice = value_object();
        value_set(&mut voice, "name", text_value(name));
        value_set(&mut voice, "description", text_value(description));
        value_set(&mut voice, "gender", text_value("neutral"));
        value_set(&mut voice, "visibility", text_value(visibility.to_string()));
        value_set(
            &mut voice,
            "previewText",
            text_value("Good day! Here to make life a little less complicated."),
        );
        value_set(&mut voice, "audioSourceType", text_value("file"));
        let mut json = value_object();
        value_set(&mut json, "voice", voice);
        let head = "--".to_owned().concat(boundary).concat(
            "\r\nContent-Disposition: form-data; name=\"file\"; filename=\"input.mp3\"\r\nContent-Type: ",
        ).concat(mime_type).concat("\r\n\r\n");
        let tail = "\r\n--".to_owned().concat(boundary).concat(
            "\r\nContent-Disposition: form-data; name=\"json\"\r\n\r\n",
        ).concat(value_text(&json).as_str()).concat("\r\n--").concat(boundary).concat("--\r\n");
        let mut body = head.as_str().as_bytes_vec();
        append_bytes(&mut body, data);
        let end = tail.as_str().as_bytes_vec();
        append_bytes(&mut body, &end);
        body
    }

    /// The request that uploads a voice, as a form under a boundary drawn
    /// at random. The fields are checked first; the error is the complaint
    /// against them. Without a description the description is empty, and
    /// without a visibility the voice is hidden.
    pub fn upload_voice_request(
        data: &Vec<u8>,
        mime_type: &str,
        name: &str,
        description: Option<&str>,
        visibility: Option<Visibility>,
        headers: StringMap<String>,
    ) -> (r: Result<Call, String>)
        ensures
            match r {
                Ok(call) => upload_voice_complaint(
                    name@,
                    crate::methods::account::or_empty(description),
                    match visibility {
                        Some(v) => v,
                        None => Visibility::Hidden,
                    },
                ) is None && call.url@ == "https://neo.character.ai/multimodal/api/v1/voices/"@
                    && call.options.method@ == "POST"@ && exists|n: u128|
                    text_entries(call.options.headers@) == upsert(
                        text_entries(headers@),
                        "Content-Type"@,
                        "multipart/form-data; boundary="@ + #[trigger] boundary_of(n),
                    ) && crate::requester::body_view(call.options.body) == Some(
                        BodyView::Bytes(
                            form_bytes(
                                boundary_of(n),
                                mime_type@,
                                data@,
                                json_text(
                                    upload_voice_json(
                                        name@,
                                        crate::methods::account::or_empty(description),
                                        match visibility {
                                            Some(v) => v,
                                            None => Visibility::Hidden,
                                        },
                                    ),
                                ),
                            ),
                        ),
                    ),
                Err(e) => upload_voice_complaint(
                    name@,
                    crate::methods::account::or_empty(description),
                    match visibility {
                        Some(v) => v,
                        None => Visibility::Hidden,
                    },
                ) == Some(e@),
            },
    {
        proof {
            reveal_strlit("");
        }
        assert(""@ =~= Seq::<char>::empty());
        let description_text = match description {
            Some(d) => d,
            None => "",
        };
        let shown = match visibility {
            Some(v) => v,
            None => Visibility::Hidden,
        };
        if len_of(name) < 3 || len_of(name) > 20 {
            return Err(
                numbered(
                    "mame cannot be less than 3 characters or more than 20 characters (is ",
                    len_of(name),
                    " characters)",
                ),
            );
        }
        if len_of(description_text) > 120 {
            return Err(
                numbered(
                    "description cannot be more than 120 characters (is ",
                    len_of(description_text),
                    " characters)",
                ),
            );
        }
        if shown == Visibility::Unlisted {
            return Err("visibility cannot be Unlisted".to_owned());
        }
        let n = random_u128();
        let boundary = "---------------------------".to_owned().concat(decimal_text(n).as_str());
        let body = Self::upload_voice_form(
            boundary.as_str(),
            data,
            mime_type,
            name,
            description_text,
            shown,
        );
        let content_type = "multipart/form-data; boundary=".to_owned().concat(boundary.as_str());
        let mut headers = headers;
        let ghost before = headers@;
        proof {
            lemma_text_entries_upsert(before, "Content-Type"@, content_type);
        }
        headers.insert("Content-Type".to_owned(), content_type);
        let call = Call {
            url: "https://neo.character.ai/multimodal/api/v1/voices/".to_owned(),
            options: RequestOptions::new("POST", headers, Some(Body::Bytes(body))),
        };
        assert(boundary@ == boundary_of(n));
        Ok(call)
    }

    /// The voice that an upload gave: the one under `voice`. An answer
    /// without a voice is a failure; `None` where the voice cannot be read.
    pub fn upload_voice(response: &serde_json::Value) -> (r: Option<Result<Voice, String>>)
        ensures
            match r {
                Some(Ok(v)) => crate::json::member(json_model(*response), "voice"@) is Some
                    && voice_in(json_model(*response)) == Some(v@),
                Some(Err(e)) => crate::json::member(json_model(*response), "voice"@) is None && e@
                    == "Cannot upload voice. Invalid response."@,
                None => crate::json::member(json_model(*response), "voice"@) is Some && voice_in(
                    json_model(*response),
                ) is None,
            },
    {
        match value_get(response, "voice") {
            Some(v) => match Voice::try_from_json(v) {
                Some(voice) => Some(Ok(voice)),
                None => None,
            },
            None => Some(Err("Cannot upload voice. Invalid response.".to_owned())),
        }
    }

    /// The request that changes a voice. What is not given stays as the
    /// voice has it; the fields are then checked, and the error is the
    /// complaint against them.
    pub fn edit_voice_request(
        voice: &Voice,
        name: Option<&str>,
        description: Option<&str>,
        visibility: Option<Visibility>,
        headers: StringMap<String>,
    ) -> (r: Result<Call, String>)
        ensures
            match r {
                Ok(call) => edit_voice_complaint(
                    match name {
                        Some(n) => n@,
                        None => voice@.name,
                    },
                    match description {
                        Some(d) => d@,
                        None => voice@.description,
                    },
                    match visibility {
                        Some(v) => v,
                        None => voice@.visibility,
                    },
                ) is None && call.is(
                    "PUT"@,
                    "https://neo.character.ai/multimodal/api/v1/voices/"@ + voice@.id,
                    headers,
                    Some(
                        BodyView::Text(
                            json_text(
                                edit_voice_body(
                                    voice@,
                                    match name {
                                        Some(n) => n@,
                                        None => voice@.name,
                                    },
                                    match description {
                                        Some(d) => d@,
                                        None => voice@.description,
                                    },
                                    match visibility {
                                        Some(v) => v,
                                        None => voice@.visibility,
                                    },
                                ),
                            ),
                        ),
                    ),
                ),
                Err(e) => edit_voice_complaint(
                    match name {
                        Some(n) => n@,
                        None => voice@.name,
                    },
                    match description {
                        Some(d) => d@,
                        None => voice@.description,
                    },
                    match visibility {
                        Some(v) => v,
                        None => voice@.visibility,
                    },
                ) == Some(e@),
            },
    {
        proof {
            reveal_strlit("");
        }
        assert(""@ =~= Seq::<char>::empty());
        let name = match name {
            Some(n) => n,
            None => voice.name.as_str(),
        };
        let description = match description {
            Some(d) => d,
            None => voice.description.as_str(),
        };
        let visibility = match visibility {
            Some(v) => v,
            None => voice.visibility,
        };
        if len_of(name) == 0 || len_of(description) == 0 {
            return Err("mame and description must be specified.".to_owned());
        }
        if len_of(name) < 3 || len_of(name) > 20 {
            return Err(
                numbered(
                    "mame cannot be less than 3 characters or more than 20 characters (is ",
                    len_of(name),
                    " characters)",
                ),
            );
        }
        if len_of(description) > 120 {
            return Err(
                "Cannot edit voice. Description must be no more than 120 characters.".to_owned(),
            );
        }
        if visibility == Visibility::Unlisted {
            return Err(
                "Cannot edit voice. Visibility must be 'public' or 'private'.".to_owned(),
            );
        }
        let mut creator = value_object();
        value_set(&mut creator, "id", opt_text_value(&voice.creator_id));
        value_set(&mut creator, "source", text_value("user"));
        value_set(&mut creator, "username", text_value(""));
        assert(opt_text_model(voice.creator_id) == opt_doc(voice@.creator_id));
        assert(opt_text_model(voice.preview_audio_uri) == opt_doc(voice@.preview_audio_uri));
        let mut record = value_object();
        value_set(&mut record, "audioSourceType", text_value("file"));
        value_set(&mut record, "backendId", text_value(voice.id.as_str()));
        value_set(&mut record, "backendProvider", text_value("cai"));
        value_set(&mut record, "creatorInfo", creator);
        value_set(&mut record, "description", text_value(description));
        value_set(&mut record, "gender", text_value(voice.gender.to_string()));
        value_set(&mut record, "id", text_value(voice.id.as_str()));
        value_set(&mut record, "internalStatus", text_value("draft"));
        value_set(&mut record, "lastUpdateTime", text_value("0001-01-01T00:00:00Z"));
        value_set(&mut record, "name", text_value(name));
        value_set(&mut record, "previewAudioURI", opt_text_value(&voice.preview_audio_uri));
        value_set(&mut record, "previewText", text_value(voice.preview_text.as_str()));
        value_set(&mut record, "visibility", text_value(visibility.to_string()));
        let mut body = value_object();
        value_set(&mut body, "voice", record);
        let url = "https://neo.character.ai/multimodal/api/v1/voices/".to_owned().concat(
            voice.id.as_str(),
        );
        Ok(Call::with_json("PUT", url, headers, &body))
    }

    /// The changed voice: the one under `voice`, or `None` where it cannot
    /// be read.
    pub fn edit_voice(response: &serde_json::Value) -> (r: Option<Voice>)
        ensures
            match r {
                Some(v) => voice_in(json_model(*response)) == Some(v@),
                None => voice_in(json_model(*response)) is None,
            },
    {
        Self::voice_of(response)
    }

    /// The request that deletes a voice.
    pub fn delete_voice_request(voice_id: &str, headers: StringMap<String>) -> (r: Call)
        ensures
            r.is(
                "DELETE"@,
                "https://neo.character.ai/multimodal/api/v1/voices/"@ + voice_id@,
                headers,
                None,
            ),
    {
        Call::plain(
            "DELETE",
            "https://neo.character.ai/multimodal/api/v1/voices/".to_owned().concat(voice_id),
            headers,
        )
    }

    /// Whether the voice was deleted: the call went through.
    pub fn delete_voice<T>(outcome: &Result<T, RequesterError>) -> (r: bool)
        ensures
            r == outcome is Ok,
    {
        succeeded(outcome)
    }

    /// The request that has a candidate spoken by a voice.
    pub fn generate_speech_request(
        chat_id: &str,
        turn_id: &str,
        candidate_id: &str,
        voice_id: &str,
        headers: StringMap<String>,
    ) -> (r: Call)
        ensures
            r.is(
                "POST"@,
                "https://neo.character.ai/multimodal/api/v1/memo/replay"@,
                headers,
                Some(
                    BodyView::Text(
                        json_text(
                            generate_speech_body(chat_id@, turn_id@, candidate_id@, voice_id@),
                        ),
                    ),
                ),
            ),
    {
        let mut body = value_object();
        value_set(&mut body, "candidateId", text_value(candidate_id));
        value_set(&mut body, "roomId", text_value(chat_id));
        value_set(&mut body, "turnId", text_value(turn_id));
        value_set(&mut body, "voiceId", text_value(voice_id));
        Call::with_json(
            "POST",
            "https://neo.character.ai/multimodal/api/v1/memo/replay".to_owned(),
            headers,
            &body,
        )
    }

    /// What the answer to `generate_speech` amounts to. Where it names the
    /// address of the sound under `replayUrl`, the address is the result if
    /// the caller asked for it, and is to be fetched if not; an answer
    /// without the address is a failure with what the service says.
    pub fn generate_speech(response: &serde_json::Value, return_url: bool) -> (r: Result<
        Speech,
        String,
    >)
        ensures
            match r {
                Ok(Speech::Url(u)) => return_url && text_at(json_model(*response), "replayUrl"@)
                    == Some(u@),
                Ok(Speech::Fetch(u)) => !return_url && text_at(json_model(*response), "replayUrl"@)
                    == Some(u@),
                Err(e) => text_at(json_model(*response), "replayUrl"@) is None && e@
                    == speech_refusal(json_model(*response)),
            },
    {
        match get_text(response, "replayUrl") {
            Some(url) => if return_url {
                Ok(Speech::Url(url))
            } else {
                Ok(Speech::Fetch(url))
            },
            None => {
                let null = value_null();
                let error = match value_get(response, "error") {
                    Some(e) => e,
                    None => &null,
                };
                let message = match get_text(error, "message") {
                    Some(s) => s,
                    None => String::new(),
                };
                Err("could not generate speech: ".to_owned().concat(message.as_str()))
            },
        }
    }

    /// The request for the sound of a speech.
    pub fn generate_speech_audio_request(audio_url: &str, headers: StringMap<String>) -> (r: Call)
        ensures
            r.is("GET"@, audio_url@, headers, None),
    {
        Call::plain("GET", audio_url.to_owned(), headers)
    }

    /// The sound of a speech: the bytes that were read, or a failure that
    /// quotes why they could not be.
    pub fn generate_speech_audio(read: Result<Vec<u8>, String>) -> (r: Result<
        Vec<u8>,
        RequesterError,
    >)
        ensures
            match read {
                Ok(bytes) => r == Ok::<Vec<u8>, RequesterError>(bytes),
                Err(reason) => r is Err && r->Err_0@ == RequesterErrorView::RequestFailed(
                    "could not retrieve bytes from generated voice url: "@ + quoted_text(reason@),
                ),
            },
    {
        match read {
            Ok(bytes) => Ok(bytes),
            Err(reason) => Err(
                RequesterError::RequestFailed(
                    "could not retrieve bytes from generated voice url: ".to_owned().concat(
                        quoted(reason.as_str()).as_str(),
                    ),
                ),
            ),
        }
    }

    /// The request of the ping.
    pub fn ping_request(headers: StringMap<String>) -> (r: Call)
        ensures
            r.is("GET"@, "https://neo.character.ai/ping/"@, headers, None),
    {
        Call::plain("GET", "https://neo.character.ai/ping/".to_owned(), headers)
    }

    /// Whether the service answered the ping: the call went through with
    /// status 200.
    pub fn ping(outcome: &Result<u16, RequesterError>) -> (r: bool)
        ensures
            r == (outcome == Ok::<u16, RequesterError>(200u16)),
    {
        match outcome {
            Ok(status) => *status == 200,
            Err(_) => false,
        }
    }
}

} // verus!
