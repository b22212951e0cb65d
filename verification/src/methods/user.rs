//! The calls about other users.

use vstd::prelude::*;
use vstd::string::StringExecFns;
use crate::json::{
    json_model, json_text, member_or, object1, text_value, value_get, value_object, value_set,
    JsonModel,
};
use crate::methods::{
    confirmed, decode_voices_under, reports_ok, voice_views, voices_under, Call,
};
use crate::requester::{BodyView, RequesterError};
use crate::string_map::StringMap;
use crate::types::media::Voice;
use crate::types::user::User;

verus! {

/// The calls about other users.
#[derive(Debug, Clone, Copy)]
pub struct UserMethods {}

impl UserMethods {
    pub fn new() -> (r: Self) {
        UserMethods {  }
    }

    fn named_call(url: &str, username: &str, headers: StringMap<String>) -> (r: Call)
        ensures
            r.is(
                "POST"@,
                url@,
                headers,
                Some(BodyView::Text(json_text(object1("username"@, JsonModel::Text(username@))))),
            ),
    {
        let mut body = value_object();
        value_set(&mut body, "username", text_value(username));
        Call::with_json("POST", url.to_owned(), headers, &body)
    }

    /// The request for the public record of a user.
    pub fn fetch_user_request(username: &str, headers: StringMap<String>) -> (r: Call)
        ensures
            r.is(
                "POST"@,
                "https://plus.character.ai/chat/user/public/"@,
                headers,
                Some(BodyView::Text(json_text(object1("username"@, JsonModel::Text(username@))))),
            ),
    {
        Self::named_call("https://plus.character.ai/chat/user/public/", username, headers)
    }

    /// The user under `public_user`, or `None` where the record cannot be
    /// read.
    pub fn fetch_user(response: &serde_json::Value) -> (r: Option<User>)
        ensures
            match r {
                Some(u) => User::decode(
                    member_or(
                        json_model(*response),
                        "public_user"@,
                        JsonModel::Object(Map::empty()),
                    ),
                ) == Some(u@),
                None => User::decode(
                    member_or(
                        json_model(*response),
                        "public_user"@,
                        JsonModel::Object(Map::empty()),
                    ),
                ) is None,
            },
    {
        let blank = value_object();
        match value_get(response, "public_user") {
            Some(u) => User::try_from_json(u),
            None => User::try_from_json(&blank),
        }
    }

    /// The request for the voices that a user made.
    pub fn fetch_user_voices_request(username: &str, headers: StringMap<String>) -> (r: Call)
        ensures
            r.is(
                "GET"@,
                "https://neo.character.ai/multimodal/api/v1/voices/search?creatorInfo.username="@
                    + username@,
                headers,
                None,
            ),
    {
        Call::plain(
            "GET",
            "https://neo.character.ai/multimodal/api/v1/voices/search?creatorInfo.username=".to_owned().concat(
                username,
            ),
            headers,
        )
    }

    /// The voices of a user: the list under `voices`, empty where there is
    /// no list. `None` where a voice cannot be read.
    pub fn fetch_user_voices(response: &serde_json::Value) -> (r: Option<Vec<Voice>>)
        ensures
            match r {
                Some(list) => decode_voices_under(json_model(*response), "voices"@, false) == Some(
                    voice_views(list@),
                ),
                None => decode_voices_under(json_model(*response), "voices"@, false) is None,
            },
    {
        voices_under(response, "voices", false)
    }

    /// The request that follows a user.
    pub fn follow_user_request(username: &str, headers: StringMap<String>) -> (r: Call)
        ensures
            r.is(
                "POST"@,
                "https://plus.character.ai/chat/user/follow/"@,
                headers,
                Some(BodyView::Text(json_text(object1("username"@, JsonModel::Text(username@))))),
            ),
    {
        Self::named_call("https://plus.character.ai/chat/user/follow/", username, headers)
    }

    /// Whether the user is followed now: the call went through and its
    /// answer reports `OK`.
    pub fn follow_user(outcome: &Result<serde_json::Value, RequesterError>) -> (r: bool)
        ensures
            r == match outcome {
                Ok(response) => reports_ok(json_model(*response)),
                Err(_) => false,
            },
    {
        confirmed(outcome)
    }

    /// The request that stops following a user.
    pub fn unfollow_user_request(username: &str, headers: StringMap<String>) -> (r: Call)
        ensures
            r.is(
                "POST"@,
                "https://plus.character.ai/chat/user/unfollow/"@,
                headers,
                Some(BodyView::Text(json_text(object1("username"@, JsonModel::Text(username@))))),
            ),
    {
        Self::named_call("https://plus.character.ai/chat/user/unfollow/", username, headers)
    }

    /// Whether the user is no longer followed: the call went through and
    /// its answer reports `OK`.
    pub fn unfollow_user(outcome: &Result<serde_json::Value, RequesterError>) -> (r: bool)
        ensures
            r == match outcome {
                Ok(response) => reports_ok(json_model(*response)),
                Err(_) => false,
            },
    {
        confirmed(outcome)
    }
}

} // verus!
