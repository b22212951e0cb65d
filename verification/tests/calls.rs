use characterai::frame::InboundFrame;
use characterai::methods::account::AccountMethods;
use characterai::methods::character::CharacterMethods;
use characterai::methods::chat::{ChatMethods, PageStep};
use characterai::methods::user::UserMethods;
use characterai::methods::utils::{Speech, UtilsMethods};
use characterai::methods::Call;
use characterai::requester::{Body, HttpMethod, RequestOptions, Requester, RequesterError, Sent};
use characterai::string_map::StringMap;
use characterai::types::chat::Turn;
use characterai::types::enums::{Gender, Visibility};
use characterai::types::media::{Avatar, Voice};
use characterai::types::user::{Account, Persona, Settings};

fn json(text: &str) -> serde_json::Value {
    serde_json::from_str(text).expect("a document")
}

fn headers() -> StringMap<String> {
    let mut h = StringMap::new();
    h.insert("authorization".to_string(), "Token t".to_string());
    h
}

fn body_json(call: &Call) -> serde_json::Value {
    match &call.options.body {
        Some(Body::Text(text)) => json(text),
        _ => panic!("no text body"),
    }
}

fn turn(id: &str) -> Turn {
    Turn::from_json(&json(&format!(r#"{{"id":"{}"}}"#, id)))
}

#[test]
fn request_methods_are_checked() {
    for (name, method) in [
        ("GET", HttpMethod::Get),
        ("POST", HttpMethod::Post),
        ("PUT", HttpMethod::Put),
        ("PATCH", HttpMethod::Patch),
        ("DELETE", HttpMethod::Delete),
    ] {
        let options = RequestOptions::new(name, headers(), None);
        let request = Requester::request_resp_async("https://x/", options).unwrap();
        assert_eq!(request.method, method);
        assert_eq!(request.url, "https://x/");
        assert_eq!(request.headers.get("authorization").unwrap(), "Token t");
    }
    let bad = Requester::request_resp_async("u", RequestOptions::new("get", headers(), None));
    assert_eq!(
        bad.err(),
        Some(RequesterError::RequestFailed(
            "Invalid method. Please use one of GET, POST, PUT, PATCH, or DELETE.".to_string()
        ))
    );
}

#[test]
fn responses_are_judged() {
    assert_eq!(Requester::check_response(Sent::Answered { status: 200 }), Ok(200));
    assert_eq!(Requester::check_response(Sent::Answered { status: 500 }), Ok(500));
    assert_eq!(
        Requester::check_response(Sent::Answered { status: 401 }),
        Err(RequesterError::AuthenticationError)
    );
    assert_eq!(
        Requester::check_response(Sent::Failed { reason: "dns".to_string() }),
        Err(RequesterError::RequestFailed("dns".to_string()))
    );
    assert_eq!(Requester::request_async(Ok("[1]".to_string())), Ok(json("[1]")));
    assert_eq!(
        Requester::request_async(Err("cut".to_string())),
        Err(RequesterError::RequestFailed("cut".to_string()))
    );
    match Requester::request_async(Ok("{".to_string())) {
        Err(RequesterError::RequestFailed(reason)) => assert!(reason.contains("line 1")),
        _ => panic!("a broken body was read"),
    }
    assert_eq!(RequesterError::AuthenticationError.to_string(), "Authentication failed");
    assert_eq!(RequesterError::RequestFailed("x".into()).to_string(), "Request failed");
    assert_eq!(RequesterError::WsError("x".into()).to_string(), "WebSocket connection error");
}

#[test]
fn chat_commands_carry_their_payloads() {
    let (envelope, chat_id) = ChatMethods::create_chat_command(5, "char", true, &None);
    assert_eq!(envelope.command, "create_chat");
    assert_eq!(envelope.origin, "web-next");
    assert_eq!(chat_id.len(), 36);
    assert_eq!(envelope.request_id.len(), 36);
    assert_ne!(envelope.request_id, chat_id);
    assert_eq!(
        envelope.payload,
        json(&format!(
            r#"{{"chat":{{"chat_id":"{}","creator_id":5,"visibility":"VISIBILITY_PRIVATE","character_id":"char","type":"TYPE_ONE_ON_ONE"}},"with_greeting":true}}"#,
            chat_id
        ))
    );
    let (again, other_id) = ChatMethods::create_chat_command(5, "char", true, &None);
    assert_ne!(other_id, chat_id);
    assert_ne!(again.request_id, envelope.request_id);
    let with_model =
        ChatMethods::create_chat_payload("c", -1, "x", false, &Some("fast".to_string()));
    assert_eq!(with_model["chat"]["preferred_model_type"], json(r#""fast""#));
    assert_eq!(with_model["chat"]["creator_id"], json("-1"));
    assert_eq!(with_model["with_greeting"], json("false"));
    let update = ChatMethods::update_primary_candidate_command("ch", "tu", "ca");
    assert_eq!(update.command, "update_primary_candidate");
    assert_eq!(
        update.payload,
        json(r#"{"candidate_id":"ca","turn_key":{"chat_id":"ch","turn_id":"tu"}}"#)
    );
    let send = ChatMethods::send_message_payload("char", "chat", "hello", 3, "cand", "turn");
    assert_eq!(
        send,
        json(
            r#"{"character_id":"char","num_candidates":1,"previous_annotations":"self.default_annotations()",
                "selected_language":"","tts_enabled":false,
                "turn":{"author":{"author_id":3,"is_human":true,"name":""},
                        "candidates":[{"candidate_id":"cand","raw_content":"hello"}],
                        "primary_candidate_id":"cand","turn_key":{"chat_id":"chat","turn_id":"turn"}},
                "user_name":""}"#
        )
    );
    let command = ChatMethods::send_message_command("char", "chat", "hello", 3);
    assert_eq!(command.command, "create_and_generate_turn");
    assert_eq!(command.request_id.len(), 36);
    assert_eq!(command.payload["turn"]["turn_key"]["turn_id"].as_str().unwrap().len(), 36);
    assert_eq!(command.payload["turn"]["primary_candidate_id"].as_str().unwrap().len(), 36);
    assert_eq!(update.request_id.len(), 36);
    assert_eq!(
        command.payload["turn"]["primary_candidate_id"],
        command.payload["turn"]["candidates"][0]["candidate_id"]
    );
    let frame = InboundFrame::decode_frame(&command.encode()).unwrap();
    assert!(matches!(frame, InboundFrame::Other));
}

#[test]
fn chat_calls() {
    let call = ChatMethods::fetch_histories_request("c", 3, headers());
    assert_eq!(call.url, "https://plus.character.ai/chat/character/histories/");
    assert_eq!(call.options.method, "POST");
    assert_eq!(body_json(&call), json(r#"{"external_id":"c","number":3}"#));
    assert_eq!(ChatMethods::fetch_histories(&json(r#"{"histories":[1,2,3]}"#)).len(), 3);
    assert!(ChatMethods::fetch_histories(&json(r#"{"histories":7}"#)).is_empty());
    let call = ChatMethods::fetch_chats_request("c", 12, headers());
    assert_eq!(call.url, "https://neo.character.ai/chats/?character_ids=c&num_preview_turns=12");
    assert!(call.options.body.is_none());
    let chats = ChatMethods::fetch_chats(&json(r#"{"chats":[{"chat_id":"a"},{"chat_id":"b"}]}"#));
    assert_eq!(chats.len(), 2);
    assert_eq!(chats[1].chat_id, "b");
    assert_eq!(ChatMethods::fetch_recent_chats(&json("{}")).len(), 0);
    assert_eq!(
        ChatMethods::fetch_recent_chats_request(headers()).url,
        "https://neo.character.ai/chats/recent/"
    );
    assert_eq!(
        ChatMethods::fetch_chat_request("id", headers()).url,
        "https://neo.character.ai/chat/id/"
    );
    assert_eq!(ChatMethods::fetch_chat(&json(r#"{"chat":{"chat_id":"z"}}"#)).chat_id, "z");
    assert_eq!(ChatMethods::fetch_chat(&json("{}")).chat_id, "");
    let call = ChatMethods::update_chat_name_request("id", "New", headers());
    assert_eq!(call.url, "https://neo.character.ai/chat/id/update_name");
    assert_eq!(call.options.method, "PATCH");
    assert_eq!(body_json(&call), json(r#"{"name":"New"}"#));
    assert!(ChatMethods::update_chat_name(&Ok::<u16, RequesterError>(200)));
    assert!(!ChatMethods::update_chat_name(&Err::<u16, _>(RequesterError::AuthenticationError)));
    let call = ChatMethods::archive_chat_request("id", headers());
    assert_eq!(call.url, "https://neo.character.ai/chat/id/archive");
    assert_eq!(body_json(&call), json("{}"));
    assert!(ChatMethods::archive_chat(&Ok::<(), RequesterError>(())));
    let call = ChatMethods::unarchive_chat_request("id", headers());
    assert_eq!(call.url, "https://neo.character.ai/chat/id/unarchive");
    assert!(!ChatMethods::unarchive_chat(&Err::<(), _>(RequesterError::AuthenticationError)));
    let call = ChatMethods::copy_chat_request("id", "t9", headers());
    assert_eq!(call.url, "https://neo.character.ai/chat/id/copy");
    assert_eq!(body_json(&call), json(r#"{"end_turn_id":"t9"}"#));
    assert_eq!(ChatMethods::copy_chat(&json(r#"{"new_chat_id":"n"}"#)).as_deref(), Some("n"));
    assert!(ChatMethods::copy_chat(&json(r#"{"new_chat_id":1}"#)).is_none());
}

#[test]
fn message_pages() {
    assert_eq!(
        ChatMethods::fetch_messages_request("c", &None, headers()).url,
        "https://neo.character.ai/turns/c/"
    );
    assert_eq!(
        ChatMethods::fetch_messages_request("c", &Some("a b/~é".to_string()), headers()).url,
        "https://neo.character.ai/turns/c/?next_token=a%20b%2F~%C3%A9"
    );
    let page = json(
        r#"{"meta":{"next_token":"tok"},"turns":[{"id":"a","is_pinned":true},{"id":"b"},{"id":"c","is_pinned":false}]}"#,
    );
    let (all, token) = ChatMethods::fetch_messages(&page, false).unwrap();
    assert_eq!(all.len(), 3);
    assert_eq!(token.as_deref(), Some("tok"));
    let (pinned, _) = ChatMethods::fetch_messages(&page, true).unwrap();
    assert_eq!(pinned.len(), 1);
    assert_eq!(pinned[0].id, "a");
    let broken = json(r#"{"turns":[{"id":"a","is_pinned":true},{"id":7}]}"#);
    assert!(ChatMethods::fetch_messages(&broken, false).is_none());
    let (kept, none) = ChatMethods::fetch_messages(&broken, true).unwrap();
    assert_eq!(kept.len(), 1);
    assert!(none.is_none());
    assert!(ChatMethods::fetch_messages(&json("{}"), false).unwrap().0.is_empty());
}

#[test]
fn gathering_messages() {
    let mut all = Vec::new();
    let step = ChatMethods::fetch_all_messages(
        &mut all,
        &vec![turn("a"), turn("b")],
        Some("n".to_string()),
    );
    assert!(matches!(step, PageStep::Next(t) if t == "n"));
    let step = ChatMethods::fetch_all_messages(&mut all, &vec![turn("c")], None);
    assert!(matches!(step, PageStep::Done));
    let step = ChatMethods::fetch_all_messages(&mut all, &vec![], Some("more".to_string()));
    assert!(matches!(step, PageStep::Done));
    let ids: Vec<&str> = all.iter().map(|t| t.id.as_str()).collect();
    assert_eq!(ids, vec!["a", "b", "c"]);

    let mut following = Vec::new();
    let step = ChatMethods::fetch_following_messages(
        &mut following,
        &vec![turn("a"), turn("b")],
        Some("n".to_string()),
        "d",
    );
    assert!(matches!(step, PageStep::Next(t) if t == "n"));
    let step = ChatMethods::fetch_following_messages(
        &mut following,
        &vec![turn("c"), turn("d"), turn("e")],
        None,
        "d",
    );
    assert!(matches!(step, PageStep::Done));
    let ids: Vec<&str> = following.iter().map(|t| t.id.as_str()).collect();
    assert_eq!(ids, vec!["a", "b", "c"]);
    let step = ChatMethods::fetch_following_messages(&mut following, &vec![], None, "d");
    assert!(matches!(step, PageStep::Fail(m) if m == "cannot fetch following messages"));
    let step = ChatMethods::fetch_following_messages(&mut following, &vec![turn("x")], None, "d");
    assert!(matches!(
        step,
        PageStep::Fail(m) if m == "Cannot fetch following messages. May be turn_id is invalid?"
    ));
}

#[test]
fn account_calls() {
    assert_eq!(
        AccountMethods::fetch_profile_request(headers()).url,
        "https://plus.character.ai/chat/user/"
    );
    let profile = json(r#"{"user":{"user":{"id":4,"username":"me","account":{"name":"Me"}}}}"#);
    let account = AccountMethods::fetch_profile(&profile).unwrap();
    assert_eq!(account.id, 4);
    assert_eq!(account.name, "Me");
    assert!(AccountMethods::fetch_profile(&json(r#"{"user":{}}"#)).is_none());
    assert!(AccountMethods::fetch_profile(&json(r#"{"user":{"user":{}}}"#)).is_none());
    assert_eq!(
        AccountMethods::fetch_followers(&json(r#"{"followers":["a",1,"b"]}"#)),
        Some(vec!["a".to_string(), "b".to_string()])
    );
    assert_eq!(AccountMethods::fetch_followers(&json("{}")), Some(vec![]));
    assert_eq!(AccountMethods::fetch_followers(&json(r#"{"followers":{}}"#)), None);
    assert_eq!(
        AccountMethods::fetch_following(&json(r#"{"following":["z"]}"#)),
        Some(vec!["z".to_string()])
    );
    assert_eq!(
        AccountMethods::fetch_persona_request("pa", headers()).url,
        "https://plus.character.ai/chat/persona/?id=pa"
    );
    assert_eq!(
        AccountMethods::fetch_persona(&json(r#"{"external_id":"pa"}"#)).unwrap().id,
        "pa"
    );
    let personas =
        AccountMethods::fetch_personas(&json(r#"{"personas":[{"name":"a"},{"name":"b"}]}"#))
            .unwrap();
    assert_eq!(personas.len(), 2);
    assert_eq!(personas[1].name, "b");
    assert!(AccountMethods::fetch_personas(&json(r#"{"personas":[{"name":1}]}"#)).is_none());
    assert!(AccountMethods::fetch_personas(&json(r#"{"personas":1}"#)).is_none());
    assert_eq!(
        AccountMethods::fetch_characters_request(headers()).url,
        "https://plus.character.ai/chat/chracters/?scope=user"
    );
    assert_eq!(
        AccountMethods::fetch_characters(&json(r#"{"characters":[{"name":"c"}]}"#)).unwrap()[0]
            .name,
        "c"
    );
    assert!(AccountMethods::fetch_characters_ranked(&json(r#"{"characters":3}"#)).is_none());
    assert_eq!(
        AccountMethods::fetch_voices(&json(r#"{"voices":[{"id":"v"}]}"#)).unwrap()[0].id,
        "v"
    );
    assert!(AccountMethods::fetch_settings(&json("{}")).is_some());
    assert!(AccountMethods::edit_account(&json(r#"{"status":"FAILED"}"#)));
    assert!(!AccountMethods::edit_account(&json(r#"{"status":"OK"}"#)));
}

#[test]
fn account_is_checked_before_it_is_edited() {
    let call = AccountMethods::edit_account_request("Name", "user", None, Some("p.png"), headers())
        .unwrap();
    assert_eq!(call.url, "https://plus.character.ai/chat/user/update/");
    assert_eq!(
        body_json(&call),
        json(
            r#"{"name":"Name","username":"user","bio":"","avatar_type":"UPLOADED","avatar_rel_path":"p.png"}"#
        )
    );
    let call =
        AccountMethods::edit_account_request("Name", "user", Some("b"), None, headers()).unwrap();
    assert_eq!(
        body_json(&call),
        json(r#"{"name":"Name","username":"user","bio":"b","avatar_type":"DEFAULT"}"#)
    );
    assert_eq!(
        AccountMethods::edit_account_request("Name", "u", None, None, headers()).err().unwrap(),
        "username cannot be less than 2 characters or more than 20 (is 1 characters)"
    );
    assert_eq!(
        AccountMethods::edit_account_request("N", "user", None, None, headers()).err().unwrap(),
        "name cannot be less than 2 characters or more than 50 (is 1 characters)"
    );
    let long = "x".repeat(501);
    assert_eq!(
        AccountMethods::edit_account_request("Na", "us", Some(&long), None, headers())
            .err()
            .unwrap(),
        "bio cannot be more than 500 characters (is 501 characters)"
    );
    assert!(AccountMethods::edit_account_request(
        &"é".repeat(25),
        &"é".repeat(10),
        Some(&"x".repeat(500)),
        None,
        headers()
    )
    .is_ok());
    assert!(
        AccountMethods::edit_account_request("Na", &"é".repeat(11), None, None, headers()).is_err()
    );
}

#[test]
fn personas_are_checked_and_read() {
    let call =
        AccountMethods::create_persona_request("Nemo", Some("def"), None, headers()).unwrap();
    assert_eq!(call.url, "https://plus.character.ai/chat/persona/create/");
    let body = body_json(&call);
    assert_eq!(body["name"], json(r#""Nemo""#));
    assert_eq!(body["title"], json(r#""Nemo""#));
    assert_eq!(body["definition"], json(r#""def""#));
    assert_eq!(body["categories"], json("[]"));
    assert_eq!(body["visibility"], json(r#""PRIVATE""#));
    let identifier = body["identifier"].as_str().unwrap();
    assert!(identifier.starts_with("id:"));
    assert_eq!(identifier.len(), 39);
    assert_eq!(
        AccountMethods::create_persona_request("No", None, None, headers()).err().unwrap(),
        "name cannot be less than 3 characters or more than 20 (is 2 characters)"
    );
    assert_eq!(
        AccountMethods::create_persona_request("Nemo", Some(&"d".repeat(721)), None, headers())
            .err()
            .unwrap(),
        "definition cannot be more than 720 characters (is 721 characters)"
    );
    let ok = json(r#"{"status":"OK","persona":{"external_id":"p"}}"#);
    assert_eq!(AccountMethods::create_persona(&ok).unwrap().unwrap().id, "p");
    let failed = json(r#"{"status":"NO","persona":{},"error":"bad name"}"#);
    assert_eq!(
        AccountMethods::create_persona(&failed).unwrap().err(),
        Some(RequesterError::RequestFailed(r#""bad name""#.to_string()))
    );
    let missing = json(r#"{"status":"OK","persona":null}"#);
    assert_eq!(
        AccountMethods::update_persona_internal(&missing).unwrap().err(),
        Some(RequesterError::RequestFailed(r#""""#.to_string()))
    );
    let unreadable = json(r#"{"status":"OK","persona":{"external_id":1}}"#);
    assert!(AccountMethods::edit_persona(&unreadable).is_none());
    assert!(AccountMethods::delete_persona(&ok).unwrap().is_ok());
}

#[test]
fn persona_edits_fall_back_to_the_old_name() {
    let account = Account::new(3, None, "me", "Me", "", None, None, None, true);
    let persona =
        Persona::new("p", "Oldname", "greet", "descr", "defn", Some(Avatar::new("a.png")), false, None);
    let call = AccountMethods::edit_persona_request(
        "p",
        Some("x"),
        Some("new def"),
        None,
        &persona,
        &account,
        headers(),
    )
    .unwrap();
    assert_eq!(call.url, "https://plus.character.ai/chat/persona/update/");
    let body = body_json(&call);
    assert_eq!(body["name"], json(r#""Oldname""#));
    assert_eq!(body["participant__name"], json(r#""Oldname""#));
    assert_eq!(body["definition"], json(r#""new def""#));
    assert_eq!(body["description"], json(r#""descr""#));
    assert_eq!(body["user__id"], json("3"));
    assert_eq!(body["user__username"], json(r#""me""#));
    assert!(body.get("archived").is_none());
    let call = AccountMethods::edit_persona_request(
        "p",
        Some("Fresh"),
        None,
        Some("n.png"),
        &persona,
        &account,
        headers(),
    )
    .unwrap();
    assert_eq!(body_json(&call)["title"], json(r#""Fresh""#));
    assert_eq!(body_json(&call)["avatar_rel_path"], json(r#""n.png""#));
    let err = AccountMethods::edit_persona_request(
        "p",
        None,
        None,
        None,
        &Persona::default(),
        &account,
        headers(),
    )
    .err()
    .unwrap();
    assert!(err.starts_with(
        "name cannot be less than 3 characters or more than 20 characters (is 0 characters)."
    ));
    let err = AccountMethods::edit_persona_request(
        "p",
        Some("Fresh"),
        Some(&"d".repeat(721)),
        None,
        &persona,
        &account,
        headers(),
    )
    .err()
    .unwrap();
    assert_eq!(err, "definition cannot be more than 720 characters (is 721 characters)");
    let call = AccountMethods::delete_persona_request("p", &persona, &account, headers());
    let body = body_json(&call);
    assert_eq!(body["archived"], json("true"));
    assert_eq!(body["avatar_file_name"], json(r#""a.png""#));
    assert_eq!(body["definition"], json(r#""defn""#));
}

#[test]
fn settings_updates() {
    let mut settings = Settings::default();
    assert_eq!(
        AccountMethods::apply_settings_update(&mut settings, None, None, None, Some("c")),
        Err("You must provide an updated value when calling update_settings".to_string())
    );
    AccountMethods::set_default_persona(&mut settings, Some("pa"));
    assert_eq!(settings.default_persona_id, "pa");
    AccountMethods::set_persona(&mut settings, "char", Some("pb"));
    AccountMethods::set_persona(&mut settings, "char", None);
    AccountMethods::set_persona(&mut settings, "other", Some("pc"));
    assert_eq!(settings.persona_overrides.len(), 2);
    assert_eq!(settings.persona_overrides.get("char").unwrap(), "");
    assert_eq!(settings.persona_overrides.get("other").unwrap(), "pc");
    AccountMethods::set_voice(&mut settings, Some("v"));
    AccountMethods::set_default_persona(&mut settings, None);
    assert_eq!(settings.default_persona_id, "");
    assert!(AccountMethods::apply_settings_update(&mut settings, None, Some("p"), None, None)
        .is_ok());
    assert_eq!(settings.persona_overrides.len(), 2);
    let call = AccountMethods::update_settings_request(&settings, headers());
    assert_eq!(call.url, "https://plus.character.ai/chat/user/update_settings/");
    assert_eq!(body_json(&call)["personaOverrides"], json(r#"{"char":"","other":"pc"}"#));
    let stored = json(r#"{"default_persona_id":"pa"}"#);
    assert_eq!(
        AccountMethods::update_settings(&stored).unwrap().unwrap().default_persona_id,
        "pa"
    );
    assert_eq!(
        AccountMethods::update_settings(&json(r#"{"success":true}"#)).unwrap().err(),
        Some(RequesterError::RequestFailed(
            "cargo:warn=Malformed data received.\nObject {\"success\": Bool(true)}".to_string()
        ))
    );
    assert!(AccountMethods::update_settings(&json(r#"{"success":"no"}"#)).is_none());
    assert!(AccountMethods::settings_stored(&Ok(stored)));
    assert!(!AccountMethods::settings_stored(&Ok(json(r#"{"success":true}"#))));
    assert!(!AccountMethods::settings_stored(&Err(RequesterError::AuthenticationError)));
}

#[test]
fn user_calls() {
    let call = UserMethods::fetch_user_request("ann", headers());
    assert_eq!(call.url, "https://plus.character.ai/chat/user/public/");
    assert_eq!(body_json(&call), json(r#"{"username":"ann"}"#));
    assert_eq!(
        UserMethods::fetch_user(&json(r#"{"public_user":{"username":"ann"}}"#)).unwrap().username,
        "ann"
    );
    assert_eq!(UserMethods::fetch_user(&json("{}")).unwrap().username, "");
    assert!(UserMethods::fetch_user(&json(r#"{"public_user":{"username":1}}"#)).is_none());
    assert_eq!(
        UserMethods::fetch_user_voices_request("ann", headers()).url,
        "https://neo.character.ai/multimodal/api/v1/voices/search?creatorInfo.username=ann"
    );
    assert_eq!(UserMethods::fetch_user_voices(&json(r#"{"voices":7}"#)).unwrap().len(), 0);
    assert_eq!(
        UserMethods::fetch_user_voices(&json(r#"{"voices":[{"id":"a"}]}"#)).unwrap().len(),
        1
    );
    assert_eq!(
        UserMethods::follow_user_request("ann", headers()).url,
        "https://plus.character.ai/chat/user/follow/"
    );
    assert_eq!(
        UserMethods::unfollow_user_request("ann", headers()).url,
        "https://plus.character.ai/chat/user/unfollow/"
    );
    assert!(UserMethods::follow_user(&Ok(json(r#"{"status":"OK"}"#))));
    assert!(!UserMethods::follow_user(&Ok(json(r#"{"status":"ok"}"#))));
    assert!(!UserMethods::unfollow_user(&Ok(json("{}"))));
    assert!(!UserMethods::unfollow_user(&Err(RequesterError::AuthenticationError)));
}

#[test]
fn character_calls() {
    let by_category = json(
        r#"{"characters_by_curated_category":{"Fun":[{"name":"a"},{"name":"b"}],"Odd":3,"Work":[]}}"#,
    );
    let map = CharacterMethods::fetch_characters_by_category(&by_category).unwrap();
    assert_eq!(map.len(), 3);
    assert_eq!(map.get("Fun").unwrap().len(), 2);
    assert_eq!(map.get("Fun").unwrap()[1].name, "b");
    assert!(map.get("Odd").unwrap().is_empty());
    assert!(map.get("Work").unwrap().is_empty());
    assert_eq!(CharacterMethods::fetch_characters_by_category(&json("{}")).unwrap().len(), 0);
    assert!(CharacterMethods::fetch_characters_by_category(&json(
        r#"{"characters_by_curated_category":{"Fun":[{"name":1}]}}"#
    ))
    .is_none());
    assert_eq!(
        CharacterMethods::fetch_recommended_characters(&json(r#"{"characters":"x"}"#))
            .unwrap()
            .len(),
        0
    );
    assert_eq!(
        CharacterMethods::fetch_featured_characters(&json(r#"{"characters":[{}]}"#))
            .unwrap()
            .len(),
        1
    );
    assert_eq!(
        CharacterMethods::fetch_similar_characters_request("c7", headers()).url,
        "https://neo.character.ai/recommendation/v1/character/c7"
    );
    assert!(CharacterMethods::fetch_similar_characters(&json(r#"{"characters":[{"title":0}]}"#))
        .is_none());
    let info = json(r#"{"status":"OK","character":{"external_id":"c7"}}"#);
    assert_eq!(CharacterMethods::fetch_character_info(&info).unwrap().unwrap().id, "c7");
    assert_eq!(
        CharacterMethods::fetch_character_info(&json(r#"{"error":"gone"}"#)).unwrap().err(),
        Some(r#""gone""#.to_string())
    );
    assert!(CharacterMethods::fetch_character_info(&json(
        r#"{"status":"OK","character":{"starter_prompts":{}}}"#
    ))
    .is_none());
    let call = CharacterMethods::search_characters_request("a b", headers());
    assert_eq!(
        call.url,
        r#"https://character.ai/api/trpc/search.search?batch=1&input={"0":{"json":{"searchQuery":"a%20b"}}}"#
    );
    let found = json(r#"[{"result":{"data":{"json":{"characters":[{"name":"hit"}]}}}}]"#);
    assert_eq!(CharacterMethods::search_characters(&found).unwrap()[0].name, "hit");
    assert_eq!(CharacterMethods::search_characters(&json("[]")).unwrap().len(), 0);
    assert_eq!(CharacterMethods::search_characters(&json(r#"[{"result":1}]"#)).unwrap().len(), 0);
    assert_eq!(
        CharacterMethods::search_creators_request("Zoë&co", headers()).url,
        "https://plus.character.ai/chat/creators/search/?query=Zo%C3%AB%26co"
    );
    assert_eq!(
        CharacterMethods::search_creators(&json(r#"{"creators":[{"name":"a"},{},{"name":2}]}"#)),
        vec!["a", "", ""]
    );
    let call = CharacterMethods::add_like_to_character_request("c", Some(false), headers());
    assert_eq!(body_json(&call), json(r#"{"external_id":"c","vote":false}"#));
    let call = CharacterMethods::add_like_to_character_request("c", None, headers());
    assert_eq!(body_json(&call), json(r#"{"external_id":"c","vote":null}"#));
    assert!(CharacterMethods::add_like_to_character(&Ok(json(r#"{"status":"OK"}"#))));
}

#[test]
fn characters_are_checked_before_they_are_stored() {
    let call = CharacterMethods::create_character_request(
        "Name",
        "Hello",
        "",
        "d",
        "def",
        true,
        Visibility::Unlisted,
        "p.png",
        "v1",
        headers(),
    )
    .unwrap();
    assert_eq!(call.url, "https://plus.character.ai/chat/character/create/");
    let body = body_json(&call);
    assert_eq!(body["visibility"], json(r#""UNLISTED""#));
    assert_eq!(body["copyable"], json("true"));
    assert_eq!(body["default_voice_id"], json(r#""v1""#));
    assert!(body["identifier"].as_str().unwrap().starts_with("id:"));
    assert!(body.get("external_id").is_none());
    let check = |name: &str, greeting: &str, title: &str, description: &str, definition: &str| {
        CharacterMethods::edit_character_request(
            "id",
            name,
            greeting,
            title,
            description,
            definition,
            false,
            Visibility::Public,
            "",
            "",
            headers(),
        )
    };
    assert_eq!(
        check("No", "Hello", "", "", "").err().unwrap(),
        "name cannot be less than 3 characters or more than 20 (is 2 characters)"
    );
    assert_eq!(
        check("Name", "Hi", "", "", "").err().unwrap(),
        "greeting cannot be less than 3 characters or more than 2048 (is 2 characters)"
    );
    assert_eq!(
        check("Name", "Hello", "ab", "", "").err().unwrap(),
        "title cannot be less than 3 characters or more than 50 (is 2 characters)"
    );
    assert_eq!(
        check("Name", "Hello", "", &"d".repeat(501), "").err().unwrap(),
        "description cannot be less than more than 500 (is 501 characters)"
    );
    assert_eq!(
        check("Name", "Hello", "", "", &"d".repeat(32001)).err().unwrap(),
        "definition cannot be more than 32000 (is 32001 characters)"
    );
    let call = check("Name", "Hello", "Title", "", "").unwrap();
    assert_eq!(call.url, "https://plus.character.ai/chat/character/update/");
    let body = body_json(&call);
    assert_eq!(body["external_id"], json(r#""id""#));
    assert_eq!(body["archived"], json("false"));
    assert!(body.get("identifier").is_none());
    let ok = json(r#"{"status":"OK","character":{"external_id":"n"}}"#);
    assert_eq!(CharacterMethods::create_character(&ok).unwrap().unwrap().id, "n");
    assert_eq!(
        CharacterMethods::create_character(&json("{}")).unwrap().err(),
        Some(RequesterError::RequestFailed("malformed JSON object received".to_string()))
    );
    assert_eq!(
        CharacterMethods::edit_character(&json(r#"{"error":"no"}"#)).unwrap().err(),
        Some(RequesterError::RequestFailed(r#"cannot edit character: "\"no\"""#.to_string()))
    );
    assert!(CharacterMethods::edit_character(&ok).unwrap().is_ok());
}

#[test]
fn voice_and_picture_calls() {
    assert_eq!(
        UtilsMethods::fetch_voice_request("v1", headers()).url,
        "https://neo.character.ai/multimodal/api/v1/voices/v1"
    );
    assert_eq!(UtilsMethods::fetch_voice(&json(r#"{"voice":{"id":"v1"}}"#)).unwrap().id, "v1");
    assert!(UtilsMethods::fetch_voice(&json(r#"{"voice":{"id":1}}"#)).is_none());
    assert_eq!(
        UtilsMethods::search_voices_request("deep voice", headers()).url,
        "https://neo.character.ai/multimodal/api/v1/voices/search?query=deep%20voice"
    );
    assert_eq!(UtilsMethods::search_voices(&json("{}")).unwrap().len(), 0);
    let call = UtilsMethods::generate_image_request("a cat", None, headers());
    assert_eq!(
        body_json(&call),
        json(r#"{"prompt":"a cat","num_candidates":4,"model_version":"v1"}"#)
    );
    let call = UtilsMethods::generate_image_request("a cat", Some(2), headers());
    assert_eq!(body_json(&call)["num_candidates"], json("2"));
    assert_eq!(
        UtilsMethods::generate_image(&json(r#"{"result":[{"url":"u1"},{"x":1},{"url":2},{"url":"u2"}]}"#)),
        vec!["u1", "u2"]
    );
    let call = UtilsMethods::upload_avatar_request(&b"hello".to_vec(), "image/png", headers());
    assert_eq!(call.url, "https://character.ai/api/trpc/user.uploadAvatar?batch=1");
    assert_eq!(
        body_json(&call),
        json(r#"{"0":{"json":{"imageDataUrl":"data:image/png;base64,aGVsbG8="}}}"#)
    );
    let avatar =
        UtilsMethods::upload_avatar(&json(r#"[{"result":{"data":{"json":"f.png"}}}]"#)).unwrap();
    assert_eq!(avatar.file_name, "f.png");
    assert_eq!(
        UtilsMethods::upload_avatar(&json(r#"[{"result":{}}]"#)).err().unwrap(),
        "Cannot upload avatar. Invalid response."
    );
    assert_eq!(
        UtilsMethods::upload_avatar_check_request(&avatar, headers()).url,
        "https://characterai.io/i/400/static/avatars/f.png?webp=true&anim=0"
    );
    assert_eq!(
        UtilsMethods::upload_avatar_checked(avatar.clone(), &Ok::<u16, RequesterError>(200)),
        Ok(avatar.clone())
    );
    assert_eq!(
        UtilsMethods::upload_avatar_checked(
            avatar,
            &Err::<u16, _>(RequesterError::RequestFailed("x".into()))
        ),
        Err("Cannot upload avatar. Request failed".to_string())
    );
    assert_eq!(
        UtilsMethods::delete_voice_request("v1", headers()).options.method,
        "DELETE"
    );
    assert!(UtilsMethods::delete_voice(&Ok::<u16, RequesterError>(204)));
    assert_eq!(UtilsMethods::ping_request(headers()).url, "https://neo.character.ai/ping/");
    assert!(UtilsMethods::ping(&Ok(200)));
    assert!(!UtilsMethods::ping(&Ok(204)));
    assert!(!UtilsMethods::ping(&Err(RequesterError::AuthenticationError)));
}

#[test]
fn voices_are_uploaded_as_a_form() {
    let form = UtilsMethods::upload_voice_form(
        "B",
        &vec![0u8, 255u8],
        "audio/mpeg",
        "Voice",
        "d",
        Visibility::Public,
    );
    let mut expected = b"--B\r\nContent-Disposition: form-data; name=\"file\"; filename=\"input.mp3\"\r\nContent-Type: audio/mpeg\r\n\r\n".to_vec();
    expected.extend([0u8, 255u8]);
    expected.extend(
        "\r\n--B\r\nContent-Disposition: form-data; name=\"json\"\r\n\r\n{\"voice\":{\"audioSourceType\":\"file\",\"description\":\"d\",\"gender\":\"neutral\",\"name\":\"Voice\",\"previewText\":\"Good day! Here to make life a little less complicated.\",\"visibility\":\"PUBLIC\"}}\r\n--B--\r\n"
            .as_bytes(),
    );
    assert_eq!(form, expected);
    let call = UtilsMethods::upload_voice_request(
        &vec![1u8],
        "audio/mpeg",
        "Voice",
        None,
        None,
        headers(),
    )
    .unwrap();
    assert_eq!(call.url, "https://neo.character.ai/multimodal/api/v1/voices/");
    assert_eq!(call.options.headers.len(), 2);
    let kind = call.options.headers.get("Content-Type").unwrap();
    let boundary = kind.strip_prefix("multipart/form-data; boundary=").unwrap();
    assert!(boundary.starts_with("---------------------------"));
    assert!(boundary[27..].chars().all(|c| c.is_ascii_digit()));
    match &call.options.body {
        Some(Body::Bytes(bytes)) => {
            assert!(bytes.starts_with(format!("--{}\r\n", boundary).as_bytes()));
            assert!(bytes.ends_with(format!("\r\n--{}--\r\n", boundary).as_bytes()));
        }
        _ => panic!("no form"),
    }
    let refuse = |name: &str, description: Option<&str>, visibility| {
        UtilsMethods::upload_voice_request(
            &vec![],
            "audio/mpeg",
            name,
            description,
            visibility,
            headers(),
        )
        .err()
        .unwrap()
    };
    assert_eq!(
        refuse("Vo", None, None),
        "mame cannot be less than 3 characters or more than 20 characters (is 2 characters)"
    );
    assert_eq!(
        refuse("Voice", Some(&"d".repeat(121)), None),
        "description cannot be more than 120 characters (is 121 characters)"
    );
    assert_eq!(refuse("Voice", None, Some(Visibility::Unlisted)), "visibility cannot be Unlisted");
    assert_eq!(
        UtilsMethods::upload_voice(&json(r#"{"voice":{"id":"n"}}"#)).unwrap().unwrap().id,
        "n"
    );
    assert_eq!(
        UtilsMethods::upload_voice(&json("{}")).unwrap().err().unwrap(),
        "Cannot upload voice. Invalid response."
    );
    assert!(UtilsMethods::upload_voice(&json(r#"{"voice":{"id":1}}"#)).is_none());
}

#[test]
fn voices_are_checked_before_they_are_edited() {
    let voice = Voice::new(
        "v1",
        "Voice",
        "descr",
        Gender::Male,
        Visibility::Hidden,
        "preview",
        None,
        Some("cr".to_string()),
        None,
        None,
        "ok",
    );
    let call = UtilsMethods::edit_voice_request(&voice, None, Some("new"), None, headers()).unwrap();
    assert_eq!(call.url, "https://neo.character.ai/multimodal/api/v1/voices/v1");
    assert_eq!(call.options.method, "PUT");
    assert_eq!(
        body_json(&call),
        json(
            r#"{"voice":{"audioSourceType":"file","backendId":"v1","backendProvider":"cai",
                "creatorInfo":{"id":"cr","source":"user","username":""},
                "description":"new","gender":"male","id":"v1","internalStatus":"draft",
                "lastUpdateTime":"0001-01-01T00:00:00Z","name":"Voice","previewAudioURI":null,
                "previewText":"preview","visibility":"PRIVATE"}}"#
        )
    );
    let refuse = |name: Option<&str>, description: Option<&str>, visibility| {
        UtilsMethods::edit_voice_request(&voice, name, description, visibility, headers())
            .err()
            .unwrap()
    };
    assert_eq!(refuse(Some(""), None, None), "mame and description must be specified.");
    assert_eq!(refuse(None, Some(""), None), "mame and description must be specified.");
    assert_eq!(
        refuse(Some("Vo"), None, None),
        "mame cannot be less than 3 characters or more than 20 characters (is 2 characters)"
    );
    assert_eq!(
        refuse(None, Some(&"d".repeat(121)), None),
        "Cannot edit voice. Description must be no more than 120 characters."
    );
    assert_eq!(
        refuse(None, None, Some(Visibility::Unlisted)),
        "Cannot edit voice. Visibility must be 'public' or 'private'."
    );
    assert_eq!(UtilsMethods::edit_voice(&json(r#"{"voice":{"name":"n"}}"#)).unwrap().name, "n");
}

#[test]
fn speech_calls() {
    let call = UtilsMethods::generate_speech_request("room", "turn", "cand", "voice", headers());
    assert_eq!(call.url, "https://neo.character.ai/multimodal/api/v1/memo/replay");
    assert_eq!(
        body_json(&call),
        json(r#"{"candidateId":"cand","roomId":"room","turnId":"turn","voiceId":"voice"}"#)
    );
    let answer = json(r#"{"replayUrl":"https://a/b.mp3"}"#);
    assert!(matches!(
        UtilsMethods::generate_speech(&answer, true),
        Ok(Speech::Url(u)) if u == "https://a/b.mp3"
    ));
    assert!(matches!(
        UtilsMethods::generate_speech(&answer, false),
        Ok(Speech::Fetch(u)) if u == "https://a/b.mp3"
    ));
    assert_eq!(
        UtilsMethods::generate_speech(&json(r#"{"error":{"message":"quota"}}"#), false)
            .err()
            .unwrap(),
        "could not generate speech: quota"
    );
    assert_eq!(
        UtilsMethods::generate_speech(&json("{}"), true).err().unwrap(),
        "could not generate speech: "
    );
    assert_eq!(
        UtilsMethods::generate_speech_audio_request("https://a/b.mp3", headers()).url,
        "https://a/b.mp3"
    );
    assert_eq!(UtilsMethods::generate_speech_audio(Ok(vec![1, 2])), Ok(vec![1, 2]));
    assert_eq!(
        UtilsMethods::generate_speech_audio(Err("cut".to_string())),
        Err(RequesterError::RequestFailed(
            "could not retrieve bytes from generated voice url: \"cut\"".to_string()
        ))
    );
}
