use characterai::string_map::StringMap;
use characterai::text::{decimal_text, signed_decimal_text};
use characterai::types::character::{Character, PartialCharacter};
use characterai::types::chat::{Candidate, Chat, ChatHistory, Turn};
use characterai::types::enums::{Gender, Visibility};
use characterai::types::media::{Avatar, Voice};
use characterai::types::user::{Account, Persona, Settings, User};

fn json(text: &str) -> serde_json::Value {
    serde_json::from_str(text).expect("a document")
}

#[test]
fn gender_names() {
    assert_eq!(Gender::from_string("male"), Gender::Male);
    assert_eq!(Gender::from_string("female"), Gender::Female);
    assert_eq!(Gender::from_string("neutral"), Gender::Neutral);
    assert_eq!(Gender::from_string("Male"), Gender::Neutral);
    assert_eq!(Gender::from_string(""), Gender::Neutral);
    for g in [Gender::Neutral, Gender::Male, Gender::Female] {
        assert_eq!(Gender::from_string(g.to_string()), g);
    }
    assert_eq!(Gender::Female.to_string(), "female");
}

#[test]
fn visibility_names() {
    assert_eq!(Visibility::from_string("PRIVATE"), Visibility::Hidden);
    assert_eq!(Visibility::from_string("UNLISTED"), Visibility::Unlisted);
    assert_eq!(Visibility::from_string("PUBLIC"), Visibility::Public);
    assert_eq!(Visibility::from_string("private"), Visibility::Public);
    for v in [Visibility::Hidden, Visibility::Unlisted, Visibility::Public] {
        assert_eq!(Visibility::from_string(v.to_string()), v);
    }
    assert_eq!(Visibility::Hidden.to_string(), "PRIVATE");
}

#[test]
fn decimal_numerals() {
    assert_eq!(decimal_text(0), "0");
    assert_eq!(decimal_text(7), "7");
    assert_eq!(decimal_text(10), "10");
    assert_eq!(decimal_text(4096), "4096");
    assert_eq!(decimal_text(u128::MAX), u128::MAX.to_string());
    assert_eq!(signed_decimal_text(-1), "-1");
    assert_eq!(signed_decimal_text(400), "400");
    assert_eq!(signed_decimal_text(i64::MIN), i64::MIN.to_string());
    assert_eq!(signed_decimal_text(i64::MAX), i64::MAX.to_string());
}

#[test]
fn avatar_addresses() {
    let avatar = Avatar::new("a/b.png");
    assert_eq!(
        avatar.get_url(80, true),
        "https://characterai.io/i/80/static/avatars/a/b.png?webp=true&anim=1"
    );
    assert_eq!(
        avatar.get_default_url(),
        "https://characterai.io/i/400/static/avatars/a/b.png?webp=true&anim=0"
    );
    assert_eq!(
        avatar.get_url(-5, false),
        "https://characterai.io/i/-5/static/avatars/a/b.png?webp=true&anim=0"
    );
    assert_eq!(
        Avatar::from_json(&json(r#"{"avatar_file_name":"x.webp"}"#)),
        Some(Avatar::new("x.webp"))
    );
    assert_eq!(Avatar::from_json(&json(r#"{"avatar_file_name":3}"#)), None);
    assert_eq!(Avatar::from_json(&json("{}")), None);
}

#[test]
fn string_map_keeps_one_entry_per_key() {
    let mut map: StringMap<u32> = StringMap::new();
    assert_eq!(map.len(), 0);
    assert!(map.get("a").is_none());
    map.insert("a".to_string(), 1);
    map.insert("b".to_string(), 2);
    map.insert("a".to_string(), 3);
    assert_eq!(map.len(), 2);
    assert_eq!(map.get("a"), Some(&3));
    assert_eq!(map.get("b"), Some(&2));
    assert_eq!(map.key_at(0), "a");
    assert_eq!(*map.value_at(1), 2);
    assert!(map.contains_key("b"));
    assert!(!map.contains_key("c"));
    let copy = map.clone();
    assert_eq!(copy.len(), 2);
    assert_eq!(copy.get("a"), Some(&3));
}

#[test]
fn candidate_from_json() {
    let c = Candidate::from_json(&json(
        r#"{"candidate_id":"c1","raw_content":"hi","is_final":true,"create_time":"now"}"#,
    ));
    assert_eq!(c.id, "c1");
    assert_eq!(c.text, "hi");
    assert!(c.is_final);
    assert!(!c.safety_truncated);
    assert_eq!(c.create_time.as_deref(), Some("now"));
    let blank = Candidate::from_json(&json("{}"));
    assert_eq!(blank.id, "");
    assert_eq!(blank.text, "");
    assert!(!blank.is_final);
    assert!(Candidate::try_from_json(&json(r#"{"candidate_id":1}"#)).is_none());
    assert!(Candidate::try_from_json(&json(r#"{"raw_content":[]}"#)).is_none());
    let lenient = Candidate::from_json(&json(r#"{"is_final":"yes","safety_truncated":true}"#));
    assert!(!lenient.is_final);
    assert!(lenient.safety_truncated);
    let built = Candidate::new("i", "t", false, true, None);
    assert_eq!(built.id, "i");
    assert!(built.safety_truncated);
}

#[test]
fn turn_from_json_with_turn_key() {
    let t = Turn::from_json(&json(
        r#"{"turn_key":{"candidate_id":"k1","chat_id":"ch"},"create_time":"t0","state":{"s":1},
            "author":{"author_id":42,"name":"Ann","is_human":true},
            "primary_candidate_id":"b",
            "candidates":[{"candidate_id":"a","raw_content":"1"},{"candidate_id":"b","raw_content":"2"},{"candidate_id":"a","raw_content":"3"}]}"#,
    ));
    assert_eq!(t.id, "k1");
    assert_eq!(t.chat_id, "ch");
    assert_eq!(t.create_time.as_deref(), Some("t0"));
    assert_eq!(t.last_update_time.as_deref(), Some("t0"));
    assert_eq!(t.state, json(r#"{"s":1}"#));
    assert_eq!(t.author_id, 42);
    assert_eq!(t.author_name, "Ann");
    assert!(t.author_is_human);
    assert_eq!(t.candidates.len(), 2);
    assert_eq!(t.candidates.get("a").unwrap().text, "3");
    assert_eq!(t.get_primary_candidate().unwrap().text, "2");
    let texts: Vec<String> = t.get_candidates().into_iter().map(|c| c.text).collect();
    assert_eq!(texts, vec!["3", "2"]);
    assert!(!t.shows_final(&None));
    assert_eq!(t.newest_id().as_deref(), Some("b"));
    assert_eq!(t.candidate("a").unwrap().text, "3");
    assert!(t.candidate("zz").is_none());
}

#[test]
fn turn_from_json_without_turn_key() {
    let t = Turn::from_json(&json(r#"{"id":"t1","chat_id":"c"}"#));
    assert_eq!(t.id, "t1");
    assert_eq!(t.chat_id, "c");
    assert_eq!(t.author_id, 0);
    assert_eq!(t.author_name, "");
    assert!(!t.author_is_human);
    assert!(t.primary_candidate_id.is_none());
    assert!(t.get_primary_candidate().is_none());
    assert_eq!(t.state, json(r#""""#));
    assert_eq!(t.candidates.len(), 0);
    assert!(Turn::try_from_json(&json("[]")).is_none());
    assert!(Turn::try_from_json(&json(r#"{"id":1}"#)).is_none());
    assert!(Turn::try_from_json(&json(r#"{"turn_key":{"chat_id":false}}"#)).is_none());
    assert!(Turn::try_from_json(&json(r#"{"candidates":[{"candidate_id":0}]}"#)).is_none());
    assert!(Turn::try_from_json(&json(r#"{"candidates":"none"}"#)).is_some());
    let missing = Turn::from_json(&json(r#"{"primary_candidate_id":"zz"}"#));
    assert!(missing.get_primary_candidate().is_none());
    assert!(!missing.shows_final(&Some("zz".to_string())));
    assert!(missing.newest_id().is_none());
    let done = Turn::from_json(&json(
        r#"{"primary_candidate_id":"a","candidates":[{"candidate_id":"a","is_final":true},{"candidate_id":"b"}]}"#,
    ));
    assert!(done.shows_final(&None));
    assert!(done.shows_final(&Some("b".to_string())));
    let open = Turn::from_json(&json(
        r#"{"candidates":[{"candidate_id":"a","is_final":true},{"candidate_id":"b"}]}"#,
    ));
    assert!(open.shows_final(&Some("a".to_string())));
    assert!(!open.shows_final(&Some("b".to_string())));
    assert!(!open.shows_final(&None));
}

#[test]
fn chat_records() {
    let chat = Chat::from_json(&json(r#"{"chat_id":"c","character_id":"x"}"#));
    assert_eq!(chat.chat_id, "c");
    assert_eq!(chat.character_id, "x");
    assert_eq!(Chat::new().chat_id, "");
    assert_eq!(Chat::from_json(&json("null")).character_id, "");
    assert_eq!(ChatHistory::from_json(&json("{}")), ChatHistory::new());
}

#[test]
fn account_json_round_trip() {
    let value = json(
        r#"{"id":9,"email":"e@x","username":"u","bio":"b","first_name":null,"is_human":false,
            "account":{"name":"N","avatar_file_name":"f.png","avatar_type":"UPLOADED"}}"#,
    );
    let account = Account::from_json(&value);
    assert_eq!(account.id, 9);
    assert_eq!(account.email.as_deref(), Some("e@x"));
    assert_eq!(account.username, "u");
    assert_eq!(account.name, "N");
    assert_eq!(account.bio, "b");
    assert_eq!(account.avatar, Some(Avatar::new("f.png")));
    assert_eq!(account.avatar_type, "UPLOADED");
    assert!(account.first_name.is_none());
    assert!(!account.is_human);
    assert_eq!(account.to_json(), value);
    assert!(Account::from_json(&account.to_json()) == account);
    let blank = Account::from_json(&json(r#"{"account":{}}"#));
    assert_eq!(blank.id, 0);
    assert_eq!(blank.avatar_type, "DEFAULT");
    assert!(blank.is_human);
    assert!(Account::try_from_json(&json("{}")).is_none());
    assert!(Account::try_from_json(&json(r#"{"account":{},"id":"7"}"#)).is_none());
    assert!(Account::try_from_json(&json(r#"{"account":{},"is_human":1}"#)).is_none());
    let default = Account::default();
    assert_eq!(default.id, 0);
    assert_eq!(default.avatar_type, "DEFAULT");
    assert!(!default.is_human);
}

#[test]
fn user_from_json() {
    let user = User::from_json(&json(
        r#"{"username":"u","name":"n","bio":"","num_following":3,"num_followers":4294967301,
            "characters":[{"external_id":"c1","participant__name":"P","title":"T"}],
            "subscription_type":7}"#,
    ));
    assert_eq!(user.username, "u");
    assert_eq!(user.num_following, 3);
    assert_eq!(user.num_followers, 5);
    assert_eq!(user.characters.len(), 1);
    assert_eq!(user.characters[0].name, "P");
    assert_eq!(user.subscription_type, "NONE");
    let plain = User::from_json(&json("{}"));
    assert_eq!(plain.subscription_type, "");
    assert!(plain.characters.is_empty());
    assert!(User::try_from_json(&json(r#"{"characters":{}}"#)).is_none());
    assert!(User::try_from_json(&json(r#"{"characters":[{"title":1}]}"#)).is_none());
    assert!(User::try_from_json(&json(r#"{"num_following":1.5}"#)).is_none());
    let written = user.to_json();
    assert_eq!(written["num_followers"], json("5"));
    assert_eq!(written["characters"][0]["external_id"], json(r#""c1""#));
    assert_eq!(written["avatar_file_name"], json("null"));
    let built = User::new("a", "b", "c", None, 1, 2, Vec::new(), "PLUS");
    assert_eq!(built.subscription_type, "PLUS");
}

#[test]
fn persona_from_json() {
    let persona = Persona::from_json(&json(
        r#"{"external_id":"p","name":"fallback","greeting":1,"definition":"d","archived":true}"#,
    ));
    assert_eq!(persona.id, "p");
    assert_eq!(persona.name, "fallback");
    assert_eq!(persona.greeting, "Hello! This is my persona");
    assert_eq!(persona.description, "");
    assert!(persona.archived);
    let both = Persona::from_json(&json(r#"{"participant__name":"first","name":"second"}"#));
    assert_eq!(both.name, "first");
    assert!(Persona::try_from_json(&json(r#"{"participant__name":3,"name":"x"}"#)).is_none());
    let default = Persona::default();
    assert_eq!(default.greeting, "Hello! This is my persona");
    assert_eq!(default.description, "This is my persona.");
    assert!(default.archived);
    assert_eq!(
        persona.to_json(),
        json(
            r#"{"external_id":"p","participant__name":"fallback","definition":"d","avatar_file_name":null,"author_username":null}"#
        )
    );
}

#[test]
fn settings_from_json() {
    let settings = Settings::from_json(&json(
        r#"{"default_persona_id":"dp","discordSettings":{"a":1},"modelPreferenceSettings":[2],
            "personaOverrides":{"c1":"pa","c2":5,"c3":"pc"}}"#,
    ));
    assert_eq!(settings.default_persona_id, "dp");
    assert_eq!(settings.discord_settings, json(r#"{"a":1}"#));
    assert_eq!(settings.model_preference_settings, json("[2]"));
    assert_eq!(settings.output_style_settings, json("null"));
    assert_eq!(settings.persona_overrides.len(), 2);
    assert_eq!(settings.persona_overrides.get("c1").unwrap(), "pa");
    assert_eq!(settings.persona_overrides.get("c3").unwrap(), "pc");
    assert!(settings.persona_overrides.get("c2").is_none());
    assert_eq!(
        settings.to_json(),
        json(
            r#"{"default_persona_id":"dp","discordSettings":{"a":1},"modelPreferenceSettings":[2],
                "outputStyleSettings":null,"personaOverrides":{"c1":"pa","c3":"pc"}}"#
        )
    );
    assert!(Settings::try_from_json(&json(r#"{"personaOverrides":[]}"#)).is_none());
    assert!(Settings::try_from_json(&json(r#"{"default_persona_id":null}"#)).is_none());
    let default = Settings::default();
    assert_eq!(default.default_persona_id, "");
    assert_eq!(default.persona_overrides.len(), 0);
    assert_eq!(default.discord_settings, json("null"));
}

#[test]
fn character_from_json() {
    let c = Character::from_json(&json(
        r#"{"external_id":"x","participant__name":"Nm","description":"d","greeting":"g","title":"t",
            "visibility":"UNLISTED","upvotes":12,"copyable":true,"participant__user__username":"in",
            "user__username":"au","participant__num_interactions":99}"#,
    ));
    assert_eq!(c.id, "x");
    assert_eq!(c.name, "Nm");
    assert_eq!(c.visibility, Visibility::Unlisted);
    assert_eq!(c.upvotes, Some(12));
    assert!(c.copyable);
    assert_eq!(c.internal_id, "in");
    assert_eq!(c.author_username.as_deref(), Some("au"));
    assert_eq!(c.num_interactions, Some(99));
    assert!(c.songs.is_empty());
    assert_eq!(c.starter_prompts, json("{}"));
    assert_eq!(Character::from_json(&json("{}")).visibility, Visibility::Public);
    assert!(Character::try_from_json(&json(r#"{"starter_prompts":{}}"#)).is_none());
    assert!(Character::try_from_json(&json(r#"{"starter_prompts":[]}"#)).is_none());
    assert!(Character::try_from_json(&json(r#"{"copyable":"no"}"#)).is_none());
    assert!(Character::try_from_json(&json(r#"{"visibility":1}"#)).is_none());
}

#[test]
fn partial_character_from_json() {
    let c = PartialCharacter::from_json(&json(
        r#"{"external_id":"x","name":"Nm","definition":5,"visibility":5,"upvotes":"many"}"#,
    ));
    assert_eq!(c.id, "x");
    assert_eq!(c.name, "Nm");
    assert_eq!(c.definition, "");
    assert_eq!(c.visibility, Visibility::Public);
    assert!(c.upvotes.is_none());
    assert!(PartialCharacter::try_from_json(&json(r#"{"greeting":null}"#)).is_none());
    let hidden = PartialCharacter::from_json(&json(r#"{"visibility":"PRIVATE"}"#));
    assert_eq!(hidden.visibility, Visibility::Hidden);
    assert_eq!(
        hidden.to_json(),
        json(
            r#"{"external_id":"","participant__name":"","description":"","definition":"","greeting":"",
                "avatar_file_name":null,"visibility":"PRIVATE","upvotes":null,"title":"",
                "user__username":null,"participant__num_interactions":null}"#
        )
    );
}

#[test]
fn voice_from_json() {
    let v = Voice::from_json(&json(
        r#"{"id":"v","name":"Nm","description":"d","gender":"female","visibility":"PUBLIC",
            "creatorInfo":{"id":"cr","username":"cu"},"preview_audio_uri":"uri"}"#,
    ));
    assert_eq!(v.id, "v");
    assert_eq!(v.gender, Gender::Female);
    assert_eq!(v.visibility, Visibility::Public);
    assert_eq!(v.creator_id.as_deref(), Some("cr"));
    assert_eq!(v.creator_username.as_deref(), Some("cu"));
    assert_eq!(v.preview_audio_uri.as_deref(), Some("uri"));
    let blank = Voice::from_json(&json("{}"));
    assert_eq!(blank.gender, Gender::Neutral);
    assert_eq!(blank.visibility, Visibility::Hidden);
    assert!(blank.creator_id.is_none());
    assert!(Voice::try_from_json(&json(r#"{"gender":null}"#)).is_none());
    assert!(Voice::try_from_json(&json(r#"{"internal_status":0}"#)).is_none());
}
