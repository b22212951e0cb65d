//! People: the account of the client, other users, personas and settings.

use vstd::prelude::*;
use crate::json::{
    bool_or, bool_strict, get_bool_or, get_bool_strict, get_i64_strict, get_text, get_text_or,
    get_text_strict, i64_strict, items_strict, json_model, lists_members, member, member_or,
    models, opt_text_model, opt_text_value, text_at, text_or, text_strict, text_value, value_array,
    value_as_array, value_as_str, value_bool, value_entries, value_get, value_i64, value_null,
    value_object, value_set, JsonModel,
};
use crate::string_map::{as_map, lemma_as_map_upsert, StringMap};
use crate::text::{copy_opt, opt_view};
use crate::types::character::{
    avatar_value, display_name, get_display_name, PartialCharacter, PartialCharacterView,
};
use crate::types::media::{avatar_view, copy_avatar, Avatar};

verus! {

/// The account that a client acts for.
#[derive(Debug, Clone, PartialEq)]
pub struct Account {
    pub id: i64,
    pub email: Option<String>,
    pub username: String,
    pub name: String,
    pub bio: String,
    pub avatar: Option<Avatar>,
    pub avatar_type: String,
    pub first_name: Option<String>,
    pub is_human: bool,
}

/// The content of an [`Account`].
pub struct AccountView {
    pub id: i64,
    pub email: Option<Seq<char>>,
    pub username: Seq<char>,
    pub name: Seq<char>,
    pub bio: Seq<char>,
    pub avatar: Option<Seq<char>>,
    pub avatar_type: Seq<char>,
    pub first_name: Option<Seq<char>>,
    pub is_human: bool,
}

impl View for Account {
    type V = AccountView;

    open spec fn view(&self) -> AccountView {
        AccountView {
            id: self.id,
            email: opt_view(self.email),
            username: self.username@,
            name: self.name@,
            bio: self.bio@,
            avatar: avatar_view(self.avatar),
            avatar_type: self.avatar_type@,
            first_name: opt_view(self.first_name),
            is_human: self.is_human,
        }
    }
}

/// An optional text as a document: the text, or `null`.
pub open spec fn opt_model(s: Option<Seq<char>>) -> JsonModel {
    match s {
        Some(t) => JsonModel::Text(t),
        None => JsonModel::Null,
    }
}

impl AccountView {
    /// The account of a client that has not fetched its profile.
    pub open spec fn blank() -> AccountView {
        AccountView {
            id: 0,
            email: None,
            username: Seq::empty(),
            name: Seq::empty(),
            bio: Seq::empty(),
            avatar: None,
            avatar_type: "DEFAULT"@,
            first_name: None,
            is_human: false,
        }
    }

    /// The document of an account. The name and the picture stand in the
    /// inner object `account`.
    pub open spec fn document(self) -> JsonModel {
        JsonModel::Object(
            Map::empty().insert("id"@, JsonModel::Integer(self.id as int)).insert(
                "email"@,
                opt_model(self.email),
            ).insert("username"@, JsonModel::Text(self.username)).insert(
                "bio"@,
                JsonModel::Text(self.bio),
            ).insert("first_name"@, opt_model(self.first_name)).insert(
                "is_human"@,
                JsonModel::Bool(self.is_human),
            ).insert(
                "account"@,
                JsonModel::Object(
                    Map::empty().insert("name"@, JsonModel::Text(self.name)).insert(
                        "avatar_file_name"@,
                        opt_model(self.avatar),
                    ).insert("avatar_type"@, JsonModel::Text(self.avatar_type)),
                ),
            ),
        )
    }
}

impl Account {
    /// The account that a document describes. The document has a member
    /// `account`, which holds the name and the picture. An absent text is
    /// empty, an absent id 0, and an absent `is_human` true. A document
    /// without `account`, or with a member of the wrong kind under `id`,
    /// `username`, `bio`, `is_human` or the name, describes none.
    pub open spec fn decode(m: JsonModel) -> Option<AccountView> {
        match member(m, "account"@) {
            Some(acc) => {
                let id = i64_strict(m, "id"@, 0);
                let username = text_strict(m, "username"@);
                let name = text_strict(acc, "name"@);
                let bio = text_strict(m, "bio"@);
                let is_human = bool_strict(m, "is_human"@, true);
                if id is Some && username is Some && name is Some && bio is Some && is_human
                    is Some {
                    Some(
                        AccountView {
                            id: id->Some_0,
                            email: text_at(m, "email"@),
                            username: username->Some_0,
                            name: name->Some_0,
                            bio: bio->Some_0,
                            avatar: text_at(acc, "avatar_file_name"@),
                            avatar_type: match text_at(acc, "avatar_type"@) {
                                Some(t) => t,
                                None => "DEFAULT"@,
                            },
                            first_name: text_at(m, "first_name"@),
                            is_human: is_human->Some_0,
                        },
                    )
                } else {
                    None
                }
            },
            None => None,
        }
    }

    /// A new account. Without a kind of picture, the kind is `DEFAULT`.
    pub fn new(
        id: i64,
        email: Option<String>,
        username: &str,
        name: &str,
        bio: &str,
        avatar: Option<Avatar>,
        avatar_type: Option<String>,
        first_name: Option<String>,
        is_human: bool,
    ) -> (r: Self)
        ensures
            r@ == (AccountView {
                id,
                email: opt_view(email),
                username: username@,
                name: name@,
                bio: bio@,
                avatar: avatar_view(avatar),
                avatar_type: match avatar_type {
                    Some(t) => t@,
                    None => "DEFAULT"@,
                },
                first_name: opt_view(first_name),
                is_human,
            }),
    {
        Self {
            id,
            email,
            username: username.to_owned(),
            name: name.to_owned(),
            bio: bio.to_owned(),
            avatar,
            avatar_type: match avatar_type {
                Some(t) => t,
                None => "DEFAULT".to_owned(),
            },
            first_name,
            is_human,
        }
    }

    /// The account of a client that has not fetched its profile.
    pub fn default() -> (r: Self)
        ensures
            r@ == AccountView::blank(),
    {
        proof {
            reveal_strlit("");
        }
        assert(""@ =~= Seq::<char>::empty());
        Self::new(0, None, "", "", "", None, None, None, false)
    }

    /// Reads an account, or `None` where the document describes none.
    pub fn try_from_json(json: &serde_json::Value) -> (r: Option<Self>)
        ensures
            match r {
                Some(a) => Self::decode(json_model(*json)) == Some(a@),
                None => Self::decode(json_model(*json)) is None,
            },
    {
        let acc = value_get(json, "account")?;
        let id = get_i64_strict(json, "id", 0)?;
        let username = get_text_strict(json, "username")?;
        let name = get_text_strict(acc, "name")?;
        let bio = get_text_strict(json, "bio")?;
        let is_human = get_bool_strict(json, "is_human", true)?;
        Some(
            Self::new(
                id,
                get_text(json, "email"),
                username.as_str(),
                name.as_str(),
                bio.as_str(),
                Avatar::from_json(acc),
                get_text(acc, "avatar_type"),
                get_text(json, "first_name"),
                is_human,
            ),
        )
    }

    /// Reads an account from a document that describes one.
    pub fn from_json(json: &serde_json::Value) -> (r: Self)
        requires
            Self::decode(json_model(*json)) is Some,
        ensures
            Self::decode(json_model(*json)) == Some(r@),
    {
        match Self::try_from_json(json) {
            Some(a) => a,
            None => Self::default(),
        }
    }

    /// The account as a document.
    pub fn to_json(&self) -> (r: serde_json::Value)
        ensures
            json_model(r) == self@.document(),
    {
        let mut inner = value_object();
        value_set(&mut inner, "name", text_value(self.name.as_str()));
        value_set(&mut inner, "avatar_file_name", avatar_value(&self.avatar));
        value_set(&mut inner, "avatar_type", text_value(self.avatar_type.as_str()));
        let mut doc = value_object();
        value_set(&mut doc, "id", value_i64(self.id));
        value_set(&mut doc, "email", opt_text_value(&self.email));
        value_set(&mut doc, "username", text_value(self.username.as_str()));
        value_set(&mut doc, "bio", text_value(self.bio.as_str()));
        value_set(&mut doc, "first_name", opt_text_value(&self.first_name));
        value_set(&mut doc, "is_human", value_bool(self.is_human));
        value_set(&mut doc, "account", inner);
        assert(opt_text_model(self.email) == opt_model(opt_view(self.email)));
        assert(opt_text_model(self.first_name) == opt_model(opt_view(self.first_name)));
        doc
    }

    /// What is written can be read back: the document of an account
    /// describes that account.
    pub proof fn lemma_document_round_trip(a: AccountView)
        ensures
            Self::decode(a.document()) == Some(a),
    {
        reveal_strlit("id");
        reveal_strlit("email");
        reveal_strlit("username");
        reveal_strlit("bio");
        reveal_strlit("first_name");
        reveal_strlit("is_human");
        reveal_strlit("account");
        reveal_strlit("name");
        reveal_strlit("avatar_file_name");
        reveal_strlit("avatar_type");
        assert("id"@.len() == 2 && "email"@.len() == 5 && "username"@.len() == 8 && "bio"@.len()
            == 3 && "first_name"@.len() == 10 && "is_human"@.len() == 8 && "account"@.len() == 7
            && "name"@.len() == 4 && "avatar_file_name"@.len() == 16 && "avatar_type"@.len()
            == 11);
        assert("username"@[0] == 'u' && "is_human"@[0] == 'i');
        let m = a.document();
        let inner = JsonModel::Object(
            Map::empty().insert("name"@, JsonModel::Text(a.name)).insert(
                "avatar_file_name"@,
                opt_model(a.avatar),
            ).insert("avatar_type"@, JsonModel::Text(a.avatar_type)),
        );
        assert(member(m, "account"@) == Some(inner));
        assert(member(m, "id"@) == Some(JsonModel::Integer(a.id as int)));
        assert(member(m, "email"@) == Some(opt_model(a.email)));
        assert(member(m, "username"@) == Some(JsonModel::Text(a.username)));
        assert(member(m, "bio"@) == Some(JsonModel::Text(a.bio)));
        assert(member(m, "first_name"@) == Some(opt_model(a.first_name)));
        assert(member(m, "is_human"@) == Some(JsonModel::Bool(a.is_human)));
        assert(member(inner, "name"@) == Some(JsonModel::Text(a.name)));
        assert(member(inner, "avatar_file_name"@) == Some(opt_model(a.avatar)));
        assert(member(inner, "avatar_type"@) == Some(JsonModel::Text(a.avatar_type)));
        assert(text_at(m, "email"@) == a.email);
        assert(text_at(m, "first_name"@) == a.first_name);
        assert(text_at(inner, "avatar_file_name"@) == a.avatar);
    }

    /// An owned copy.
    pub fn snapshot(&self) -> (r: Self)
        ensures
            r@ == self@,
    {
        Self {
            id: self.id,
            email: copy_opt(&self.email),
            username: self.username.clone(),
            name: self.name.clone(),
            bio: self.bio.clone(),
            avatar: copy_avatar(&self.avatar),
            avatar_type: self.avatar_type.clone(),
            first_name: copy_opt(&self.first_name),
            is_human: self.is_human,
        }
    }
}

/// The contents of a list of short records.
pub open spec fn character_views(items: Seq<PartialCharacter>) -> Seq<PartialCharacterView> {
    items.map_values(|c: PartialCharacter| c@)
}

/// The short records that a list of documents describes, or nothing where
/// one of them describes none.
pub open spec fn decode_characters(items: Seq<JsonModel>) -> Option<Seq<PartialCharacterView>>
    decreases items.len(),
{
    if items.len() == 0 {
        Some(Seq::empty())
    } else {
        match (decode_characters(items.drop_last()), PartialCharacter::decode(items.last())) {
            (Some(earlier), Some(c)) => Some(earlier.push(c)),
            _ => None,
        }
    }
}

/// Where a list of documents describes short records, so does each of its
/// beginnings.
pub proof fn lemma_decode_characters_prefix(items: Seq<JsonModel>, n: int)
    requires
        0 <= n <= items.len(),
        decode_characters(items) is Some,
    ensures
        decode_characters(items.take(n)) is Some,
    decreases items.len(),
{
    if n < items.len() {
        lemma_decode_characters_prefix(items.drop_last(), n);
        assert(items.drop_last().take(n) =~= items.take(n));
    } else {
        assert(items.take(n) =~= items);
    }
}

/// Reads a list of short records, or `None` where one of the documents
/// describes none.
pub fn characters_from_json(items: &Vec<serde_json::Value>) -> (r: Option<Vec<PartialCharacter>>)
    ensures
        match r {
            Some(list) => decode_characters(models(items@)) == Some(character_views(list@)),
            None => decode_characters(models(items@)) is None,
        },
{
    let mut out: Vec<PartialCharacter> = Vec::new();
    let mut i: usize = 0;
    let ghost all = models(items@);
    assert(all.take(0) =~= Seq::<JsonModel>::empty());
    assert(character_views(out@) =~= Seq::<PartialCharacterView>::empty());
    while i < items.len()
        invariant
            i <= items.len(),
            all == models(items@),
            decode_characters(all.take(i as int)) == Some(character_views(out@)),
        decreases items.len() - i,
    {
        assert(all.take(i + 1).drop_last() =~= all.take(i as int));
        assert(all.take(i + 1).last() == json_model(items@[i as int]));
        let ghost before = out@;
        match PartialCharacter::try_from_json(&items[i]) {
            Some(c) => {
                out.push(c);
                assert(character_views(out@) =~= character_views(before).push(c@));
            },
            None => {
                proof {
                    if decode_characters(all) is Some {
                        lemma_decode_characters_prefix(all, i + 1);
                    }
                }
                return None;
            },
        }
        i += 1;
    }
    assert(all.take(i as int) =~= all);
    Some(out)
}

/// The documents of a list of short records.
pub fn characters_to_json(items: &Vec<PartialCharacter>) -> (r: serde_json::Value)
    ensures
        json_model(r) == JsonModel::Array(character_documents(character_views(items@))),
{
    let mut out: Vec<serde_json::Value> = Vec::new();
    let mut i: usize = 0;
    while i < items.len()
        invariant
            i <= items.len(),
            out@.len() == i,
            forall|j: int| 0 <= j < i ==> json_model(#[trigger] out@[j]) == items@[j]@.document(),
        decreases items.len() - i,
    {
        out.push(items[i].to_json());
        i += 1;
    }
    assert(models(out@) =~= character_documents(character_views(items@)));
    value_array(out)
}

/// The documents of a list of short records.
pub open spec fn character_documents(items: Seq<PartialCharacterView>) -> Seq<JsonModel> {
    items.map_values(|c: PartialCharacterView| c.document())
}

/// Another user of the service.
#[derive(Debug, Clone)]
pub struct User {
    pub username: String,
    pub name: String,
    pub bio: String,
    pub avatar: Option<Avatar>,
    pub num_following: i32,
    pub num_followers: i32,
    pub characters: Vec<PartialCharacter>,
    pub subscription_type: String,
}

/// The content of a [`User`].
pub struct UserView {
    pub username: Seq<char>,
    pub name: Seq<char>,
    pub bio: Seq<char>,
    pub avatar: Option<Seq<char>>,
    pub num_following: i32,
    pub num_followers: i32,
    pub characters: Seq<PartialCharacterView>,
    pub subscription_type: Seq<char>,
}

impl View for User {
    type V = UserView;

    open spec fn view(&self) -> UserView {
        UserView {
            username: self.username@,
            name: self.name@,
            bio: self.bio@,
            avatar: avatar_view(self.avatar),
            num_following: self.num_following,
            num_followers: self.num_followers,
            characters: character_views(self.characters@),
            subscription_type: self.subscription_type@,
        }
    }
}

/// The low 32 bits of a count, read as a signed number.
pub open spec fn narrow(n: i64) -> i32 {
    n as i32
}

/// Exec form of [`narrow`].
pub fn narrow_count(n: i64) -> (r: i32)
    ensures
        r == narrow(n),
{
    #[verifier::truncate]
    (n as i32)
}

impl UserView {
    /// The document of a user.
    pub open spec fn document(self) -> JsonModel {
        JsonModel::Object(
            Map::empty().insert("username"@, JsonModel::Text(self.username)).insert(
                "name"@,
                JsonModel::Text(self.name),
            ).insert("bio"@, JsonModel::Text(self.bio)).insert(
                "avatar_file_name"@,
                opt_model(self.avatar),
            ).insert("num_following"@, JsonModel::Integer(self.num_following as int)).insert(
                "num_followers"@,
                JsonModel::Integer(self.num_followers as int),
            ).insert("characters"@, JsonModel::Array(character_documents(self.characters))).insert(
                "subscription_type"@,
                JsonModel::Text(self.subscription_type),
            ),
        )
    }
}

impl User {
    /// The user that a document describes. An absent text is empty and an
    /// absent count 0; a count keeps its low 32 bits. The kind of
    /// subscription is `NONE` where something other than a string stands
    /// there. A document with a member of the wrong kind under `username`,
    /// `name`, `bio`, a count or `characters`, or with a character that
    /// cannot be read, describes none.
    pub open spec fn decode(m: JsonModel) -> Option<UserView> {
        let username = text_strict(m, "username"@);
        let name = text_strict(m, "name"@);
        let bio = text_strict(m, "bio"@);
        let following = i64_strict(m, "num_following"@, 0);
        let followers = i64_strict(m, "num_followers"@, 0);
        let characters = match items_strict(m, "characters"@) {
            Some(items) => decode_characters(items),
            None => None,
        };
        if username is Some && name is Some && bio is Some && following is Some && followers
            is Some && characters is Some {
            Some(
                UserView {
                    username: username->Some_0,
                    name: name->Some_0,
                    bio: bio->Some_0,
                    avatar: text_at(m, "avatar_file_name"@),
                    num_following: narrow(following->Some_0),
                    num_followers: narrow(followers->Some_0),
                    characters: characters->Some_0,
                    subscription_type: text_or(m, "subscription_type"@, "NONE"@),
                },
            )
        } else {
            None
        }
    }

    pub fn new(
        username: &str,
        name: &str,
        bio: &str,
        avatar: Option<Avatar>,
        num_following: i32,
        num_followers: i32,
        characters: Vec<PartialCharacter>,
        subscription_type: &str,
    ) -> (r: Self)
        ensures
            r@ == (UserView {
                username: username@,
                name: name@,
                bio: bio@,
                avatar: avatar_view(avatar),
                num_following,
                num_followers,
                characters: character_views(characters@),
                subscription_type: subscription_type@,
            }),
    {
        Self {
            username: username.to_owned(),
            name: name.to_owned(),
            bio: bio.to_owned(),
            avatar,
            num_following,
            num_followers,
            characters,
            subscription_type: subscription_type.to_owned(),
        }
    }

    /// Reads a user, or `None` where the document describes none.
    pub fn try_from_json(json: &serde_json::Value) -> (r: Option<Self>)
        ensures
            match r {
                Some(u) => Self::decode(json_model(*json)) == Some(u@),
                None => Self::decode(json_model(*json)) is None,
            },
    {
        let username = get_text_strict(json, "username")?;
        let name = get_text_strict(json, "name")?;
        let bio = get_text_strict(json, "bio")?;
        let following = get_i64_strict(json, "num_following", 0)?;
        let followers = get_i64_strict(json, "num_followers", 0)?;
        let characters = match value_get(json, "characters") {
            Some(list) => match value_as_array(list) {
                Some(items) => characters_from_json(items)?,
                None => { return None; },
            },
            None => {
                let none: Vec<PartialCharacter> = Vec::new();
                assert(character_views(none@) =~= Seq::<PartialCharacterView>::empty());
                none
            },
        };
        Some(
            Self {
                username,
                name,
                bio,
                avatar: Avatar::from_json(json),
                num_following: narrow_count(following),
                num_followers: narrow_count(followers),
                characters,
                subscription_type: get_text_or(json, "subscription_type", "NONE"),
            },
        )
    }

    /// Reads a user from a document that describes one.
    pub fn from_json(json: &serde_json::Value) -> (r: Self)
        requires
            Self::decode(json_model(*json)) is Some,
        ensures
            Self::decode(json_model(*json)) == Some(r@),
    {
        match Self::try_from_json(json) {
            Some(u) => u,
            None => Self::new("", "", "", None, 0, 0, Vec::new(), ""),
        }
    }

    /// The user as a document.
    pub fn to_json(&self) -> (r: serde_json::Value)
        ensures
            json_model(r) == self@.document(),
    {
        let mut doc = value_object();
        value_set(&mut doc, "username", text_value(self.username.as_str()));
        value_set(&mut doc, "name", text_value(self.name.as_str()));
        value_set(&mut doc, "bio", text_value(self.bio.as_str()));
        value_set(&mut doc, "avatar_file_name", avatar_value(&self.avatar));
        value_set(&mut doc, "num_following", value_i64(self.num_following as i64));
        value_set(&mut doc, "num_followers", value_i64(self.num_followers as i64));
        value_set(&mut doc, "characters", characters_to_json(&self.characters));
        value_set(&mut doc, "subscription_type", text_value(self.subscription_type.as_str()));
        doc
    }
}

/// A persona: the face that the client shows to a character.
#[derive(Debug, Clone)]
pub struct Persona {
    pub id: String,
    pub name: String,
    pub greeting: String,
    pub description: String,
    pub definition: String,
    pub avatar: Option<Avatar>,
    pub archived: bool,
    pub author_username: Option<String>,
}

/// The content of a [`Persona`].
pub struct PersonaView {
    pub id: Seq<char>,
    pub name: Seq<char>,
    pub greeting: Seq<char>,
    pub description: Seq<char>,
    pub definition: Seq<char>,
    pub avatar: Option<Seq<char>>,
    pub archived: bool,
    pub author_username: Option<Seq<char>>,
}

impl View for Persona {
    type V = PersonaView;

    open spec fn view(&self) -> PersonaView {
        PersonaView {
            id: self.id@,
            name: self.name@,
            greeting: self.greeting@,
            description: self.description@,
            definition: self.definition@,
            avatar: avatar_view(self.avatar),
            archived: self.archived,
            author_username: opt_view(self.author_username),
        }
    }
}

impl PersonaView {
    /// The persona that stands in where none is given: without id or name,
    /// with the stock greeting and description, archived.
    pub open spec fn blank() -> PersonaView {
        PersonaView {
            id: Seq::empty(),
            name: Seq::empty(),
            greeting: "Hello! This is my persona"@,
            description: "This is my persona."@,
            definition: Seq::empty(),
            avatar: None,
            archived: true,
            author_username: None,
        }
    }

    /// The document of a persona.
    pub open spec fn document(self) -> JsonModel {
        JsonModel::Object(
            Map::empty().insert("external_id"@, JsonModel::Text(self.id)).insert(
                "participant__name"@,
                JsonModel::Text(self.name),
            ).insert("definition"@, JsonModel::Text(self.definition)).insert(
                "avatar_file_name"@,
                opt_model(self.avatar),
            ).insert("author_username"@, opt_model(self.author_username)),
        )
    }
}

impl Persona {
    /// The persona that a document describes. An absent text is empty. The
    /// greeting and the description are the stock ones where something
    /// other than a string stands there. A document with anything but a
    /// string under `external_id`, the name or `definition` describes none.
    pub open spec fn decode(m: JsonModel) -> Option<PersonaView> {
        let id = text_strict(m, "external_id"@);
        let name = display_name(m);
        let definition = text_strict(m, "definition"@);
        if id is Some && name is Some && definition is Some {
            Some(
                PersonaView {
                    id: id->Some_0,
                    name: name->Some_0,
                    greeting: text_or(m, "greeting"@, "Hello! This is my persona"@),
                    description: text_or(m, "description"@, "This is my persona."@),
                    definition: definition->Some_0,
                    avatar: text_at(m, "avatar_file_name"@),
                    archived: bool_or(m, "archived"@, false),
                    author_username: text_at(m, "author_username"@),
                },
            )
        } else {
            None
        }
    }

    pub fn new(
        id: &str,
        name: &str,
        greeting: &str,
        description: &str,
        definition: &str,
        avatar: Option<Avatar>,
        archived: bool,
        author_username: Option<String>,
    ) -> (r: Self)
        ensures
            r@ == (PersonaView {
                id: id@,
                name: name@,
                greeting: greeting@,
                description: description@,
                definition: definition@,
                avatar: avatar_view(avatar),
                archived,
                author_username: opt_view(author_username),
            }),
    {
        Self {
            id: id.to_owned(),
            name: name.to_owned(),
            greeting: greeting.to_owned(),
            description: description.to_owned(),
            definition: definition.to_owned(),
            avatar,
            archived,
            author_username,
        }
    }

    /// The persona that stands in where none is given.
    pub fn default() -> (r: Self)
        ensures
            r@ == PersonaView::blank(),
    {
        proof {
            reveal_strlit("");
        }
        assert(""@ =~= Seq::<char>::empty());
        Self::new("", "", "Hello! This is my persona", "This is my persona.", "", None, true, None)
    }

    /// Reads a persona, or `None` where the document describes none.
    pub fn try_from_json(json: &serde_json::Value) -> (r: Option<Self>)
        ensures
            match r {
                Some(p) => Self::decode(json_model(*json)) == Some(p@),
                None => Self::decode(json_model(*json)) is None,
            },
    {
        let id = get_text_strict(json, "external_id")?;
        let name = get_display_name(json)?;
        let definition = get_text_strict(json, "definition")?;
        Some(
            Self {
                id,
                name,
                greeting: get_text_or(json, "greeting", "Hello! This is my persona"),
                description: get_text_or(json, "description", "This is my persona."),
                definition,
                avatar: Avatar::from_json(json),
                archived: get_bool_or(json, "archived", false),
                author_username: get_text(json, "author_username"),
            },
        )
    }

    /// Reads a persona from a document that describes one.
    pub fn from_json(json: &serde_json::Value) -> (r: Self)
        requires
            Self::decode(json_model(*json)) is Some,
        ensures
            Self::decode(json_model(*json)) == Some(r@),
    {
        match Self::try_from_json(json) {
            Some(p) => p,
            None => Self::default(),
        }
    }

    /// The persona as a document.
    pub fn to_json(&self) -> (r: serde_json::Value)
        ensures
            json_model(r) == self@.document(),
    {
        let mut doc = value_object();
        value_set(&mut doc, "external_id", text_value(self.id.as_str()));
        value_set(&mut doc, "participant__name", text_value(self.name.as_str()));
        value_set(&mut doc, "definition", text_value(self.definition.as_str()));
        value_set(&mut doc, "avatar_file_name", avatar_value(&self.avatar));
        value_set(&mut doc, "author_username", opt_text_value(&self.author_username));
        assert(opt_text_model(self.author_username) == opt_model(opt_view(self.author_username)));
        doc
    }
}

/// The texts of a map of strings.
pub open spec fn text_map(m: Map<Seq<char>, String>) -> Map<Seq<char>, Seq<char>> {
    m.map_values(|s: String| s@)
}

/// The members of an object that are strings, each under its key.
pub open spec fn text_members(members: Map<Seq<char>, JsonModel>) -> Map<Seq<char>, Seq<char>> {
    Map::new(
        |k: Seq<char>| members.contains_key(k) && members[k] is Text,
        |k: Seq<char>| members[k]->Text_0,
    )
}

/// The object whose members are the texts of a map.
pub open spec fn text_object(m: Map<Seq<char>, Seq<char>>) -> JsonModel {
    JsonModel::Object(m.map_values(|s: Seq<char>| JsonModel::Text(s)))
}

/// The settings of an account.
#[derive(Debug, Clone)]
pub struct Settings {
    pub default_persona_id: String,
    pub discord_settings: serde_json::Value,
    pub model_preference_settings: serde_json::Value,
    pub output_style_settings: serde_json::Value,
    pub persona_overrides: StringMap<String>,
}

/// The content of a [`Settings`].
pub struct SettingsView {
    pub default_persona_id: Seq<char>,
    pub discord_settings: JsonModel,
    pub model_preference_settings: JsonModel,
    pub output_style_settings: JsonModel,
    /// The persona chosen for a character, by the id of the character.
    pub persona_overrides: Map<Seq<char>, Seq<char>>,
}

impl View for Settings {
    type V = SettingsView;

    open spec fn view(&self) -> SettingsView {
        SettingsView {
            default_persona_id: self.default_persona_id@,
            discord_settings: json_model(self.discord_settings),
            model_preference_settings: json_model(self.model_preference_settings),
            output_style_settings: json_model(self.output_style_settings),
            persona_overrides: text_map(as_map(self.persona_overrides@)),
        }
    }
}

impl SettingsView {
    /// The settings of an account that has chosen nothing.
    pub open spec fn blank() -> SettingsView {
        SettingsView {
            default_persona_id: Seq::empty(),
            discord_settings: JsonModel::Null,
            model_preference_settings: JsonModel::Null,
            output_style_settings: JsonModel::Null,
            persona_overrides: Map::empty(),
        }
    }

    /// The document of the settings.
    pub open spec fn document(self) -> JsonModel {
        JsonModel::Object(
            Map::empty().insert(
                "default_persona_id"@,
                JsonModel::Text(self.default_persona_id),
            ).insert("discordSettings"@, self.discord_settings).insert(
                "modelPreferenceSettings"@,
                self.model_preference_settings,
            ).insert("outputStyleSettings"@, self.output_style_settings).insert(
                "personaOverrides"@,
                text_object(self.persona_overrides),
            ),
        )
    }
}

/// Reads the members of an object that are strings.
pub fn text_entries(entries: &Vec<(String, &serde_json::Value)>) -> (r: StringMap<String>)
    requires
        exists|members: Map<Seq<char>, JsonModel>| lists_members(entries@, members),
    ensures
        forall|members: Map<Seq<char>, JsonModel>|
            lists_members(entries@, members) ==> text_map(as_map(r@)) == text_members(members),
{
    let mut out: StringMap<String> = StringMap::new();
    let mut i: usize = 0;
    let ghost done: Map<Seq<char>, Seq<char>> = Map::empty();
    assert(text_map(as_map(out@)) =~= Map::<Seq<char>, Seq<char>>::empty());
    while i < entries.len()
        invariant
            i <= entries.len(),
            text_map(as_map(out@)) == Map::<Seq<char>, Seq<char>>::new(
                |k: Seq<char>|
                    exists|j: int|
                        0 <= j < i && (#[trigger] entries@[j]).0@ == k && json_model(
                            *entries@[j].1,
                        ) is Text,
                |k: Seq<char>|
                    json_model(
                        *entries@[choose|j: int|
                            0 <= j < i && (#[trigger] entries@[j]).0@ == k && json_model(
                                *entries@[j].1,
                            ) is Text].1,
                    )->Text_0,
            ),
            forall|a: int, b: int|
                0 <= a < b < entries@.len() ==> (#[trigger] entries@[a]).0@ != (
                #[trigger] entries@[b]).0@,
        decreases entries.len() - i,
    {
        let ghost before = text_map(as_map(out@));
        let n = out.len();
        match value_as_str(entries[i].1) {
            Some(s) => {
                let key = entries[i].0.clone();
                let value = s.to_owned();
                proof {
                    lemma_as_map_upsert(out@, key@, value);
                }
                out.insert(key, value);
                assert(text_map(as_map(out@)) =~= before.insert(
                    entries@[i as int].0@,
                    json_model(*entries@[i as int].1)->Text_0,
                ));
            },
            None => {},
        }
        i += 1;
        assert(text_map(as_map(out@)) =~= Map::<Seq<char>, Seq<char>>::new(
            |k: Seq<char>|
                exists|j: int|
                    0 <= j < i && (#[trigger] entries@[j]).0@ == k && json_model(
                        *entries@[j].1,
                    ) is Text,
            |k: Seq<char>|
                json_model(
                    *entries@[choose|j: int|
                        0 <= j < i && (#[trigger] entries@[j]).0@ == k && json_model(
                            *entries@[j].1,
                        ) is Text].1,
                )->Text_0,
        ));
    }
    assert forall|members: Map<Seq<char>, JsonModel>|
        lists_members(entries@, members) implies text_map(as_map(out@)) == text_members(
        members,
    ) by {
        assert(text_map(as_map(out@)) =~= text_members(members));
    }
    out
}

impl Settings {
    /// The settings that a document describes. The three blocks of settings
    /// are kept as they are, `null` where absent; the persona of a
    /// character is kept where it is a string. A document with anything but
    /// a string under `default_persona_id`, or anything but an object under
    /// `personaOverrides`, describes none.
    pub open spec fn decode(m: JsonModel) -> Option<SettingsView> {
        let id = text_strict(m, "default_persona_id"@);
        let overrides = member_or(m, "personaOverrides"@, JsonModel::Object(Map::empty()));
        if id is Some && overrides is Object {
            Some(
                SettingsView {
                    default_persona_id: id->Some_0,
                    discord_settings: member_or(m, "discordSettings"@, JsonModel::Null),
                    model_preference_settings: member_or(
                        m,
                        "modelPreferenceSettings"@,
                        JsonModel::Null,
                    ),
                    output_style_settings: member_or(m, "outputStyleSettings"@, JsonModel::Null),
                    persona_overrides: text_members(overrides->Object_0),
                },
            )
        } else {
            None
        }
    }

    pub fn new(
        default_persona_id: &str,
        discord_settings: serde_json::Value,
        model_preference_settings: serde_json::Value,
        output_style_settings: serde_json::Value,
        persona_overrides: StringMap<String>,
    ) -> (r: Self)
        ensures
            r@ == (SettingsView {
                default_persona_id: default_persona_id@,
                discord_settings: json_model(discord_settings),
                model_preference_settings: json_model(model_preference_settings),
                output_style_settings: json_model(output_style_settings),
                persona_overrides: text_map(as_map(persona_overrides@)),
            }),
    {
        Self {
            default_persona_id: default_persona_id.to_owned(),
            discord_settings,
            model_preference_settings,
            output_style_settings,
            persona_overrides,
        }
    }

    /// The settings of an account that has chosen nothing.
    pub fn default() -> (r: Self)
        ensures
            r@ == SettingsView::blank(),
    {
        proof {
            reveal_strlit("");
        }
        assert(""@ =~= Seq::<char>::empty());
        let overrides: StringMap<String> = StringMap::new();
        assert(text_map(as_map(overrides@)) =~= Map::<Seq<char>, Seq<char>>::empty());
        Self::new("", value_null(), value_null(), value_null(), overrides)
    }

    /// Reads settings, or `None` where the document describes none.
    pub fn try_from_json(json: &serde_json::Value) -> (r: Option<Self>)
        ensures
            match r {
                Some(s) => Self::decode(json_model(*json)) == Some(s@),
                None => Self::decode(json_model(*json)) is None,
            },
    {
        let id = get_text_strict(json, "default_persona_id")?;
        let overrides = match value_get(json, "personaOverrides") {
            Some(o) => {
                let entries = value_entries(o)?;
                text_entries(&entries)
            },
            None => {
                let none: StringMap<String> = StringMap::new();
                assert(text_map(as_map(none@)) =~= text_members(
                    Map::<Seq<char>, JsonModel>::empty(),
                ));
                none
            },
        };
        Some(
            Self {
                default_persona_id: id,
                discord_settings: clone_or_null(value_get(json, "discordSettings")),
                model_preference_settings: clone_or_null(
                    value_get(json, "modelPreferenceSettings"),
                ),
                output_style_settings: clone_or_null(value_get(json, "outputStyleSettings")),
                persona_overrides: overrides,
            },
        )
    }

    /// Reads settings from a document that describes them.
    pub fn from_json(json: &serde_json::Value) -> (r: Self)
        requires
            Self::decode(json_model(*json)) is Some,
        ensures
            Self::decode(json_model(*json)) == Some(r@),
    {
        match Self::try_from_json(json) {
            Some(s) => s,
            None => Self::default(),
        }
    }

    /// The settings as a document.
    pub fn to_json(&self) -> (r: serde_json::Value)
        ensures
            json_model(r) == self@.document(),
    {
        let mut overrides = value_object();
        let n = self.persona_overrides.len();
        let mut i: usize = 0;
        let ghost all = self.persona_overrides@;
        assert(text_object(text_map(as_map(all.take(0)))) =~= JsonModel::Object(Map::empty())) by {
            assert(text_map(as_map(all.take(0))).map_values(|s: Seq<char>| JsonModel::Text(s))
                =~= Map::<Seq<char>, JsonModel>::empty());
        }
        while i < n
            invariant
                i <= n,
                n == all.len(),
                all == self.persona_overrides@,
                crate::string_map::distinct_keys(all),
                json_model(overrides) == text_object(text_map(as_map(all.take(i as int)))),
            decreases n - i,
        {
            let key = self.persona_overrides.key_at(i);
            let value = self.persona_overrides.value_at(i);
            proof {
                let front = all.take(i as int);
                let next = all.take(i + 1);
                crate::string_map::lemma_position(front, key@);
                let p = crate::string_map::position(front, key@);
                if p < front.len() {
                    assert(front[p] == all[p]);
                    assert(all[p].0 != all[i as int].0);
                }
                assert(next =~= crate::string_map::upsert(front, key@, *value));
                assert(crate::string_map::distinct_keys(front)) by {
                    assert forall|a: int, b: int| 0 <= a < b < front.len() implies (
                    #[trigger] front[a]).0 != (#[trigger] front[b]).0 by {
                        assert(front[a] == all[a] && front[b] == all[b]);
                    }
                }
                lemma_as_map_upsert(front, key@, *value);
                assert(text_map(as_map(next)).map_values(|s: Seq<char>| JsonModel::Text(s))
                    =~= text_map(as_map(front)).map_values(
                    |s: Seq<char>| JsonModel::Text(s),
                ).insert(key@, JsonModel::Text(value@)));
            }
            value_set(&mut overrides, key.as_str(), text_value(value.as_str()));
            i += 1;
        }
        assert(all.take(n as int) =~= all);
        let mut doc = value_object();
        value_set(&mut doc, "default_persona_id", text_value(self.default_persona_id.as_str()));
        value_set(&mut doc, "discordSettings", self.discord_settings.clone());
        value_set(&mut doc, "modelPreferenceSettings", self.model_preference_settings.clone());
        value_set(&mut doc, "outputStyleSettings", self.output_style_settings.clone());
        value_set(&mut doc, "personaOverrides", overrides);
        doc
    }
}

/// A copy of a member, or `null` where there is none.
pub fn clone_or_null(v: Option<&serde_json::Value>) -> (r: serde_json::Value)
    ensures
        json_model(r) == (match v {
            Some(x) => json_model(*x),
            None => JsonModel::Null,
        }),
{
    match v {
        Some(x) => x.clone(),
        None => value_null(),
    }
}

} // verus!
