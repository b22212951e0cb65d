//! The client: the credential, the account it acts for, and the requester
//! of its calls.

use vstd::prelude::*;
use vstd::string::StringExecFns;
use crate::connection::ConnectionState;
use crate::gate::GateState;
use crate::methods::account::AccountMethods;
use crate::methods::character::CharacterMethods;
use crate::methods::chat::ChatMethods;
use crate::methods::user::UserMethods;
use crate::methods::utils::UtilsMethods;
use crate::requester::{Requester, RequesterError};
use crate::string_map::{lemma_text_entries_upsert, text_entries, StringMap};
use crate::text::opt_view;
use crate::types::user::{Account, AccountView};

verus! {

/// The headers of a call made with a credential: the credential as a
/// token, and the announcement of a JSON body.
pub open spec fn headers_for(token: Seq<char>) -> Seq<(Seq<char>, Seq<char>)> {
    seq![
        ("authorization"@, "Token "@ + token),
        ("Content-Type"@, "application/json"@),
    ]
}

/// The credential of a call: the one given for it, else the one stored.
pub open spec fn credential(given: Option<Seq<char>>, stored: Option<Seq<char>>) -> Option<
    Seq<char>,
> {
    match given {
        Some(t) => Some(t),
        None => stored,
    }
}

/// A client of the service.
#[derive(Debug)]
pub struct AsyncClient {
    token: Option<String>,
    requester: Requester,
    data: Account,
}

impl AsyncClient {
    /// The stored credential.
    pub closed spec fn stored_token(&self) -> Option<Seq<char>> {
        opt_view(self.token)
    }

    /// The account that the client acts for.
    pub closed spec fn account_view(&self) -> AccountView {
        self.data@
    }

    /// The requester of the client's calls.
    pub closed spec fn requester_view(&self) -> Requester {
        self.requester
    }

    /// A client with a credential, or without one. It acts for the blank
    /// account until its profile is fetched, and has not dialled.
    pub fn new(token: Option<String>) -> (r: Self)
        ensures
            r.stored_token() == opt_view(token),
            r.account_view() == AccountView::blank(),
            r.requester_view().connection() == ConnectionState::Disconnected,
            r.requester_view().gate() == GateState::start(),
    {
        AsyncClient { token, requester: Requester::new(), data: Account::default() }
    }

    /// Takes the outcome of fetching the profile: a fetched account is the
    /// one that the client acts for from now on.
    pub fn profile_fetched(&mut self, fetched: Result<Account, RequesterError>)
        ensures
            final(self).stored_token() == old(self).stored_token(),
            final(self).requester_view() == old(self).requester_view(),
            final(self).account_view() == (match fetched {
                Ok(account) => account@,
                Err(_) => old(self).account_view(),
            }),
    {
        match fetched {
            Ok(account) => {
                self.data = account;
            },
            Err(_) => {},
        }
    }

    /// Whether a credential is stored.
    pub fn has_token(&self) -> (r: bool)
        ensures
            r == self.stored_token() is Some,
    {
        self.token.is_some()
    }

    /// The stored credential.
    pub fn token(&self) -> (r: String)
        requires
            self.stored_token() is Some,
        ensures
            Some(r@) == self.stored_token(),
    {
        match &self.token {
            Some(t) => t.clone(),
            None => String::new(),
        }
    }

    /// The account that the client acts for.
    pub fn data(&self) -> (r: Account)
        ensures
            r@ == self.account_view(),
    {
        self.data.snapshot()
    }

    /// The calls about the client's own account.
    pub fn account(&self) -> (r: AccountMethods) {
        AccountMethods::new()
    }

    /// The calls about other users.
    pub fn user(&self) -> (r: UserMethods) {
        UserMethods::new()
    }

    /// The calls about conversations.
    pub fn chat(&self) -> (r: ChatMethods) {
        ChatMethods::new()
    }

    /// The calls about characters.
    pub fn character(&self) -> (r: CharacterMethods) {
        CharacterMethods::new()
    }

    /// The calls about voices, pictures and speech.
    pub fn utils(&self) -> (r: UtilsMethods) {
        UtilsMethods::new()
    }

    /// Stores a credential.
    pub fn set_token(&mut self, token: &str)
        ensures
            final(self).stored_token() == Some(token@),
            final(self).account_view() == old(self).account_view(),
            final(self).requester_view() == old(self).requester_view(),
    {
        self.token = Some(token.to_owned());
    }

    /// Sets the account that the client acts for.
    pub fn set_data(&mut self, account: Account)
        ensures
            final(self).account_view() == account@,
            final(self).stored_token() == old(self).stored_token(),
            final(self).requester_view() == old(self).requester_view(),
    {
        self.data = account;
    }

    /// The headers of a call, or `None` where there is no credential for
    /// it: none is given and none is stored.
    pub fn try_get_headers(&self, token: Option<String>) -> (r: Option<StringMap<String>>)
        ensures
            match r {
                Some(h) => credential(opt_view(token), self.stored_token()) is Some
                    && text_entries(h@) == headers_for(
                    credential(opt_view(token), self.stored_token())->Some_0,
                ),
                None => credential(opt_view(token), self.stored_token()) is None,
            },
    {
        let chosen = match &token {
            Some(t) => t.as_str(),
            None => match &self.token {
                Some(t) => t.as_str(),
                None => {
                    return None;
                },
            },
        };
        let mut headers: StringMap<String> = StringMap::new();
        let authorization = "Token ".to_owned().concat(chosen);
        let kind = "application/json".to_owned();
        proof {
            reveal_strlit("authorization");
            reveal_strlit("Content-Type");
            assert("authorization"@.len() == 13 && "Content-Type"@.len() == 12);
            assert(text_entries(Seq::<(Seq<char>, String)>::empty()) =~= Seq::<
                (Seq<char>, Seq<char>),
            >::empty());
            let first = crate::string_map::upsert(
                Seq::<(Seq<char>, String)>::empty(),
                "authorization"@,
                authorization,
            );
            lemma_text_entries_upsert(
                Seq::<(Seq<char>, String)>::empty(),
                "authorization"@,
                authorization,
            );
            lemma_text_entries_upsert(first, "Content-Type"@, kind);
            let one = seq![("authorization"@, authorization@)];
            assert(crate::string_map::position(
                Seq::<(Seq<char>, Seq<char>)>::empty(),
                "authorization"@,
            ) == 0);
            assert(text_entries(first) =~= one);
            assert(one.drop_first() =~= Seq::<(Seq<char>, Seq<char>)>::empty());
            assert(crate::string_map::position(one.drop_first(), "Content-Type"@) == 0);
            assert(crate::string_map::position(one, "Content-Type"@) == 1);
            assert(crate::string_map::upsert(one, "Content-Type"@, kind@) =~= headers_for(
                chosen@,
            ));
        }
        headers.insert("authorization".to_owned(), authorization);
        headers.insert("Content-Type".to_owned(), kind);
        Some(headers)
    }

    /// The headers of a call, made with the credential given for it or
    /// else with the stored one.
    pub fn get_headers(&self, token: Option<String>) -> (r: StringMap<String>)
        requires
            token is Some || self.stored_token() is Some,
        ensures
            text_entries(r@) == headers_for(
                credential(opt_view(token), self.stored_token())->Some_0,
            ),
    {
        match self.try_get_headers(token) {
            Some(h) => h,
            None => StringMap::new(),
        }
    }

    /// The requester of the client's calls.
    pub fn get_requester(&self) -> (r: &Requester)
        ensures
            *r == self.requester_view(),
    {
        &self.requester
    }

    /// The requester of the client's calls, to drive it.
    pub fn requester_mut(&mut self) -> (r: &mut Requester)
        ensures
            *r == old(self).requester_view(),
            final(self).requester_view() == *final(r),
            final(self).stored_token() == old(self).stored_token(),
            final(self).account_view() == old(self).account_view(),
    {
        &mut self.requester
    }

    /// Ends the session: the held connection is closed. The answer says
    /// whether there is a transport to tear down.
    pub fn close_session(&mut self) -> (r: bool)
        ensures
            final(self).requester_view().connection() == ConnectionState::Closed,
            final(self).requester_view().gate() == old(self).requester_view().gate(),
            r == (old(self).requester_view().connection() == ConnectionState::Connected),
            final(self).stored_token() == old(self).stored_token(),
            final(self).account_view() == old(self).account_view(),
    {
        self.requester.ws_close()
    }
}

} // verus!
