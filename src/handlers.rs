use crate::model::{is_placeholder_user, Message, User};
use crate::token_store::TokenStore;
use crate::upstream::{error_text, UpstreamError};
use vstd::prelude::*;
use vstd::string::*;

verus! {

/// What an endpoint does first: answer at once, or call upstream with the token.
pub enum Plan<T> {
    Reply(T),
    Call(String),
}

/// `p` calls upstream with exactly `token`.
pub open spec fn calls_with<T>(p: Plan<T>, token: Seq<char>) -> bool {
    match p {
        Plan::Call(t) => t@ == token,
        Plan::Reply(_) => false,
    }
}

/// With no token a listing endpoint answers with an empty list; with one, it calls upstream.
pub fn plan_list<T>(store: &TokenStore) -> (r: Plan<Vec<T>>)
    ensures
        store@ is None ==> (r matches Plan::Reply(v) && v@.len() == 0),
        store@ matches Some(t) ==> calls_with(r, t),
{
    match store.get() {
        Some(token) => Plan::Call(token),
        None => Plan::Reply(Vec::new()),
    }
}

/// With no token the profile endpoint answers with the placeholder user.
pub fn plan_user(store: &TokenStore) -> (r: Plan<User>)
    ensures
        store@ is None ==> (r matches Plan::Reply(u) && is_placeholder_user(u)),
        store@ matches Some(t) ==> calls_with(r, t),
{
    match store.get() {
        Some(token) => Plan::Call(token),
        None => Plan::Reply(User::placeholder()),
    }
}

/// The answer of the send endpoint when no token is held.
pub open spec fn not_authenticated() -> Seq<char> {
    "Not authenticated"@
}

/// With no token the send endpoint answers "Not authenticated".
pub fn plan_send(store: &TokenStore) -> (r: Plan<String>)
    ensures
        store@ is None ==> (r matches Plan::Reply(s) && s@ == not_authenticated()),
        store@ matches Some(t) ==> calls_with(r, t),
{
    match store.get() {
        Some(token) => Plan::Call(token),
        None => Plan::Reply(String::from_str("Not authenticated")),
    }
}

/// A listing endpoint answers with what upstream listed, or with an empty list
/// when the call failed.
pub fn list_reply<T>(outcome: Result<Vec<T>, UpstreamError>) -> (r: Vec<T>)
    ensures
        outcome matches Ok(v) ==> r == v,
        outcome is Err ==> r@.len() == 0,
{
    match outcome {
        Ok(v) => v,
        Err(_) => Vec::new(),
    }
}

/// The profile endpoint answers with the user, or with the placeholder user
/// when the call failed.
pub fn user_reply(outcome: Result<User, UpstreamError>) -> (r: User)
    ensures
        outcome matches Ok(u) ==> r == u,
        outcome is Err ==> is_placeholder_user(r),
{
    match outcome {
        Ok(u) => u,
        Err(_) => User::placeholder(),
    }
}

/// The send endpoint's answer once upstream has been called.
pub open spec fn send_answer(outcome: Result<Message, UpstreamError>) -> Seq<char> {
    match outcome {
        Ok(_) => "Message sent successfully"@,
        Err(e) => "Error sending message: "@ + error_text(e),
    }
}

/// The send endpoint answers with a confirmation, or with the failure's text.
pub fn send_reply(outcome: Result<Message, UpstreamError>) -> (r: String)
    ensures
        r@ == send_answer(outcome),
{
    match outcome {
        Ok(_) => String::from_str("Message sent successfully"),
        Err(e) => {
            let mut out = String::from_str("Error sending message: ");
            let detail = e.describe();
            out.append(detail.as_str());
            out
        },
    }
}

/// Where the browser is sent once the token has been captured.
pub open spec fn login_success_address() -> Seq<char> {
    "http://localhost:3000/login_success.html"@
}

/// Takes the token of a finished sign-in: it replaces whatever token was held,
/// and the browser is sent on to the confirmation page.
pub fn callback(store: &mut TokenStore, access_token: String) -> (r: &'static str)
    ensures
        final(store)@ == Some(access_token@),
        r@ == login_success_address(),
{
    store.set(access_token);
    "http://localhost:3000/login_success.html"
}

} // verus!
