//! Who uses the companion, and how it finds out.
use vstd::prelude::*;
use vstd::string::StringExecFns;
use crate::json::{
    Json, insert_member, json_of, new_members, no_members, object_value, text_value, value_at,
};
use crate::link::DeepLink;
use crate::text::{is_empty, text_or_empty, text_view};

verus! {

/// The user of the companion, and the organisation they work for.
#[derive(Clone, Debug)]
pub struct AuthInfo {
    pub user_id: String,
    pub org_id: String,
}

/// The user of the companion, and the organisation they work for.
#[verifier::ext_equal]
pub struct AuthView {
    pub user_id: Seq<char>,
    pub org_id: Seq<char>,
}

impl View for AuthInfo {
    type V = AuthView;

    open spec fn view(&self) -> AuthView {
        AuthView { user_id: self.user_id@, org_id: self.org_id@ }
    }
}

/// The address of the web app: the one that the environment sets, or else the
/// address in production.
pub fn web_app_url(overridden: Option<String>) -> (address: String)
    ensures
        address@ == (match text_view(overridden) {
            Some(set) => set,
            None => "https://app.brainsales.tech"@,
        }),
{
    match overridden {
        Some(set) => set,
        None => "https://app.brainsales.tech".to_owned(),
    }
}

/// Where a nonce is exchanged.
pub fn exchange_url(web_app: &str) -> (address: String)
    ensures
        address@ == web_app@ + "/api/auth/companion-nonce/exchange"@,
{
    let mut address = web_app.to_owned();
    address.append("/api/auth/companion-nonce/exchange");
    address
}

/// What is sent to exchange a nonce.
pub fn exchange_request(nonce: &str) -> (body: serde_json::Value)
    ensures
        json_of(body) == Json::Object(no_members().insert("nonce"@, Json::Text(nonce@))),
{
    let mut members = new_members();
    insert_member(&mut members, "nonce", text_value(nonce));
    object_value(members)
}

/// Whether an HTTP status stands for success.
pub fn is_success(status: u16) -> (success: bool)
    ensures
        success == (200 <= status < 300),
{
    200 <= status && status < 300
}

/// How the exchange of a nonce went.
pub enum ExchangeReply {
    /// The request failed, with this message.
    Unsent(String),
    /// The web app answered with a status that is no success, shown like this.
    Refused(String),
    /// The answer was no JSON document; this is the message.
    Unreadable(String),
    /// The web app answered this.
    Body(serde_json::Value),
}

/// What an answer of the web app says about the user. What it leaves out is empty.
pub open spec fn auth_of(json: Json) -> AuthView {
    AuthView {
        user_id: text_or_empty(json.at("userId"@).text()),
        org_id: text_or_empty(json.at("orgId"@).text()),
    }
}

fn text_at(json: &serde_json::Value, key: &str) -> (text: String)
    ensures
        text@ == text_or_empty(json_of(*json).at(key@).text()),
{
    match value_at(json, key).as_str() {
        Some(text) => text.to_owned(),
        None => String::new(),
    }
}

/// Reads who the user is from how the exchange went.
pub fn read_exchange(reply: ExchangeReply) -> (exchanged: Result<AuthInfo, String>)
    ensures
        match (reply, exchanged) {
            (ExchangeReply::Unsent(message), Err(error)) => error@ == message@,
            (ExchangeReply::Refused(status), Err(error)) => error@ == "Exchange failed: "@ + status@,
            (ExchangeReply::Unreadable(message), Err(error)) => error@ == message@,
            (ExchangeReply::Body(json), Ok(auth)) => auth@ == auth_of(json_of(json)),
            _ => false,
        },
{
    match reply {
        ExchangeReply::Unsent(message) => Err(message),
        ExchangeReply::Refused(status) => {
            let mut error = "Exchange failed: ".to_owned();
            error.append(status.as_str());
            Err(error)
        },
        ExchangeReply::Unreadable(message) => Err(message),
        ExchangeReply::Body(json) => Ok(
            AuthInfo { user_id: text_at(&json, "userId"), org_id: text_at(&json, "orgId") },
        ),
    }
}

/// Who uses the companion, or why that is not known.
pub enum AuthOutcome {
    Known(AuthInfo),
    Unknown(String),
}

/// Decides who uses the companion. Where the exchange failed, a deep link that
/// names both the user and the organisation is taken at its word.
pub fn settle(exchanged: Result<AuthInfo, String>, link: DeepLink) -> (outcome: AuthOutcome)
    ensures
        match exchanged {
            Ok(auth) => outcome == AuthOutcome::Known(auth),
            Err(error) => if link.user_id@.len() > 0 && link.org_id@.len() > 0 {
                outcome matches AuthOutcome::Known(auth) && auth.user_id == link.user_id
                    && auth.org_id == link.org_id
            } else {
                outcome == AuthOutcome::Unknown(error)
            },
        },
{
    match exchanged {
        Ok(auth) => AuthOutcome::Known(auth),
        Err(error) => if !is_empty(&link.user_id) && !is_empty(&link.org_id) {
            AuthOutcome::Known(AuthInfo { user_id: link.user_id, org_id: link.org_id })
        } else {
            AuthOutcome::Unknown(error)
        },
    }
}

/// The environment overrides the address of the web app, and without it the address is
/// the one in production.
pub proof fn law_the_web_app_can_be_moved(overridden: Option<String>, address: String)
    requires
        call_ensures(web_app_url, (overridden,), address),
    ensures
        overridden matches Some(set) ==> address@ == set@,
        overridden is None ==> address@ == "https://app.brainsales.tech"@,
{
}

/// A nonce is exchanged at a fixed path of the web app, and is sent as it is under its
/// own name and with nothing else.
pub proof fn law_nonces_are_sent_as_they_are(
    web_app: &str,
    nonce: &str,
    address: String,
    body: serde_json::Value,
)
    requires
        call_ensures(exchange_url, (web_app,), address),
        call_ensures(exchange_request, (nonce,), body),
    ensures
        address@ == web_app@ + "/api/auth/companion-nonce/exchange"@,
        json_of(body) matches Json::Object(members) && {
            &&& members.dom() == set!["nonce"@]
            &&& members["nonce"@] == Json::Text(nonce@)
        },
{
    match json_of(body) {
        Json::Object(members) => {
            assert(members.dom() =~= set!["nonce"@]);
        },
        _ => {},
    }
}

/// Success is a status in the two hundreds.
pub proof fn law_success_is_in_the_two_hundreds(status: u16, success: bool)
    requires
        call_ensures(is_success, (status,), success),
    ensures
        success <==> status / 100 == 2,
{
}

/// The user is who the answer says under "userId", and the organisation what it says
/// under "orgId". What does not stand there as a text is empty.
pub proof fn law_answers_name_the_user(json: Json, id: Seq<char>)
    ensures
        (json matches Json::Object(members) && members.dom().contains("userId"@)
            && members["userId"@] == Json::Text(id)) ==> auth_of(json).user_id == id,
        (json matches Json::Object(members) && members.dom().contains("orgId"@) && members["orgId"@]
            == Json::Text(id)) ==> auth_of(json).org_id == id,
        json.at("userId"@) !is Text ==> auth_of(json).user_id.len() == 0,
        json.at("orgId"@) !is Text ==> auth_of(json).org_id.len() == 0,
{
}

/// An exchange succeeds exactly where the web app answered with a document, and names the
/// user that the document names. Otherwise it tells what went wrong.
pub proof fn law_exchanges_are_read(reply: ExchangeReply, exchanged: Result<AuthInfo, String>)
    requires
        call_ensures(read_exchange, (reply,), exchanged),
    ensures
        exchanged is Ok <==> reply is Body,
        reply matches ExchangeReply::Body(json) ==> exchanged matches Ok(auth) && {
            &&& auth.user_id@ == auth_of(json_of(json)).user_id
            &&& auth.org_id@ == auth_of(json_of(json)).org_id
        },
        reply matches ExchangeReply::Unsent(message) ==> exchanged matches Err(error) && error@
            == message@,
        reply matches ExchangeReply::Unreadable(message) ==> exchanged matches Err(error) && error@
            == message@,
        reply matches ExchangeReply::Refused(status) ==> exchanged matches Err(error) && error@
            == "Exchange failed: "@ + status@,
{
}

/// The exchange decides who uses the companion. Only where it failed does the deep link
/// stand in, and only where it names both the user and the organisation.
pub proof fn law_the_exchange_decides(
    exchanged: Result<AuthInfo, String>,
    link: DeepLink,
    outcome: AuthOutcome,
)
    requires
        call_ensures(settle, (exchanged, link), outcome),
    ensures
        exchanged matches Ok(auth) ==> outcome == AuthOutcome::Known(auth),
        exchanged is Err && link.user_id@.len() > 0 && link.org_id@.len() > 0 ==> (
        outcome matches AuthOutcome::Known(auth) && {
            &&& auth.user_id@ == link.user_id@
            &&& auth.org_id@ == link.org_id@
        }),
        link.user_id@.len() == 0 || link.org_id@.len() == 0 ==> (exchanged matches Err(error)
            ==> outcome == AuthOutcome::Unknown(error)),
{
}

} // verus!
