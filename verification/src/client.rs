//! The client façade: a validated base address plus a credential, and the
//! preparation of each operation's request.  The network transport itself
//! is left to the caller, who hands the raw response back to the envelope
//! decoder.

use vstd::prelude::*;
use crate::json::{JsonValue, JsonModel, obj_entries_model, render_json, rendered_json};
use crate::error::{PostalError, ErrorModel};
use crate::message::{Message, RawMessage, MessageHash, message_json, raw_message_json};
use crate::interest::{DetailsInterest, interest_json};

verus! {

broadcast use
    crate::json::lemma_json_model_unfold,
    crate::json::lemma_obj_entries_model_len,
    crate::json::lemma_obj_entries_model_index,
;

#[verifier::external_type_specification]
#[verifier::external_body]
pub struct ExUrl(url::Url);

#[verifier::external_type_specification]
#[verifier::external_body]
pub struct ExUrlParseError(url::ParseError);

/// Whether the URL parser accepts a text as an absolute URL: acceptance is
/// a function of the text alone.
pub uninterp spec fn url_parse_ok(s: Seq<char>) -> bool;

/// Relies on `url::Url::parse`: it parses an absolute URL from a string, or
/// fails; the outcome depends on the string alone.
#[verifier::external_body]
fn parse_url(s: &str) -> (r: Result<url::Url, url::ParseError>)
    ensures
        r is Ok <==> url_parse_ok(s@),
{
    url::Url::parse(s)
}

/// Whether parsing a base text and joining a path reference onto the result
/// succeeds: the outcome is a function of the two texts alone.
pub uninterp spec fn url_join_ok(base: Seq<char>, path: Seq<char>) -> bool;

/// The text of the URL that parsing a base text and joining a path
/// reference onto the result yields, where that succeeds: a function of the
/// two texts alone.
pub uninterp spec fn url_join_text(base: Seq<char>, path: Seq<char>) -> Seq<char>;

/// Relies on `url::Url::parse` and `url::Url::join`: parsing an absolute
/// base and joining a reference onto it succeeds or fails, and yields which
/// URL, as a function of the two texts alone.
#[verifier::external_body]
fn parse_and_join(base: &str, path: &str) -> (r: Option<String>)
    ensures
        r is Some <==> url_join_ok(base@, path@),
        r matches Some(t) ==> t@ == url_join_text(base@, path@),
{
    match url::Url::parse(base) {
        Ok(u) => match u.join(path) {
            Ok(j) => Some(j.as_str().to_owned()),
            Err(_) => None,
        },
        Err(_) => None,
    }
}

/// One prepared operation: the resolved endpoint, the credential to attach
/// under the `X-Server-API-Key` header, and the JSON body to carry.
#[derive(Debug, Clone, PartialEq, Eq)]
pub struct PreparedRequest {
    /// The text of the resolved endpoint URL.
    pub url: String,
    /// The credential for the `X-Server-API-Key` header.
    pub token: String,
    /// The serialized JSON body.
    pub body: String,
}

/// Client holds a session's connection information: the service's base
/// address, validated at construction, and the credential sent with every
/// call.  It is immutable after construction.
#[derive(Debug, Clone)]
pub struct Client {
    address: String,
    token: String,
}

/// The mathematical model of a client: the base address text it was built
/// from, and the credential.
#[verifier::ext_equal]
pub struct ClientModel {
    pub address: Seq<char>,
    pub token: Seq<char>,
}

impl View for Client {
    type V = ClientModel;

    /// A client is abstracted by the base address text it was built from
    /// and by its credential.
    closed spec fn view(&self) -> ClientModel {
        ClientModel { address: self.address@, token: self.token@ }
    }
}

/// The body of a deliveries call: the message hash under `id`.
pub open spec fn deliveries_body_json(id: u64) -> JsonModel {
    JsonModel::Obj(seq![("id"@, JsonModel::UInt(id))])
}

impl Client {
    /// Builds a client from a base address and a credential, keeping both;
    /// fails with `InvalidAddress` exactly where the address does not parse
    /// as an absolute URL.
    pub fn new(address: &str, token: String) -> (r: Result<Client, PostalError>)
        ensures
            r is Ok <==> url_parse_ok(address@),
            r matches Ok(c) ==> c@ == (ClientModel { address: address@, token: token@ }),
            r matches Err(e) ==> e@ == ErrorModel::InvalidAddress,
    {
        match parse_url(address) {
            Ok(_) => Ok(Client { address: address.to_owned(), token }),
            Err(_) => Err(PostalError::InvalidAddress),
        }
    }

    /// Resolves one operation's endpoint against the base address and
    /// serializes its body.  It succeeds exactly where joining the path
    /// onto the base succeeds, yields that joined endpoint, and fails with
    /// `InvalidAddress` otherwise.
    fn prepare(&self, path: &str, body: &JsonValue) -> (r: Result<PreparedRequest, PostalError>)
        ensures
            r is Ok <==> url_join_ok(self@.address, path@),
            r matches Ok(p) ==> p.url@ == url_join_text(self@.address, path@) && p.token@
                == self@.token && p.body@ == rendered_json(body@),
            r matches Err(e) ==> e@ == ErrorModel::InvalidAddress,
    {
        match parse_and_join(self.address.as_str(), path) {
            Some(u) => Ok(
                PreparedRequest { url: u, token: self.token.clone(), body: render_json(body) },
            ),
            None => Err(PostalError::InvalidAddress),
        }
    }

    /// Prepares a send call: the serialized message, to be POSTed to the
    /// send path joined onto the base address.
    pub fn prepare_send(&self, message: &Message) -> (r: Result<PreparedRequest, PostalError>)
        ensures
            r is Ok <==> url_join_ok(self@.address, "/api/v1/send/message"@),
            r matches Ok(p) ==> p.url@ == url_join_text(self@.address, "/api/v1/send/message"@)
                && p.token@ == self@.token && p.body@ == rendered_json(message_json(message@)),
            r matches Err(e) ==> e@ == ErrorModel::InvalidAddress,
    {
        let body = message.to_json();
        self.prepare("/api/v1/send/message", &body)
    }

    /// Prepares a raw send call: the serialized raw message, to be POSTed
    /// to the raw send path joined onto the base address.
    pub fn prepare_send_raw(&self, message: &RawMessage) -> (r: Result<
        PreparedRequest,
        PostalError,
    >)
        ensures
            r is Ok <==> url_join_ok(self@.address, "/api/v1/send/raw"@),
            r matches Ok(p) ==> p.url@ == url_join_text(self@.address, "/api/v1/send/raw"@)
                && p.token@ == self@.token && p.body@ == rendered_json(
                raw_message_json(message@),
            ),
            r matches Err(e) ==> e@ == ErrorModel::InvalidAddress,
    {
        let body = message.to_json();
        self.prepare("/api/v1/send/raw", &body)
    }

    /// Prepares a details call: the rendered interest, to be POSTed to the
    /// message details path joined onto the base address.
    pub fn prepare_message_details(&self, interest: &DetailsInterest) -> (r: Result<
        PreparedRequest,
        PostalError,
    >)
        ensures
            r is Ok <==> url_join_ok(self@.address, "/api/v1/messages/message"@),
            r matches Ok(p) ==> p.url@ == url_join_text(
                self@.address,
                "/api/v1/messages/message"@,
            ) && p.token@ == self@.token && p.body@ == rendered_json(interest_json(interest@)),
            r matches Err(e) ==> e@ == ErrorModel::InvalidAddress,
    {
        let body = interest.to_json();
        self.prepare("/api/v1/messages/message", &body)
    }

    /// Prepares a deliveries call: the message hash under `id`, to be
    /// POSTed to the deliveries path joined onto the base address.
    pub fn prepare_message_deliveries(&self, id: MessageHash) -> (r: Result<
        PreparedRequest,
        PostalError,
    >)
        ensures
            r is Ok <==> url_join_ok(self@.address, "/api/v1/messages/deliveries"@),
            r matches Ok(p) ==> p.url@ == url_join_text(
                self@.address,
                "/api/v1/messages/deliveries"@,
            ) && p.token@ == self@.token && p.body@ == rendered_json(deliveries_body_json(id)),
            r matches Err(e) ==> e@ == ErrorModel::InvalidAddress,
    {
        let mut es: Vec<(String, JsonValue)> = Vec::new();
        es.push(("id".to_owned(), JsonValue::UInt(id)));
        let body = JsonValue::Obj(es);
        proof {
            assert(obj_entries_model(es@) =~= deliveries_body_json(id)->Obj_0);
        }
        self.prepare("/api/v1/messages/deliveries", &body)
    }
}

} // verus!
