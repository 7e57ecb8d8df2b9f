//! The envelope decoder: status triage, the tri-variant response envelope,
//! and the typed payloads of each operation.

use vstd::prelude::*;
use crate::json::{
    JsonValue,
    JsonModel,
    arr_model,
    obj_entries_model,
    obj_get,
    obj_has,
    obj_lookup,
    parse_json,
    parsed_json,
};
use crate::error::{PostalError, ErrorModel};
use crate::message::MessageHash;

verus! {

broadcast use
    crate::json::lemma_json_model_unfold,
    crate::json::lemma_arr_model_len,
    crate::json::lemma_arr_model_index,
    crate::json::lemma_obj_entries_model_len,
    crate::json::lemma_obj_entries_model_index,
;

/// SendResult represents one outcome of a send request.
#[derive(Debug, Clone, PartialEq, Eq)]
pub struct SendResult {
    /// The address an email was sent to.
    pub to: String,
    /// The message hash which can be used to retrieve the message's details
    /// and deliveries.
    pub id: MessageHash,
}

/// The mathematical model of a send result.
#[verifier::ext_equal]
pub struct SendResultModel {
    pub to: Seq<char>,
    pub id: u64,
}

impl View for SendResult {
    type V = SendResultModel;

    open spec fn view(&self) -> SendResultModel {
        SendResultModel { to: self.to@, id: self.id }
    }
}

/// The model of a list of send results.
pub open spec fn results_model(s: Seq<SendResult>) -> Seq<SendResultModel> {
    Seq::new(s.len(), |i: int| s[i]@)
}

/// ResponceError carries the code and message of a service-reported error.
#[derive(Debug, Clone, PartialEq, Eq)]
pub struct ResponceError {
    /// The machine-readable error code.
    pub code: String,
    /// The human-readable error message.
    pub message: String,
}

/// MessageDataTo is the per-recipient record of a send response.
#[derive(Debug, Clone, PartialEq, Eq)]
pub struct MessageDataTo {
    /// The hash assigned to the message for this recipient.
    pub id: u64,
    /// The token assigned to the message for this recipient.
    pub token: String,
}

/// The mathematical model of a per-recipient record.
#[verifier::ext_equal]
pub struct MessageDataToModel {
    pub id: u64,
    pub token: Seq<char>,
}

impl View for MessageDataTo {
    type V = MessageDataToModel;

    open spec fn view(&self) -> MessageDataToModel {
        MessageDataToModel { id: self.id, token: self.token@ }
    }
}

/// MessageSucessData is the typed payload of a send response: the message
/// identifier and one record per recipient.  The records stand in the order
/// the decoded object's entries stand in; the service promises no order, so
/// callers must not rely on it beyond one entry per recipient.
#[derive(Debug, Clone, PartialEq, Eq)]
pub struct MessageSucessData {
    /// The identifier the service assigned to the whole message.
    pub message_id: String,
    /// One record per recipient address.
    pub messages: Vec<(String, MessageDataTo)>,
}

/// The mathematical model of a send response payload.
#[verifier::ext_equal]
pub struct MessageSucessDataModel {
    pub message_id: Seq<char>,
    pub messages: Seq<(Seq<char>, MessageDataToModel)>,
}

impl View for MessageSucessData {
    type V = MessageSucessDataModel;

    open spec fn view(&self) -> MessageSucessDataModel {
        MessageSucessDataModel {
            message_id: self.message_id@,
            messages: Seq::new(
                self.messages@.len(),
                |i: int| (self.messages@[i].0@, self.messages@[i].1@),
            ),
        }
    }
}

/// Responce is the service's response envelope after the status tag has
/// been read: success with an untyped payload, the undocumented parameter
/// error, or a service-reported error.
#[derive(Debug)]
pub enum Responce {
    /// The call succeeded; the payload is handed on untyped.
    Success { data: JsonValue },
    /// The undocumented parameter-error shape.
    ParameterError,
    /// The service reported an error.
    Error { data: ResponceError },
}

/// The mathematical model of a response envelope.
#[verifier::ext_equal]
pub enum ResponceModel {
    Success { data: JsonModel },
    ParameterError,
    Error { code: Seq<char>, message: Seq<char> },
}

impl View for Responce {
    type V = ResponceModel;

    open spec fn view(&self) -> ResponceModel {
        match self {
            Responce::Success { data } => ResponceModel::Success { data: data@ },
            Responce::ParameterError => ResponceModel::ParameterError,
            Responce::Error { data } => ResponceModel::Error {
                code: data.code@,
                message: data.message@,
            },
        }
    }
}

/// The status triage, before any body parsing: 200 proceeds, the documented
/// failure statuses map to their errors, and any undocumented status is a
/// malformed response.
pub open spec fn status_outcome(sc: u16) -> Result<(), ErrorModel> {
    if sc == 200 {
        Ok(())
    } else if sc == 500 {
        Err(ErrorModel::InternalServerError)
    } else if sc == 301 || sc == 308 {
        Err(ErrorModel::ExpectedAlternativeUrl)
    } else if sc == 503 {
        Err(ErrorModel::ServiceUnavailable)
    } else {
        Err(ErrorModel::MalformedResponse)
    }
}

/// Triage of the HTTP status, performed before the body is even parsed.
pub fn check_status(sc: u16) -> (r: Result<(), PostalError>)
    ensures
        match r {
            Ok(u) => status_outcome(sc) is Ok,
            Err(e) => status_outcome(sc) == Err::<(), ErrorModel>(e@),
        },
{
    if sc == 200 {
        Ok(())
    } else if sc == 500 {
        Err(PostalError::InternalServerError)
    } else if sc == 301 || sc == 308 {
        Err(PostalError::ExpectedAlternativeUrl)
    } else if sc == 503 {
        Err(PostalError::ServiceUnavailable)
    } else {
        Err(PostalError::MalformedResponse)
    }
}

/// The envelope a JSON body denotes, if any: an object whose `status` is
/// `success` or `error` (each with `time`, `flags` and a well-shaped `data`)
/// or the undocumented `parameterError` shape.  Anything else is no
/// envelope at all.
pub open spec fn envelope_of(j: JsonModel) -> Option<ResponceModel> {
    match j {
        JsonModel::Obj(o) => match obj_get(o, "status"@) {
            Some(JsonModel::Str(s)) => if s == "success"@ {
                if obj_has(o, "time"@) && obj_has(o, "flags"@) && obj_get(o, "data"@) is Some {
                    Some(ResponceModel::Success { data: obj_get(o, "data"@)->0 })
                } else {
                    None
                }
            } else if s == "parameterError"@ {
                Some(ResponceModel::ParameterError)
            } else if s == "error"@ {
                if obj_has(o, "time"@) && obj_has(o, "flags"@) {
                    match obj_get(o, "data"@) {
                        Some(JsonModel::Obj(d)) => match (obj_get(d, "code"@), obj_get(
                            d,
                            "message"@,
                        )) {
                            (Some(JsonModel::Str(c)), Some(JsonModel::Str(m))) => Some(
                                ResponceModel::Error { code: c, message: m },
                            ),
                            _ => None,
                        },
                        _ => None,
                    }
                } else {
                    None
                }
            } else {
                None
            },
            _ => None,
        },
        _ => None,
    }
}

/// Reads the response envelope out of a parsed JSON body.
pub fn read_responce(v: &JsonValue) -> (r: Option<Responce>)
    ensures
        match r {
            Some(resp) => envelope_of(v@) == Some(resp@),
            None => envelope_of(v@) is None,
        },
{
    let o = match v {
        JsonValue::Obj(o) => o,
        _ => { return None },
    };
    let status = match obj_lookup(o, &"status".to_owned()) {
        Some(JsonValue::Str(s)) => s,
        _ => { return None },
    };
    if status.eq(&"success".to_owned()) {
        let has_time = obj_lookup(o, &"time".to_owned()).is_some();
        let has_flags = obj_lookup(o, &"flags".to_owned()).is_some();
        match obj_lookup(o, &"data".to_owned()) {
            Some(data) if has_time && has_flags => Some(
                Responce::Success { data: data.duplicate() },
            ),
            _ => None,
        }
    } else if status.eq(&"parameterError".to_owned()) {
        Some(Responce::ParameterError)
    } else if status.eq(&"error".to_owned()) {
        let has_time = obj_lookup(o, &"time".to_owned()).is_some();
        let has_flags = obj_lookup(o, &"flags".to_owned()).is_some();
        if !(has_time && has_flags) {
            return None;
        }
        let d = match obj_lookup(o, &"data".to_owned()) {
            Some(JsonValue::Obj(d)) => d,
            _ => { return None },
        };
        let code = match obj_lookup(d, &"code".to_owned()) {
            Some(JsonValue::Str(c)) => c.clone(),
            _ => { return None },
        };
        let message = match obj_lookup(d, &"message".to_owned()) {
            Some(JsonValue::Str(m)) => m.clone(),
            _ => { return None },
        };
        Some(Responce::Error { data: ResponceError { code, message } })
    } else {
        None
    }
}

/// What the decoder yields for each envelope shape: the payload on success,
/// the service's error, and a malformed response for the undocumented
/// parameter-error shape, which must fail loudly.
pub open spec fn responce_outcome(r: ResponceModel) -> Result<JsonModel, ErrorModel> {
    match r {
        ResponceModel::Success { data } => Ok(data),
        ResponceModel::Error { code, message } => Err(ErrorModel::ServiceError { code, message }),
        ResponceModel::ParameterError => Err(ErrorModel::MalformedResponse),
    }
}

/// Unwraps a response envelope to the success payload or a taxonomy error.
pub fn check_responce(r: Responce) -> (out: Result<JsonValue, PostalError>)
    ensures
        match out {
            Ok(d) => responce_outcome(r@) == Ok::<JsonModel, ErrorModel>(d@),
            Err(e) => responce_outcome(r@) == Err::<JsonModel, ErrorModel>(e@),
        },
{
    match r {
        Responce::Success { data } => Ok(data),
        Responce::Error { data } => Err(
            PostalError::ServiceError { code: data.code, message: data.message },
        ),
        Responce::ParameterError => Err(PostalError::MalformedResponse),
    }
}

/// The decode of one body text, given what the JSON codec reads out of it:
/// an unparsable body or one that is no envelope is a malformed response.
pub open spec fn body_outcome(parsed: Option<JsonModel>) -> Result<JsonModel, ErrorModel> {
    match parsed {
        None => Err(ErrorModel::MalformedResponse),
        Some(j) => match envelope_of(j) {
            None => Err(ErrorModel::MalformedResponse),
            Some(r) => responce_outcome(r),
        },
    }
}

/// The outcome of one raw response: the status is triaged first, and only
/// status 200 has its body parsed and decoded against the envelope.
pub open spec fn response_outcome(status: u16, body: Seq<char>) -> Result<JsonModel, ErrorModel> {
    match status_outcome(status) {
        Err(e) => Err(e),
        Ok(u) => body_outcome(parsed_json(body)),
    }
}

/// Decodes one raw response, handed over as the HTTP status and the body
/// text, into the success payload or a taxonomy error.
pub fn decode_response(status: u16, body: &str) -> (r: Result<JsonValue, PostalError>)
    ensures
        match r {
            Ok(d) => response_outcome(status, body@) == Ok::<JsonModel, ErrorModel>(d@),
            Err(e) => response_outcome(status, body@) == Err::<JsonModel, ErrorModel>(e@),
        },
{
    match check_status(status) {
        Ok(u) => (),
        Err(e) => { return Err(e) },
    }
    let parsed = match parse_json(body) {
        Some(v) => v,
        None => { return Err(PostalError::MalformedResponse) },
    };
    let resp = match read_responce(&parsed) {
        Some(r) => r,
        None => { return Err(PostalError::MalformedResponse) },
    };
    check_responce(resp)
}

/// Reads one per-recipient record out of a JSON value.
pub open spec fn data_to_of(j: JsonModel) -> Option<MessageDataToModel> {
    match j {
        JsonModel::Obj(d) => match (obj_get(d, "id"@), obj_get(d, "token"@)) {
            (Some(JsonModel::UInt(u)), Some(JsonModel::Str(t))) => Some(
                MessageDataToModel { id: u, token: t },
            ),
            _ => None,
        },
        _ => None,
    }
}

/// Reads a send response's payload out of a JSON value: the message
/// identifier under `message_id`, and under `messages` one well-shaped
/// record per recipient, kept in the order they stand in.
pub open spec fn success_data_of(j: JsonModel) -> Option<MessageSucessDataModel> {
    match j {
        JsonModel::Obj(o) => match (obj_get(o, "message_id"@), obj_get(o, "messages"@)) {
            (Some(JsonModel::Str(mid)), Some(JsonModel::Obj(msgs))) => if (forall|i: int|
                0 <= i < msgs.len() ==> data_to_of((#[trigger] msgs[i]).1) is Some) {
                Some(
                    MessageSucessDataModel {
                        message_id: mid,
                        messages: Seq::new(
                            msgs.len(),
                            |i: int| (msgs[i].0, data_to_of(msgs[i].1)->0),
                        ),
                    },
                )
            } else {
                None
            },
            _ => None,
        },
        _ => None,
    }
}

/// Reads one per-recipient record.
fn data_to_from_json(v: &JsonValue) -> (r: Option<MessageDataTo>)
    ensures
        match r {
            Some(d) => data_to_of(v@) == Some(d@),
            None => data_to_of(v@) is None,
        },
{
    let d = match v {
        JsonValue::Obj(d) => d,
        _ => { return None },
    };
    let id = match obj_lookup(d, &"id".to_owned()) {
        Some(JsonValue::UInt(u)) => *u,
        _ => { return None },
    };
    let token = match obj_lookup(d, &"token".to_owned()) {
        Some(JsonValue::Str(t)) => t.clone(),
        _ => { return None },
    };
    Some(MessageDataTo { id, token })
}

/// Reads a send response's typed payload out of its JSON form.
#[verifier::loop_isolation(false)]
pub fn message_success_data_from_json(v: &JsonValue) -> (r: Option<MessageSucessData>)
    ensures
        match r {
            Some(d) => success_data_of(v@) == Some(d@),
            None => success_data_of(v@) is None,
        },
{
    let o = match v {
        JsonValue::Obj(o) => o,
        _ => { return None },
    };
    let message_id = match obj_lookup(o, &"message_id".to_owned()) {
        Some(JsonValue::Str(s)) => s.clone(),
        _ => { return None },
    };
    let msgs = match obj_lookup(o, &"messages".to_owned()) {
        Some(JsonValue::Obj(entries)) => entries,
        _ => { return None },
    };
    let ghost mm = obj_entries_model(msgs@);
    let mut out: Vec<(String, MessageDataTo)> = Vec::new();
    let mut i: usize = 0;
    while i < msgs.len()
        invariant
            0 <= i <= msgs.len(),
            mm == obj_entries_model(msgs@),
            out@.len() == i,
            forall|j: int|
                0 <= j < i ==> data_to_of((#[trigger] mm[j]).1) == Some(out@[j].1@) && out@[j].0@
                    == mm[j].0,
        decreases msgs.len() - i,
    {
        let rec = match data_to_from_json(&msgs[i].1) {
            Some(rec) => rec,
            None => {
                proof {
                    assert(data_to_of(mm[i as int].1) is None);
                }
                return None;
            },
        };
        proof {
            assert(data_to_of(mm[i as int].1) == Some(rec@));
        }
        let entry = (msgs[i].0.clone(), rec);
        out.push(entry);
        i = i + 1;
    }
    let d = MessageSucessData { message_id, messages: out };
    proof {
        assert(d@.messages =~= Seq::new(mm.len(), |i: int| (mm[i].0, data_to_of(mm[i].1)->0)));
        assert(success_data_of(v@) == Some(d@));
    }
    Some(d)
}

/// The send results a payload denotes: one per recipient record, in order.
pub open spec fn send_results_of(j: JsonModel) -> Option<Seq<SendResultModel>> {
    match success_data_of(j) {
        Some(d) => Some(
            Seq::new(
                d.messages.len(),
                |i: int| SendResultModel { to: d.messages[i].0, id: d.messages[i].1.id },
            ),
        ),
        None => None,
    }
}

/// The outcome of a send call: the response decoded against the envelope,
/// and its payload flattened to one result per recipient.
pub open spec fn send_outcome(status: u16, body: Seq<char>) -> Result<
    Seq<SendResultModel>,
    ErrorModel,
> {
    match response_outcome(status, body) {
        Err(e) => Err(e),
        Ok(data) => match send_results_of(data) {
            Some(rs) => Ok(rs),
            None => Err(ErrorModel::MalformedResponse),
        },
    }
}

/// Decodes a send call's raw response into one result per recipient; a
/// payload that does not carry the documented per-recipient records is a
/// malformed response.
pub fn handle_send(status: u16, body: &str) -> (r: Result<Vec<SendResult>, PostalError>)
    ensures
        match r {
            Ok(v) => send_outcome(status, body@) == Ok::<Seq<SendResultModel>, ErrorModel>(
                results_model(v@),
            ),
            Err(e) => send_outcome(status, body@) == Err::<Seq<SendResultModel>, ErrorModel>(e@),
        },
{
    let data = match decode_response(status, body) {
        Ok(d) => d,
        Err(e) => { return Err(e) },
    };
    let sd = match message_success_data_from_json(&data) {
        Some(d) => d,
        None => { return Err(PostalError::MalformedResponse) },
    };
    let ghost dm = sd@;
    let mut out: Vec<SendResult> = Vec::new();
    let mut i: usize = 0;
    while i < sd.messages.len()
        invariant
            0 <= i <= sd.messages.len(),
            dm == sd@,
            sd@.messages.len() == sd.messages@.len(),
            out@.len() == i,
            forall|j: int|
                0 <= j < i ==> (#[trigger] out@[j])@ == (SendResultModel {
                    to: dm.messages[j].0,
                    id: dm.messages[j].1.id,
                }),
        decreases sd.messages.len() - i,
    {
        let to = sd.messages[i].0.clone();
        let id = sd.messages[i].1.id;
        out.push(SendResult { to, id });
        i = i + 1;
    }
    proof {
        assert(results_model(out@) =~= Seq::new(
            dm.messages.len(),
            |i: int| SendResultModel { to: dm.messages[i].0, id: dm.messages[i].1.id },
        ));
    }
    Ok(out)
}

/// A documented failure status decides the outcome alone: whatever the
/// body holds, status 503 yields the unavailable error, 500 the internal
/// error, and 301 or 308 the alternative-URL error.
pub proof fn lemma_status_overrides_body(body: Seq<char>)
    ensures
        send_outcome(503, body) == Err::<Seq<SendResultModel>, ErrorModel>(
            ErrorModel::ServiceUnavailable,
        ),
        send_outcome(500, body) == Err::<Seq<SendResultModel>, ErrorModel>(
            ErrorModel::InternalServerError,
        ),
        send_outcome(301, body) == Err::<Seq<SendResultModel>, ErrorModel>(
            ErrorModel::ExpectedAlternativeUrl,
        ),
        send_outcome(308, body) == Err::<Seq<SendResultModel>, ErrorModel>(
            ErrorModel::ExpectedAlternativeUrl,
        ),
        response_outcome(503, body) == Err::<JsonModel, ErrorModel>(
            ErrorModel::ServiceUnavailable,
        ),
        response_outcome(500, body) == Err::<JsonModel, ErrorModel>(
            ErrorModel::InternalServerError,
        ),
{
}

/// The outcome of a details call: the decoded payload must be one object,
/// handed to the caller as its entries.
pub open spec fn details_outcome(status: u16, body: Seq<char>) -> Result<
    Seq<(Seq<char>, JsonModel)>,
    ErrorModel,
> {
    match response_outcome(status, body) {
        Err(e) => Err(e),
        Ok(data) => match data {
            JsonModel::Obj(o) => Ok(o),
            _ => Err(ErrorModel::MalformedResponse),
        },
    }
}

/// Decodes a details call's raw response into the payload object's entries;
/// a payload that is not an object is a malformed response.
pub fn handle_message_details(status: u16, body: &str) -> (r: Result<
    Vec<(String, JsonValue)>,
    PostalError,
>)
    ensures
        match r {
            Ok(o) => details_outcome(status, body@) == Ok::<
                Seq<(Seq<char>, JsonModel)>,
                ErrorModel,
            >(obj_entries_model(o@)),
            Err(e) => details_outcome(status, body@) == Err::<
                Seq<(Seq<char>, JsonModel)>,
                ErrorModel,
            >(e@),
        },
{
    let data = match decode_response(status, body) {
        Ok(d) => d,
        Err(e) => { return Err(e) },
    };
    match data {
        JsonValue::Obj(o) => Ok(o),
        _ => Err(PostalError::MalformedResponse),
    }
}

/// The model of a list of decoded delivery records.
pub open spec fn deliveries_model(s: Seq<Vec<(String, JsonValue)>>) -> Seq<
    Seq<(Seq<char>, JsonModel)>,
> {
    Seq::new(s.len(), |i: int| obj_entries_model(s[i]@))
}

/// The outcome of a deliveries call: the decoded payload must be one array
/// of objects, handed to the caller as each object's entries, in order.
pub open spec fn deliveries_outcome(status: u16, body: Seq<char>) -> Result<
    Seq<Seq<(Seq<char>, JsonModel)>>,
    ErrorModel,
> {
    match response_outcome(status, body) {
        Err(e) => Err(e),
        Ok(data) => match data {
            JsonModel::Arr(a) => if (forall|i: int| 0 <= i < a.len() ==> (#[trigger] a[i]) is Obj) {
                Ok(Seq::new(a.len(), |i: int| a[i]->Obj_0))
            } else {
                Err(ErrorModel::MalformedResponse)
            },
            _ => Err(ErrorModel::MalformedResponse),
        },
    }
}

/// Decodes a deliveries call's raw response into one record per delivery; a
/// payload that is not an array of objects is a malformed response.
#[verifier::loop_isolation(false)]
pub fn handle_message_deliveries(status: u16, body: &str) -> (r: Result<
    Vec<Vec<(String, JsonValue)>>,
    PostalError,
>)
    ensures
        match r {
            Ok(l) => deliveries_outcome(status, body@) == Ok::<
                Seq<Seq<(Seq<char>, JsonModel)>>,
                ErrorModel,
            >(deliveries_model(l@)),
            Err(e) => deliveries_outcome(status, body@) == Err::<
                Seq<Seq<(Seq<char>, JsonModel)>>,
                ErrorModel,
            >(e@),
        },
{
    let data = match decode_response(status, body) {
        Ok(d) => d,
        Err(e) => { return Err(e) },
    };
    let a = match &data {
        JsonValue::Arr(a) => a,
        _ => { return Err(PostalError::MalformedResponse) },
    };
    let ghost am = arr_model(a@);
    let mut out: Vec<Vec<(String, JsonValue)>> = Vec::new();
    let mut i: usize = 0;
    while i < a.len()
        invariant
            0 <= i <= a.len(),
            out@.len() == i,
            forall|j: int|
                0 <= j < i ==> (#[trigger] am[j]) is Obj && obj_entries_model(out@[j]@)
                    == am[j]->Obj_0,
        decreases a.len() - i,
    {
        let dup = a[i].duplicate();
        match dup {
            JsonValue::Obj(o) => {
                proof {
                    assert(am[i as int] is Obj && obj_entries_model(o@) == am[i as int]->Obj_0);
                }
                out.push(o);
            },
            _ => {
                proof {
                    assert(!(am[i as int] is Obj));
                }
                return Err(PostalError::MalformedResponse);
            },
        }
        i = i + 1;
    }
    proof {
        assert(deliveries_model(out@) =~= Seq::new(am.len(), |i: int| am[i]->Obj_0));
    }
    Ok(out)
}

} // verus!
