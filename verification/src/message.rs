//! Outbound messages: the fluent `Message` builder, the pre-formatted
//! `RawMessage`, and their JSON wire form.

use vstd::prelude::*;
use crate::json::{JsonValue, JsonModel, arr_model, json_model, obj_entries_model, obj_get, obj_has, obj_lookup};

verus! {

broadcast use
    crate::json::lemma_json_model_unfold,
    crate::json::lemma_arr_model_len,
    crate::json::lemma_arr_model_index,
    crate::json::lemma_obj_entries_model_len,
    crate::json::lemma_obj_entries_model_index,
;

/// MessageHash is an opaque unsigned 64-bit identifier the service assigns
/// to a sent message and expects back for detail and delivery lookups.
pub type MessageHash = u64;

/// Message represents an email which can be sent.
///
/// Every field is absent by default; an absent field is omitted from the
/// wire payload.  Nothing is validated locally: the service itself rejects
/// what it does not accept.
#[derive(Debug, Clone, PartialEq, Eq)]
pub struct Message {
    /// The e-mail addresses of the recipients (the service caps them at 50).
    pub to: Option<Vec<String>>,
    /// The e-mail addresses of any CC contacts (the service caps them at 50).
    pub cc: Option<Vec<String>>,
    /// The e-mail addresses of any BCC contacts (the service caps them at 50).
    pub bcc: Option<Vec<String>>,
    /// The e-mail address for the From header.
    pub from: Option<String>,
    /// The e-mail address for the Sender header.
    pub sender: Option<String>,
    /// The subject of the e-mail.
    pub subject: Option<String>,
    /// The tag of the e-mail.
    pub tag: Option<String>,
    /// The reply-to address for the mail.
    pub reply_to: Option<String>,
    /// The plain text body of the e-mail.
    pub plain_body: Option<String>,
    /// The HTML body of the e-mail.
    pub html_body: Option<String>,
    /// Binary attachments for this e-mail.
    pub attachments: Option<Vec<Vec<u8>>>,
    /// A hash of additional headers.
    pub headers: Option<MessageHash>,
    /// Is this message a bounce?
    pub bounce: Option<bool>,
}

/// The mathematical model of a message: each optional field as it will
/// stand on the wire.
#[verifier::ext_equal]
pub struct MessageModel {
    pub to: Option<Seq<Seq<char>>>,
    pub cc: Option<Seq<Seq<char>>>,
    pub bcc: Option<Seq<Seq<char>>>,
    pub from: Option<Seq<char>>,
    pub sender: Option<Seq<char>>,
    pub subject: Option<Seq<char>>,
    pub tag: Option<Seq<char>>,
    pub reply_to: Option<Seq<char>>,
    pub plain_body: Option<Seq<char>>,
    pub html_body: Option<Seq<char>>,
    pub attachments: Option<Seq<Seq<u8>>>,
    pub headers: Option<u64>,
    pub bounce: Option<bool>,
}

impl View for Message {
    type V = MessageModel;

    open spec fn view(&self) -> MessageModel {
        MessageModel {
            to: self.to.deep_view(),
            cc: self.cc.deep_view(),
            bcc: self.bcc.deep_view(),
            from: self.from.deep_view(),
            sender: self.sender.deep_view(),
            subject: self.subject.deep_view(),
            tag: self.tag.deep_view(),
            reply_to: self.reply_to.deep_view(),
            plain_body: self.plain_body.deep_view(),
            html_body: self.html_body.deep_view(),
            attachments: self.attachments.deep_view(),
            headers: self.headers,
            bounce: self.bounce,
        }
    }
}

/// The model of a message with every field absent.
pub open spec fn empty_message() -> MessageModel {
    MessageModel {
        to: None,
        cc: None,
        bcc: None,
        from: None,
        sender: None,
        subject: None,
        tag: None,
        reply_to: None,
        plain_body: None,
        html_body: None,
        attachments: None,
        headers: None,
        bounce: None,
    }
}

impl Default for Message {
    /// A message with every field absent.
    fn default() -> (r: Message)
        ensures
            r@ == empty_message(),
    {
        Message {
            to: None,
            cc: None,
            bcc: None,
            from: None,
            sender: None,
            subject: None,
            tag: None,
            reply_to: None,
            plain_body: None,
            html_body: None,
            attachments: None,
            headers: None,
            bounce: None,
        }
    }
}

impl Message {
    /// Sets the From address; every other field is kept.
    pub fn from(self, s: String) -> (r: Message)
        ensures
            r@ == (MessageModel { from: Some(s@), ..self@ }),
    {
        Message { from: Some(s), ..self }
    }

    /// Sets the recipient list; every other field is kept.
    pub fn to(self, to: Vec<String>) -> (r: Message)
        ensures
            r@ == (MessageModel { to: Some(to.deep_view()), ..self@ }),
    {
        Message { to: Some(to), ..self }
    }

    /// Sets the subject; every other field is kept.
    pub fn subject(self, s: String) -> (r: Message)
        ensures
            r@ == (MessageModel { subject: Some(s@), ..self@ }),
    {
        Message { subject: Some(s), ..self }
    }

    /// Sets the plain text body; every other field is kept.
    pub fn text(self, s: String) -> (r: Message)
        ensures
            r@ == (MessageModel { plain_body: Some(s@), ..self@ }),
    {
        Message { plain_body: Some(s), ..self }
    }

    /// Sets the HTML body; every other field is kept.
    pub fn html(self, s: String) -> (r: Message)
        ensures
            r@ == (MessageModel { html_body: Some(s@), ..self@ }),
    {
        Message { html_body: Some(s), ..self }
    }
}

/// A JSON array of strings.
pub open spec fn str_arr_json(l: Seq<Seq<char>>) -> JsonModel {
    JsonModel::Arr(Seq::new(l.len(), |i: int| JsonModel::Str(l[i])))
}

/// A JSON array of byte values.
pub open spec fn bytes_json(b: Seq<u8>) -> JsonModel {
    JsonModel::Arr(Seq::new(b.len(), |i: int| JsonModel::UInt(b[i] as u64)))
}

/// A JSON array of byte arrays.
pub open spec fn attachments_json(l: Seq<Seq<u8>>) -> JsonModel {
    JsonModel::Arr(Seq::new(l.len(), |i: int| bytes_json(l[i])))
}

/// One object entry under the key `k` where the value is present, and no
/// entry at all where it is absent.
pub open spec fn opt_entry(k: Seq<char>, v: Option<JsonModel>) -> Seq<(Seq<char>, JsonModel)> {
    match v {
        Some(j) => seq![(k, j)],
        None => seq![],
    }
}

/// An optional string field's wire value.
pub open spec fn opt_str_json(v: Option<Seq<char>>) -> Option<JsonModel> {
    match v {
        Some(s) => Some(JsonModel::Str(s)),
        None => None,
    }
}

/// An optional string-list field's wire value.
pub open spec fn opt_strlist_json(v: Option<Seq<Seq<char>>>) -> Option<JsonModel> {
    match v {
        Some(l) => Some(str_arr_json(l)),
        None => None,
    }
}

/// An optional attachment-list field's wire value.
pub open spec fn opt_attachments_json(v: Option<Seq<Seq<u8>>>) -> Option<JsonModel> {
    match v {
        Some(l) => Some(attachments_json(l)),
        None => None,
    }
}

/// An optional unsigned-integer field's wire value.
pub open spec fn opt_u64_json(v: Option<u64>) -> Option<JsonModel> {
    match v {
        Some(u) => Some(JsonModel::UInt(u)),
        None => None,
    }
}

/// An optional boolean field's wire value.
pub open spec fn opt_bool_json(v: Option<bool>) -> Option<JsonModel> {
    match v {
        Some(b) => Some(JsonModel::Bool(b)),
        None => None,
    }
}

/// The serialized form of a message: one entry per present field, in the
/// declared field order; absent fields leave no entry behind.
pub open spec fn message_entries(m: MessageModel) -> Seq<(Seq<char>, JsonModel)> {
    opt_entry("to"@, opt_strlist_json(m.to)) + opt_entry("cc"@, opt_strlist_json(m.cc))
        + opt_entry("bcc"@, opt_strlist_json(m.bcc)) + opt_entry("from"@, opt_str_json(m.from))
        + opt_entry("sender"@, opt_str_json(m.sender)) + opt_entry(
        "subject"@,
        opt_str_json(m.subject),
    ) + opt_entry("tag"@, opt_str_json(m.tag)) + opt_entry("reply_to"@, opt_str_json(m.reply_to))
        + opt_entry("plain_body"@, opt_str_json(m.plain_body)) + opt_entry(
        "html_body"@,
        opt_str_json(m.html_body),
    ) + opt_entry("attachments"@, opt_attachments_json(m.attachments)) + opt_entry(
        "headers"@,
        opt_u64_json(m.headers),
    ) + opt_entry("bounce"@, opt_bool_json(m.bounce))
}

/// The serialized form of a message, as one JSON object.
pub open spec fn message_json(m: MessageModel) -> JsonModel {
    JsonModel::Obj(message_entries(m))
}

/// Converts a list of strings into a JSON array of strings.
fn str_list_to_json(l: &Vec<String>) -> (r: JsonValue)
    ensures
        r@ == str_arr_json(l.deep_view()),
{
    let mut out: Vec<JsonValue> = Vec::new();
    let mut i: usize = 0;
    while i < l.len()
        invariant
            0 <= i <= l.len(),
            out@.len() == i,
            forall|j: int| 0 <= j < i ==> json_model(#[trigger] out@[j]) == JsonModel::Str(
                l@[j]@,
            ),
        decreases l.len() - i,
    {
        out.push(JsonValue::Str(l[i].clone()));
        i = i + 1;
    }
    let r = JsonValue::Arr(out);
    proof {
        assert(arr_model(out@) =~= str_arr_json(l.deep_view())->Arr_0);
    }
    r
}

/// Converts a byte vector into a JSON array of numbers.
fn bytes_to_json(b: &Vec<u8>) -> (r: JsonValue)
    ensures
        r@ == bytes_json(b@),
{
    let mut out: Vec<JsonValue> = Vec::new();
    let mut i: usize = 0;
    while i < b.len()
        invariant
            0 <= i <= b.len(),
            out@.len() == i,
            forall|j: int| 0 <= j < i ==> json_model(#[trigger] out@[j]) == JsonModel::UInt(
                b@[j] as u64,
            ),
        decreases b.len() - i,
    {
        out.push(JsonValue::UInt(b[i] as u64));
        i = i + 1;
    }
    let r = JsonValue::Arr(out);
    proof {
        assert(arr_model(out@) =~= bytes_json(b@)->Arr_0);
    }
    r
}

/// Converts an attachment list into a JSON array of byte arrays.
fn attachments_to_json(l: &Vec<Vec<u8>>) -> (r: JsonValue)
    ensures
        r@ == attachments_json(l.deep_view()),
{
    let mut out: Vec<JsonValue> = Vec::new();
    let mut i: usize = 0;
    while i < l.len()
        invariant
            0 <= i <= l.len(),
            out@.len() == i,
            forall|j: int| 0 <= j < i ==> json_model(#[trigger] out@[j]) == bytes_json(l@[j]@),
        decreases l.len() - i,
    {
        out.push(bytes_to_json(&l[i]));
        i = i + 1;
    }
    let r = JsonValue::Arr(out);
    proof {
        assert forall|j: int| 0 <= j < l@.len() implies l.deep_view()[j] == l@[j]@ by {
            assert(l@[j].deep_view() =~= l@[j]@);
        }
        assert(arr_model(out@) =~= attachments_json(l.deep_view())->Arr_0);
    }
    r
}

/// Appends the entry for an optional string field: one entry where the
/// field is present, none where it is absent.
fn push_str_entry(es: &mut Vec<(String, JsonValue)>, k: &str, v: &Option<String>)
    ensures
        obj_entries_model(final(es)@) == obj_entries_model(old(es)@) + opt_entry(
            k@,
            opt_str_json(v.deep_view()),
        ),
{
    match v {
        Some(s) => {
            es.push((k.to_owned(), JsonValue::Str(s.clone())));
        },
        None => {},
    }
    proof {
        assert(obj_entries_model(es@) =~= obj_entries_model(old(es)@) + opt_entry(
            k@,
            opt_str_json(v.deep_view()),
        ));
    }
}

/// Appends the entry for an optional string-list field.
fn push_strlist_entry(es: &mut Vec<(String, JsonValue)>, k: &str, v: &Option<Vec<String>>)
    ensures
        obj_entries_model(final(es)@) == obj_entries_model(old(es)@) + opt_entry(
            k@,
            opt_strlist_json(v.deep_view()),
        ),
{
    match v {
        Some(l) => {
            es.push((k.to_owned(), str_list_to_json(l)));
        },
        None => {},
    }
    proof {
        assert(obj_entries_model(es@) =~= obj_entries_model(old(es)@) + opt_entry(
            k@,
            opt_strlist_json(v.deep_view()),
        ));
    }
}

/// Appends the entry for the optional attachment-list field.
fn push_attachments_entry(es: &mut Vec<(String, JsonValue)>, k: &str, v: &Option<Vec<Vec<u8>>>)
    ensures
        obj_entries_model(final(es)@) == obj_entries_model(old(es)@) + opt_entry(
            k@,
            opt_attachments_json(v.deep_view()),
        ),
{
    match v {
        Some(l) => {
            es.push((k.to_owned(), attachments_to_json(l)));
        },
        None => {},
    }
    proof {
        assert(obj_entries_model(es@) =~= obj_entries_model(old(es)@) + opt_entry(
            k@,
            opt_attachments_json(v.deep_view()),
        ));
    }
}

/// Appends the entry for an optional unsigned-integer field.
fn push_u64_entry(es: &mut Vec<(String, JsonValue)>, k: &str, v: &Option<u64>)
    ensures
        obj_entries_model(final(es)@) == obj_entries_model(old(es)@) + opt_entry(
            k@,
            opt_u64_json(*v),
        ),
{
    match v {
        Some(u) => {
            es.push((k.to_owned(), JsonValue::UInt(*u)));
        },
        None => {},
    }
    proof {
        assert(obj_entries_model(es@) =~= obj_entries_model(old(es)@) + opt_entry(
            k@,
            opt_u64_json(*v),
        ));
    }
}

/// Appends the entry for an optional boolean field.
fn push_bool_entry(es: &mut Vec<(String, JsonValue)>, k: &str, v: &Option<bool>)
    ensures
        obj_entries_model(final(es)@) == obj_entries_model(old(es)@) + opt_entry(
            k@,
            opt_bool_json(*v),
        ),
{
    match v {
        Some(b) => {
            es.push((k.to_owned(), JsonValue::Bool(*b)));
        },
        None => {},
    }
    proof {
        assert(obj_entries_model(es@) =~= obj_entries_model(old(es)@) + opt_entry(
            k@,
            opt_bool_json(*v),
        ));
    }
}

impl Message {
    /// Serializes the message to its JSON wire form: present fields appear
    /// under their names in the declared order, absent fields are omitted.
    pub fn to_json(&self) -> (r: JsonValue)
        ensures
            r@ == message_json(self@),
    {
        let mut es: Vec<(String, JsonValue)> = Vec::new();
        proof {
            assert(obj_entries_model(es@) =~= Seq::empty());
        }
        push_strlist_entry(&mut es, "to", &self.to);
        push_strlist_entry(&mut es, "cc", &self.cc);
        push_strlist_entry(&mut es, "bcc", &self.bcc);
        push_str_entry(&mut es, "from", &self.from);
        push_str_entry(&mut es, "sender", &self.sender);
        push_str_entry(&mut es, "subject", &self.subject);
        push_str_entry(&mut es, "tag", &self.tag);
        push_str_entry(&mut es, "reply_to", &self.reply_to);
        push_str_entry(&mut es, "plain_body", &self.plain_body);
        push_str_entry(&mut es, "html_body", &self.html_body);
        push_attachments_entry(&mut es, "attachments", &self.attachments);
        push_u64_entry(&mut es, "headers", &self.headers);
        push_bool_entry(&mut es, "bounce", &self.bounce);
        proof {
            assert(Seq::empty() + opt_entry("to"@, opt_strlist_json(self@.to)) =~= opt_entry(
                "to"@,
                opt_strlist_json(self@.to),
            ));
            assert(obj_entries_model(es@) == message_entries(self@));
        }
        JsonValue::Obj(es)
    }
}

/// Reads a string out of a JSON value.
pub open spec fn str_of_json(j: JsonModel) -> Option<Seq<char>> {
    match j {
        JsonModel::Str(s) => Some(s),
        _ => None,
    }
}

/// Reads an unsigned integer out of a JSON value.
pub open spec fn u64_of_json(j: JsonModel) -> Option<u64> {
    match j {
        JsonModel::UInt(u) => Some(u),
        _ => None,
    }
}

/// Reads a boolean out of a JSON value.
pub open spec fn bool_of_json(j: JsonModel) -> Option<bool> {
    match j {
        JsonModel::Bool(b) => Some(b),
        _ => None,
    }
}

/// Reads a list of strings out of a JSON value.
pub open spec fn strlist_of_json(j: JsonModel) -> Option<Seq<Seq<char>>> {
    match j {
        JsonModel::Arr(a) => if (forall|i: int| 0 <= i < a.len() ==> a[i] is Str) {
            Some(Seq::new(a.len(), |i: int| a[i]->Str_0))
        } else {
            None
        },
        _ => None,
    }
}

/// Reads a byte vector out of a JSON value.
pub open spec fn bytes_of_json(j: JsonModel) -> Option<Seq<u8>> {
    match j {
        JsonModel::Arr(a) => if (forall|i: int|
            0 <= i < a.len() ==> a[i] is UInt && a[i]->UInt_0 < 256) {
            Some(Seq::new(a.len(), |i: int| a[i]->UInt_0 as u8))
        } else {
            None
        },
        _ => None,
    }
}

/// Reads an attachment list out of a JSON value.
pub open spec fn attachments_of_json(j: JsonModel) -> Option<Seq<Seq<u8>>> {
    match j {
        JsonModel::Arr(a) => if (forall|i: int| 0 <= i < a.len() ==> bytes_of_json(#[trigger] a[i]) is Some) {
            Some(Seq::new(a.len(), |i: int| bytes_of_json(a[i])->0))
        } else {
            None
        },
        _ => None,
    }
}

/// Reads an optional string field: absent is fine, a present entry of the
/// wrong shape fails the whole decode.
pub open spec fn field_str(o: Seq<(Seq<char>, JsonModel)>, k: Seq<char>) -> Option<
    Option<Seq<char>>,
> {
    match obj_get(o, k) {
        None => Some(None),
        Some(j) => match str_of_json(j) {
            Some(s) => Some(Some(s)),
            None => None,
        },
    }
}

/// Reads an optional string-list field.
pub open spec fn field_strlist(o: Seq<(Seq<char>, JsonModel)>, k: Seq<char>) -> Option<
    Option<Seq<Seq<char>>>,
> {
    match obj_get(o, k) {
        None => Some(None),
        Some(j) => match strlist_of_json(j) {
            Some(l) => Some(Some(l)),
            None => None,
        },
    }
}

/// Reads the optional attachment-list field.
pub open spec fn field_attachments(o: Seq<(Seq<char>, JsonModel)>, k: Seq<char>) -> Option<
    Option<Seq<Seq<u8>>>,
> {
    match obj_get(o, k) {
        None => Some(None),
        Some(j) => match attachments_of_json(j) {
            Some(l) => Some(Some(l)),
            None => None,
        },
    }
}

/// Reads an optional unsigned-integer field.
pub open spec fn field_u64(o: Seq<(Seq<char>, JsonModel)>, k: Seq<char>) -> Option<Option<u64>> {
    match obj_get(o, k) {
        None => Some(None),
        Some(j) => match u64_of_json(j) {
            Some(u) => Some(Some(u)),
            None => None,
        },
    }
}

/// Reads an optional boolean field.
pub open spec fn field_bool(o: Seq<(Seq<char>, JsonModel)>, k: Seq<char>) -> Option<Option<bool>> {
    match obj_get(o, k) {
        None => Some(None),
        Some(j) => match bool_of_json(j) {
            Some(b) => Some(Some(b)),
            None => None,
        },
    }
}

/// Decodes a message from an object's entries: every field may be absent,
/// but a present field of the wrong shape fails the decode.
pub open spec fn message_of_entries(o: Seq<(Seq<char>, JsonModel)>) -> Option<MessageModel> {
    if field_strlist(o, "to"@) is Some && field_strlist(o, "cc"@) is Some && field_strlist(
        o,
        "bcc"@,
    ) is Some && field_str(o, "from"@) is Some && field_str(o, "sender"@) is Some && field_str(
        o,
        "subject"@,
    ) is Some && field_str(o, "tag"@) is Some && field_str(o, "reply_to"@) is Some && field_str(
        o,
        "plain_body"@,
    ) is Some && field_str(o, "html_body"@) is Some && field_attachments(o, "attachments"@)
        is Some && field_u64(o, "headers"@) is Some && field_bool(o, "bounce"@) is Some {
        Some(
            MessageModel {
                to: field_strlist(o, "to"@)->0,
                cc: field_strlist(o, "cc"@)->0,
                bcc: field_strlist(o, "bcc"@)->0,
                from: field_str(o, "from"@)->0,
                sender: field_str(o, "sender"@)->0,
                subject: field_str(o, "subject"@)->0,
                tag: field_str(o, "tag"@)->0,
                reply_to: field_str(o, "reply_to"@)->0,
                plain_body: field_str(o, "plain_body"@)->0,
                html_body: field_str(o, "html_body"@)->0,
                attachments: field_attachments(o, "attachments"@)->0,
                headers: field_u64(o, "headers"@)->0,
                bounce: field_bool(o, "bounce"@)->0,
            },
        )
    } else {
        None
    }
}

/// Decodes a message from a JSON value: anything but an object fails.
pub open spec fn message_of_json(j: JsonModel) -> Option<MessageModel> {
    match j {
        JsonModel::Obj(o) => message_of_entries(o),
        _ => None,
    }
}

/// Reads a list of strings out of a JSON value.
fn json_to_str_list(v: &JsonValue) -> (r: Option<Vec<String>>)
    ensures
        match r {
            Some(l) => strlist_of_json(v@) == Some(l.deep_view()),
            None => strlist_of_json(v@) is None,
        },
{
    match v {
        JsonValue::Arr(a) => {
            let ghost am = arr_model(a@);
            let mut out: Vec<String> = Vec::new();
            let mut i: usize = 0;
            while i < a.len()
                invariant
                    0 <= i <= a.len(),
                    am == arr_model(a@),
                    v@ == JsonModel::Arr(am),
                    out@.len() == i,
                    forall|j: int|
                        0 <= j < i ==> (#[trigger] am[j]) is Str && out@[j]@ == am[j]->Str_0,
                decreases a.len() - i,
            {
                match &a[i] {
                    JsonValue::Str(s) => {
                        proof {
                            assert(am[i as int] == JsonModel::Str(s@));
                        }
                        out.push(s.clone());
                    },
                    _ => {
                        proof {
                            assert(!(am[i as int] is Str));
                        }
                        return None;
                    },
                }
                i = i + 1;
            }
            proof {
                assert(out.deep_view() =~= Seq::new(am.len(), |j: int| am[j]->Str_0));
            }
            Some(out)
        },
        _ => None,
    }
}

/// Reads a byte vector out of a JSON value.
fn json_to_bytes(v: &JsonValue) -> (r: Option<Vec<u8>>)
    ensures
        match r {
            Some(b) => bytes_of_json(v@) == Some(b@),
            None => bytes_of_json(v@) is None,
        },
{
    match v {
        JsonValue::Arr(a) => {
            let ghost am = arr_model(a@);
            let mut out: Vec<u8> = Vec::new();
            let mut i: usize = 0;
            while i < a.len()
                invariant
                    0 <= i <= a.len(),
                    am == arr_model(a@),
                    v@ == JsonModel::Arr(am),
                    out@.len() == i,
                    forall|j: int|
                        0 <= j < i ==> (#[trigger] am[j]) is UInt && am[j]->UInt_0 < 256
                            && out@[j] == am[j]->UInt_0 as u8,
                decreases a.len() - i,
            {
                match &a[i] {
                    JsonValue::UInt(u) => {
                        if *u < 256 {
                            proof {
                                assert(am[i as int] == JsonModel::UInt(*u));
                            }
                            out.push(*u as u8);
                        } else {
                            proof {
                                assert(am[i as int]->UInt_0 >= 256);
                            }
                            return None;
                        }
                    },
                    _ => {
                        proof {
                            assert(!(am[i as int] is UInt));
                        }
                        return None;
                    },
                }
                i = i + 1;
            }
            proof {
                assert(out@ =~= Seq::new(am.len(), |j: int| am[j]->UInt_0 as u8));
            }
            Some(out)
        },
        _ => None,
    }
}

/// Reads an attachment list out of a JSON value.
fn json_to_attachments(v: &JsonValue) -> (r: Option<Vec<Vec<u8>>>)
    ensures
        match r {
            Some(l) => attachments_of_json(v@) == Some(l.deep_view()),
            None => attachments_of_json(v@) is None,
        },
{
    match v {
        JsonValue::Arr(a) => {
            let ghost am = arr_model(a@);
            let mut out: Vec<Vec<u8>> = Vec::new();
            let mut i: usize = 0;
            while i < a.len()
                invariant
                    0 <= i <= a.len(),
                    am == arr_model(a@),
                    v@ == JsonModel::Arr(am),
                    out@.len() == i,
                    forall|j: int|
                        0 <= j < i ==> bytes_of_json(#[trigger] am[j]) == Some(out@[j]@),
                decreases a.len() - i,
            {
                match json_to_bytes(&a[i]) {
                    Some(b) => {
                        proof {
                            assert(bytes_of_json(am[i as int]) == Some(b@));
                        }
                        out.push(b);
                    },
                    None => {
                        proof {
                            assert(bytes_of_json(am[i as int]) is None);
                        }
                        return None;
                    },
                }
                i = i + 1;
            }
            proof {
                assert forall|j: int| 0 <= j < out@.len() implies out.deep_view()[j] == out@[j]@ by {
                    assert(out@[j].deep_view() =~= out@[j]@);
                }
                assert(out.deep_view() =~= Seq::new(am.len(), |j: int| bytes_of_json(am[j])->0));
            }
            Some(out)
        },
        _ => None,
    }
}

/// Decodes a message back from its JSON wire form.  Absent fields stay
/// absent; a present field of the wrong shape fails the decode, as does
/// anything but an object.
#[verifier::rlimit(100)]
pub fn message_from_json(v: &JsonValue) -> (r: Option<Message>)
    ensures
        match r {
            Some(m) => message_of_json(v@) == Some(m@),
            None => message_of_json(v@) is None,
        },
{
    let o = match v {
        JsonValue::Obj(o) => o,
        _ => { return None },
    };
    let ghost om = obj_entries_model(o@);
    let to = match obj_lookup(o, &"to".to_owned()) {
        Some(j) => match json_to_str_list(j) {
            Some(l) => Some(l),
            None => { return None },
        },
        None => None,
    };
    let cc = match obj_lookup(o, &"cc".to_owned()) {
        Some(j) => match json_to_str_list(j) {
            Some(l) => Some(l),
            None => { return None },
        },
        None => None,
    };
    let bcc = match obj_lookup(o, &"bcc".to_owned()) {
        Some(j) => match json_to_str_list(j) {
            Some(l) => Some(l),
            None => { return None },
        },
        None => None,
    };
    let from = match obj_lookup(o, &"from".to_owned()) {
        Some(j) => match j {
            JsonValue::Str(s) => Some(s.clone()),
            _ => { return None },
        },
        None => None,
    };
    let sender = match obj_lookup(o, &"sender".to_owned()) {
        Some(j) => match j {
            JsonValue::Str(s) => Some(s.clone()),
            _ => { return None },
        },
        None => None,
    };
    let subject = match obj_lookup(o, &"subject".to_owned()) {
        Some(j) => match j {
            JsonValue::Str(s) => Some(s.clone()),
            _ => { return None },
        },
        None => None,
    };
    let tag = match obj_lookup(o, &"tag".to_owned()) {
        Some(j) => match j {
            JsonValue::Str(s) => Some(s.clone()),
            _ => { return None },
        },
        None => None,
    };
    let reply_to = match obj_lookup(o, &"reply_to".to_owned()) {
        Some(j) => match j {
            JsonValue::Str(s) => Some(s.clone()),
            _ => { return None },
        },
        None => None,
    };
    let plain_body = match obj_lookup(o, &"plain_body".to_owned()) {
        Some(j) => match j {
            JsonValue::Str(s) => Some(s.clone()),
            _ => { return None },
        },
        None => None,
    };
    let html_body = match obj_lookup(o, &"html_body".to_owned()) {
        Some(j) => match j {
            JsonValue::Str(s) => Some(s.clone()),
            _ => { return None },
        },
        None => None,
    };
    let attachments = match obj_lookup(o, &"attachments".to_owned()) {
        Some(j) => match json_to_attachments(j) {
            Some(l) => Some(l),
            None => { return None },
        },
        None => None,
    };
    let headers = match obj_lookup(o, &"headers".to_owned()) {
        Some(j) => match j {
            JsonValue::UInt(u) => Some(*u),
            _ => { return None },
        },
        None => None,
    };
    let bounce = match obj_lookup(o, &"bounce".to_owned()) {
        Some(j) => match j {
            JsonValue::Bool(b) => Some(*b),
            _ => { return None },
        },
        None => None,
    };
    let m = Message {
        to,
        cc,
        bcc,
        from,
        sender,
        subject,
        tag,
        reply_to,
        plain_body,
        html_body,
        attachments,
        headers,
        bounce,
    };
    proof {
        assert(message_of_entries(om)->0 =~= m@);
    }
    Some(m)
}

/// Looking any key up in a single optional entry finds the value exactly
/// under that entry's key.
proof fn lemma_obj_get_opt_entry_all(k0: Seq<char>, v: Option<JsonModel>)
    ensures
        forall|k: Seq<char>| #[trigger] obj_get(opt_entry(k0, v), k) == (if k == k0 {
            v
        } else {
            None
        }),
{
    assert forall|k: Seq<char>| #[trigger] obj_get(opt_entry(k0, v), k) == (if k == k0 {
        v
    } else {
        None::<JsonModel>
    }) by {
        match v {
            Some(j) => {
                let s = seq![(k0, j)];
                assert(s.drop_first() =~= Seq::<(Seq<char>, JsonModel)>::empty());
                assert(obj_get(s.drop_first(), k) is None);
            },
            None => {
                assert(opt_entry(k0, v).len() == 0);
            },
        }
    }
}

/// A string list survives the trip through its JSON array form.
proof fn lemma_strlist_round(l: Seq<Seq<char>>)
    ensures
        strlist_of_json(str_arr_json(l)) == Some(l),
{
    let a = Seq::new(l.len(), |i: int| JsonModel::Str(l[i]));
    assert(forall|i: int| 0 <= i < a.len() ==> (#[trigger] a[i]) is Str);
    assert(Seq::new(a.len(), |i: int| a[i]->Str_0) =~= l);
}

/// A byte vector survives the trip through its JSON array form.
proof fn lemma_bytes_round(b: Seq<u8>)
    ensures
        bytes_of_json(bytes_json(b)) == Some(b),
{
    let a = Seq::new(b.len(), |i: int| JsonModel::UInt(b[i] as u64));
    assert(forall|i: int| 0 <= i < a.len() ==> (#[trigger] a[i]) is UInt && a[i]->UInt_0 < 256);
    assert(Seq::new(a.len(), |i: int| a[i]->UInt_0 as u8) =~= b);
}

/// An attachment list survives the trip through its JSON array form.
proof fn lemma_attachments_round(l: Seq<Seq<u8>>)
    ensures
        attachments_of_json(attachments_json(l)) == Some(l),
{
    let a = Seq::new(l.len(), |i: int| bytes_json(l[i]));
    assert forall|i: int| 0 <= i < a.len() implies bytes_of_json(#[trigger] a[i]) == Some(
        l[i],
    ) by {
        lemma_bytes_round(l[i]);
    }
    assert(Seq::new(a.len(), |i: int| bytes_of_json(a[i])->0) =~= l);
}

/// What each field's key finds in a serialized message: exactly that
/// field's wire value, and nothing where the field is absent.
#[verifier::rlimit(100)]
proof fn lemma_message_entries_get(m: MessageModel)
    ensures
        obj_get(message_entries(m), "to"@) == opt_strlist_json(m.to),
        obj_get(message_entries(m), "cc"@) == opt_strlist_json(m.cc),
        obj_get(message_entries(m), "bcc"@) == opt_strlist_json(m.bcc),
        obj_get(message_entries(m), "from"@) == opt_str_json(m.from),
        obj_get(message_entries(m), "sender"@) == opt_str_json(m.sender),
        obj_get(message_entries(m), "subject"@) == opt_str_json(m.subject),
        obj_get(message_entries(m), "tag"@) == opt_str_json(m.tag),
        obj_get(message_entries(m), "reply_to"@) == opt_str_json(m.reply_to),
        obj_get(message_entries(m), "plain_body"@) == opt_str_json(m.plain_body),
        obj_get(message_entries(m), "html_body"@) == opt_str_json(m.html_body),
        obj_get(message_entries(m), "attachments"@) == opt_attachments_json(m.attachments),
        obj_get(message_entries(m), "headers"@) == opt_u64_json(m.headers),
        obj_get(message_entries(m), "bounce"@) == opt_bool_json(m.bounce),
{
    reveal_strlit("to");
    reveal_strlit("cc");
    reveal_strlit("bcc");
    reveal_strlit("from");
    reveal_strlit("sender");
    reveal_strlit("subject");
    reveal_strlit("tag");
    reveal_strlit("reply_to");
    reveal_strlit("plain_body");
    reveal_strlit("html_body");
    reveal_strlit("attachments");
    reveal_strlit("headers");
    reveal_strlit("bounce");
    assert("to"@.len() == 2 && "cc"@.len() == 2 && "bcc"@.len() == 3 && "from"@.len() == 4);
    assert("sender"@.len() == 6 && "subject"@.len() == 7 && "tag"@.len() == 3);
    assert("reply_to"@.len() == 8 && "plain_body"@.len() == 10 && "html_body"@.len() == 9);
    assert("attachments"@.len() == 11 && "headers"@.len() == 7 && "bounce"@.len() == 6);
    assert("to"@[0] == 't');
    assert("cc"@[0] == 'c');
    assert("bcc"@[0] == 'b');
    assert("from"@[0] == 'f');
    assert("sender"@[0] == 's');
    assert("subject"@[0] == 's');
    assert("tag"@[0] == 't');
    assert("reply_to"@[0] == 'r');
    assert("plain_body"@[0] == 'p');
    assert("html_body"@[0] == 'h');
    assert("attachments"@[0] == 'a');
    assert("headers"@[0] == 'h');
    assert("bounce"@[0] == 'b');
    let e1 = opt_entry("to"@, opt_strlist_json(m.to));
    let e2 = opt_entry("cc"@, opt_strlist_json(m.cc));
    let e3 = opt_entry("bcc"@, opt_strlist_json(m.bcc));
    let e4 = opt_entry("from"@, opt_str_json(m.from));
    let e5 = opt_entry("sender"@, opt_str_json(m.sender));
    let e6 = opt_entry("subject"@, opt_str_json(m.subject));
    let e7 = opt_entry("tag"@, opt_str_json(m.tag));
    let e8 = opt_entry("reply_to"@, opt_str_json(m.reply_to));
    let e9 = opt_entry("plain_body"@, opt_str_json(m.plain_body));
    let e10 = opt_entry("html_body"@, opt_str_json(m.html_body));
    let e11 = opt_entry("attachments"@, opt_attachments_json(m.attachments));
    let e12 = opt_entry("headers"@, opt_u64_json(m.headers));
    let e13 = opt_entry("bounce"@, opt_bool_json(m.bounce));
    lemma_obj_get_opt_entry_all("to"@, opt_strlist_json(m.to));
    lemma_obj_get_opt_entry_all("cc"@, opt_strlist_json(m.cc));
    lemma_obj_get_opt_entry_all("bcc"@, opt_strlist_json(m.bcc));
    lemma_obj_get_opt_entry_all("from"@, opt_str_json(m.from));
    lemma_obj_get_opt_entry_all("sender"@, opt_str_json(m.sender));
    lemma_obj_get_opt_entry_all("subject"@, opt_str_json(m.subject));
    lemma_obj_get_opt_entry_all("tag"@, opt_str_json(m.tag));
    lemma_obj_get_opt_entry_all("reply_to"@, opt_str_json(m.reply_to));
    lemma_obj_get_opt_entry_all("plain_body"@, opt_str_json(m.plain_body));
    lemma_obj_get_opt_entry_all("html_body"@, opt_str_json(m.html_body));
    lemma_obj_get_opt_entry_all("attachments"@, opt_attachments_json(m.attachments));
    lemma_obj_get_opt_entry_all("headers"@, opt_u64_json(m.headers));
    lemma_obj_get_opt_entry_all("bounce"@, opt_bool_json(m.bounce));
    let p2 = e1 + e2;
    let p3 = p2 + e3;
    let p4 = p3 + e4;
    let p5 = p4 + e5;
    let p6 = p5 + e6;
    let p7 = p6 + e7;
    let p8 = p7 + e8;
    let p9 = p8 + e9;
    let p10 = p9 + e10;
    let p11 = p10 + e11;
    let p12 = p11 + e12;
    let p13 = p12 + e13;
    crate::json::lemma_obj_get_append_all(e1, e2);
    crate::json::lemma_obj_get_append_all(p2, e3);
    crate::json::lemma_obj_get_append_all(p3, e4);
    crate::json::lemma_obj_get_append_all(p4, e5);
    crate::json::lemma_obj_get_append_all(p5, e6);
    crate::json::lemma_obj_get_append_all(p6, e7);
    crate::json::lemma_obj_get_append_all(p7, e8);
    crate::json::lemma_obj_get_append_all(p8, e9);
    crate::json::lemma_obj_get_append_all(p9, e10);
    crate::json::lemma_obj_get_append_all(p10, e11);
    crate::json::lemma_obj_get_append_all(p11, e12);
    crate::json::lemma_obj_get_append_all(p12, e13);
    assert(message_entries(m) == p13);
}

/// Each field read back from a serialized message is exactly the field
/// that went in.
#[verifier::rlimit(100)]
proof fn lemma_message_fields(m: MessageModel)
    ensures
        field_strlist(message_entries(m), "to"@) == Some(m.to),
        field_strlist(message_entries(m), "cc"@) == Some(m.cc),
        field_strlist(message_entries(m), "bcc"@) == Some(m.bcc),
        field_str(message_entries(m), "from"@) == Some(m.from),
        field_str(message_entries(m), "sender"@) == Some(m.sender),
        field_str(message_entries(m), "subject"@) == Some(m.subject),
        field_str(message_entries(m), "tag"@) == Some(m.tag),
        field_str(message_entries(m), "reply_to"@) == Some(m.reply_to),
        field_str(message_entries(m), "plain_body"@) == Some(m.plain_body),
        field_str(message_entries(m), "html_body"@) == Some(m.html_body),
        field_attachments(message_entries(m), "attachments"@) == Some(m.attachments),
        field_u64(message_entries(m), "headers"@) == Some(m.headers),
        field_bool(message_entries(m), "bounce"@) == Some(m.bounce),
{
    lemma_message_entries_get(m);
    match m.to {
        Some(l) => lemma_strlist_round(l),
        None => (),
    }
    match m.cc {
        Some(l) => lemma_strlist_round(l),
        None => (),
    }
    match m.bcc {
        Some(l) => lemma_strlist_round(l),
        None => (),
    }
    match m.attachments {
        Some(l) => lemma_attachments_round(l),
        None => (),
    }
}

/// Serializing a message and then decoding it back yields the same set of
/// present fields with identical values, and an absent field never appears
/// as a key in the serialized form.
#[verifier::rlimit(100)]
pub proof fn lemma_message_round_trip(m: MessageModel)
    ensures
        message_of_json(message_json(m)) == Some(m),
        obj_has(message_entries(m), "to"@) <==> m.to is Some,
        obj_has(message_entries(m), "cc"@) <==> m.cc is Some,
        obj_has(message_entries(m), "bcc"@) <==> m.bcc is Some,
        obj_has(message_entries(m), "from"@) <==> m.from is Some,
        obj_has(message_entries(m), "sender"@) <==> m.sender is Some,
        obj_has(message_entries(m), "subject"@) <==> m.subject is Some,
        obj_has(message_entries(m), "tag"@) <==> m.tag is Some,
        obj_has(message_entries(m), "reply_to"@) <==> m.reply_to is Some,
        obj_has(message_entries(m), "plain_body"@) <==> m.plain_body is Some,
        obj_has(message_entries(m), "html_body"@) <==> m.html_body is Some,
        obj_has(message_entries(m), "attachments"@) <==> m.attachments is Some,
        obj_has(message_entries(m), "headers"@) <==> m.headers is Some,
        obj_has(message_entries(m), "bounce"@) <==> m.bounce is Some,
{
    lemma_message_entries_get(m);
    lemma_message_fields(m);
    let o = message_entries(m);
    assert(message_of_entries(o)->0 =~= m);
}

/// RawMessage carries a raw RFC 2822 formatted message along with the
/// recipients it should be sent to.
#[derive(Debug, Clone, PartialEq, Eq)]
pub struct RawMessage {
    /// The address that should be logged as sending the message.
    pub mail_from: String,
    /// The addresses this message should be sent to.
    pub rcpt_to: Vec<String>,
    /// A base64 encoded RFC 2822 message to send.
    pub data: String,
    /// Is this message a bounce?
    pub bounce: Option<bool>,
}

/// The mathematical model of a raw message.
#[verifier::ext_equal]
pub struct RawMessageModel {
    pub mail_from: Seq<char>,
    pub rcpt_to: Seq<Seq<char>>,
    pub data: Seq<char>,
    pub bounce: Option<bool>,
}

impl View for RawMessage {
    type V = RawMessageModel;

    open spec fn view(&self) -> RawMessageModel {
        RawMessageModel {
            mail_from: self.mail_from@,
            rcpt_to: self.rcpt_to.deep_view(),
            data: self.data@,
            bounce: self.bounce,
        }
    }
}

/// The serialized form of a raw message: the three required fields in
/// declared order, and the bounce flag only where it is present.
pub open spec fn raw_message_entries(m: RawMessageModel) -> Seq<(Seq<char>, JsonModel)> {
    seq![
        ("mail_from"@, JsonModel::Str(m.mail_from)),
        ("rcpt_to"@, str_arr_json(m.rcpt_to)),
        ("data"@, JsonModel::Str(m.data)),
    ] + opt_entry("bounce"@, opt_bool_json(m.bounce))
}

/// The serialized form of a raw message, as one JSON object.
pub open spec fn raw_message_json(m: RawMessageModel) -> JsonModel {
    JsonModel::Obj(raw_message_entries(m))
}

impl RawMessage {
    /// Builds a raw message; the bounce flag starts absent.
    pub fn new(to: Vec<String>, from: String, data: String) -> (r: RawMessage)
        ensures
            r@ == (RawMessageModel {
                mail_from: from@,
                rcpt_to: to.deep_view(),
                data: data@,
                bounce: None,
            }),
    {
        RawMessage { rcpt_to: to, mail_from: from, data, bounce: None }
    }

    /// Serializes the raw message to its JSON wire form.
    pub fn to_json(&self) -> (r: JsonValue)
        ensures
            r@ == raw_message_json(self@),
    {
        let mut es: Vec<(String, JsonValue)> = Vec::new();
        es.push(("mail_from".to_owned(), JsonValue::Str(self.mail_from.clone())));
        es.push(("rcpt_to".to_owned(), str_list_to_json(&self.rcpt_to)));
        es.push(("data".to_owned(), JsonValue::Str(self.data.clone())));
        push_bool_entry(&mut es, "bounce", &self.bounce);
        let r = JsonValue::Obj(es);
        proof {
            assert(obj_entries_model(es@) =~= raw_message_entries(self@));
        }
        r
    }
}

} // verus!
