//! The interest builder: a message-hash plus a set of optional expansion
//! flags, and its JSON wire form.

use vstd::prelude::*;
use crate::json::{JsonValue, JsonModel, arr_model, obj_entries_model};
use crate::message::MessageHash;

verus! {

broadcast use
    crate::json::lemma_json_model_unfold,
    crate::json::lemma_arr_model_len,
    crate::json::lemma_arr_model_index,
    crate::json::lemma_obj_entries_model_len,
    crate::json::lemma_obj_entries_model_index,
;

/// DetailsInterest carries the options which can be used to turn on
/// expansions while obtaining the details of a message.
///
/// Presence of a flag, not a boolean value, signals inclusion.  The
/// `attachments` flag exists in the data but is never rendered: the wire
/// contract leaves it out, and that gap is preserved here.
#[derive(Debug, Clone, PartialEq, Eq)]
pub struct DetailsInterest {
    /// The hash of the message the details are asked for.
    pub id: MessageHash,
    /// Ask for the delivery status.
    pub status: Option<()>,
    /// Ask for the message details.
    pub details: Option<()>,
    /// Ask for the inspection result.
    pub inspection: Option<()>,
    /// Ask for the plain text body.
    pub plain_body: Option<()>,
    /// Ask for the HTML body.
    pub html_body: Option<()>,
    /// Present in the data model but never rendered to the wire.
    pub attachments: Option<()>,
    /// Ask for the headers.
    pub headers: Option<()>,
    /// Ask for the raw message.
    pub raw_message: Option<()>,
}

/// The mathematical model of an interest: the identifier and one bit per
/// expansion flag.
#[verifier::ext_equal]
pub struct InterestModel {
    pub id: u64,
    pub status: bool,
    pub details: bool,
    pub inspection: bool,
    pub plain_body: bool,
    pub html_body: bool,
    pub attachments: bool,
    pub headers: bool,
    pub raw_message: bool,
}

impl View for DetailsInterest {
    type V = InterestModel;

    open spec fn view(&self) -> InterestModel {
        InterestModel {
            id: self.id,
            status: self.status is Some,
            details: self.details is Some,
            inspection: self.inspection is Some,
            plain_body: self.plain_body is Some,
            html_body: self.html_body is Some,
            attachments: self.attachments is Some,
            headers: self.headers is Some,
            raw_message: self.raw_message is Some,
        }
    }
}

/// The model of an interest in `id` with no flag set.
pub open spec fn bare_interest(id: u64) -> InterestModel {
    InterestModel {
        id,
        status: false,
        details: false,
        inspection: false,
        plain_body: false,
        html_body: false,
        attachments: false,
        headers: false,
        raw_message: false,
    }
}

/// The names of the set flags, in the declared fixed order.  The
/// `attachments` flag is never emitted.
pub open spec fn expansion_names(m: InterestModel) -> Seq<Seq<char>> {
    (if m.status {
        seq!["status"@]
    } else {
        seq![]
    }) + (if m.details {
        seq!["details"@]
    } else {
        seq![]
    }) + (if m.inspection {
        seq!["inspection"@]
    } else {
        seq![]
    }) + (if m.plain_body {
        seq!["plain_body"@]
    } else {
        seq![]
    }) + (if m.html_body {
        seq!["html_body"@]
    } else {
        seq![]
    }) + (if m.headers {
        seq!["headers"@]
    } else {
        seq![]
    }) + (if m.raw_message {
        seq!["raw_message"@]
    } else {
        seq![]
    })
}

/// The wire value of the expansion list: absent where no flag is set, else
/// a JSON array of the set flags' names.
pub open spec fn expansions_json(m: InterestModel) -> Option<JsonModel> {
    if expansion_names(m).len() == 0 {
        None
    } else {
        Some(names_to_json(expansion_names(m)))
    }
}

/// A JSON array of name strings.
pub open spec fn names_to_json(l: Seq<Seq<char>>) -> JsonModel {
    JsonModel::Arr(Seq::new(l.len(), |i: int| JsonModel::Str(l[i])))
}

/// The wire form of an interest: the identifier under `id`, and, only where
/// at least one flag is set, the flag names under `_expansions`.
pub open spec fn interest_json(m: InterestModel) -> JsonModel {
    match expansions_json(m) {
        Some(e) => JsonModel::Obj(seq![("id"@, JsonModel::UInt(m.id)), ("_expansions"@, e)]),
        None => JsonModel::Obj(seq![("id"@, JsonModel::UInt(m.id))]),
    }
}

/// Appends one flag name to the rendered list.
fn push_name(list: &mut Vec<JsonValue>, name: &str)
    ensures
        arr_model(final(list)@) == arr_model(old(list)@).push(JsonModel::Str(name@)),
{
    list.push(JsonValue::Str(name.to_owned()));
    proof {
        assert(arr_model(list@) =~= arr_model(old(list)@).push(JsonModel::Str(name@)));
    }
}

/// Rendering one more name appends one more string to the JSON array.
proof fn lemma_names_push(l: Seq<Seq<char>>, n: Seq<char>)
    ensures
        names_to_json(l.push(n))->Arr_0 == names_to_json(l)->Arr_0.push(JsonModel::Str(n)),
{
    assert(names_to_json(l.push(n))->Arr_0 =~= names_to_json(l)->Arr_0.push(JsonModel::Str(n)));
}

impl DetailsInterest {
    /// Builds an interest in the message with the given hash, with no flag
    /// set.
    pub fn new(id: MessageHash) -> (r: DetailsInterest)
        ensures
            r@ == bare_interest(id),
    {
        DetailsInterest {
            id,
            status: None,
            details: None,
            inspection: None,
            plain_body: None,
            html_body: None,
            attachments: None,
            headers: None,
            raw_message: None,
        }
    }

    /// Sets the status flag; setting it again changes nothing.
    pub fn with_status(self) -> (r: DetailsInterest)
        ensures
            r@ == (InterestModel { status: true, ..self@ }),
    {
        DetailsInterest { status: Some(()), ..self }
    }

    /// Sets the details flag; setting it again changes nothing.
    pub fn with_details(self) -> (r: DetailsInterest)
        ensures
            r@ == (InterestModel { details: true, ..self@ }),
    {
        DetailsInterest { details: Some(()), ..self }
    }

    /// Sets the inspection flag; setting it again changes nothing.
    pub fn with_inspection(self) -> (r: DetailsInterest)
        ensures
            r@ == (InterestModel { inspection: true, ..self@ }),
    {
        DetailsInterest { inspection: Some(()), ..self }
    }

    /// Sets the plain-body flag; setting it again changes nothing.
    pub fn with_plain_body(self) -> (r: DetailsInterest)
        ensures
            r@ == (InterestModel { plain_body: true, ..self@ }),
    {
        DetailsInterest { plain_body: Some(()), ..self }
    }

    /// Sets the HTML-body flag; setting it again changes nothing.
    pub fn with_html_body(self) -> (r: DetailsInterest)
        ensures
            r@ == (InterestModel { html_body: true, ..self@ }),
    {
        DetailsInterest { html_body: Some(()), ..self }
    }

    /// Sets the headers flag; setting it again changes nothing.
    pub fn with_headers(self) -> (r: DetailsInterest)
        ensures
            r@ == (InterestModel { headers: true, ..self@ }),
    {
        DetailsInterest { headers: Some(()), ..self }
    }

    /// Sets the raw-message flag; setting it again changes nothing.
    pub fn with_raw_message(self) -> (r: DetailsInterest)
        ensures
            r@ == (InterestModel { raw_message: true, ..self@ }),
    {
        DetailsInterest { raw_message: Some(()), ..self }
    }

    /// Renders the expansion list: nothing where no flag is set, else the
    /// set flags' names, each exactly once, in the declared order.
    pub fn build_expansions_list(&self) -> (r: Option<Vec<JsonValue>>)
        ensures
            match r {
                Some(v) => Some(JsonModel::Arr(arr_model(v@))) == expansions_json(self@),
                None => expansions_json(self@) is None,
            },
    {
        let ghost m = self@;
        let mut list: Vec<JsonValue> = Vec::new();
        let ghost mut ns: Seq<Seq<char>> = Seq::empty();
        proof {
            assert(arr_model(list@) =~= names_to_json(ns)->Arr_0);
        }
        if self.status.is_some() {
            push_name(&mut list, "status");
            proof {
                lemma_names_push(ns, "status"@);
                ns = ns.push("status"@);
            }
        }
        if self.details.is_some() {
            push_name(&mut list, "details");
            proof {
                lemma_names_push(ns, "details"@);
                ns = ns.push("details"@);
            }
        }
        if self.inspection.is_some() {
            push_name(&mut list, "inspection");
            proof {
                lemma_names_push(ns, "inspection"@);
                ns = ns.push("inspection"@);
            }
        }
        if self.plain_body.is_some() {
            push_name(&mut list, "plain_body");
            proof {
                lemma_names_push(ns, "plain_body"@);
                ns = ns.push("plain_body"@);
            }
        }
        if self.html_body.is_some() {
            push_name(&mut list, "html_body");
            proof {
                lemma_names_push(ns, "html_body"@);
                ns = ns.push("html_body"@);
            }
        }
        if self.headers.is_some() {
            push_name(&mut list, "headers");
            proof {
                lemma_names_push(ns, "headers"@);
                ns = ns.push("headers"@);
            }
        }
        if self.raw_message.is_some() {
            push_name(&mut list, "raw_message");
            proof {
                lemma_names_push(ns, "raw_message"@);
                ns = ns.push("raw_message"@);
            }
        }
        proof {
            assert(ns =~= expansion_names(m));
        }
        if list.len() == 0 {
            None
        } else {
            Some(list)
        }
    }

    /// Renders the interest to its JSON wire form: the identifier under
    /// `id`, and the expansion list under `_expansions` only where at least
    /// one flag is set.
    pub fn to_json(&self) -> (r: JsonValue)
        ensures
            r@ == interest_json(self@),
    {
        let mut entries: Vec<(String, JsonValue)> = Vec::new();
        entries.push(("id".to_owned(), JsonValue::UInt(self.id)));
        match self.build_expansions_list() {
            Some(l) => {
                entries.push(("_expansions".to_owned(), JsonValue::Arr(l)));
                let r = JsonValue::Obj(entries);
                proof {
                    assert(obj_entries_model(entries@) =~= interest_json(self@)->Obj_0);
                }
                r
            },
            None => {
                let r = JsonValue::Obj(entries);
                proof {
                    assert(obj_entries_model(entries@) =~= interest_json(self@)->Obj_0);
                }
                r
            },
        }
    }
}

/// Setting the status flag twice renders exactly as setting it once: the
/// builder's flags are idempotent.
pub proof fn lemma_with_status_idempotent(m: InterestModel)
    ensures
        interest_json(
            InterestModel { status: true, ..(InterestModel { status: true, ..m }) },
        ) == interest_json(InterestModel { status: true, ..m }),
{
    assert(InterestModel { status: true, ..(InterestModel { status: true, ..m }) }
        =~= (InterestModel { status: true, ..m }));
}

/// Extending a name list by one conditional entry extends what it contains
/// by exactly that entry.
proof fn lemma_flag_concat_contains(l: Seq<Seq<char>>, cond: bool, n: Seq<char>, r: Seq<Seq<char>>)
    requires
        r == l + (if cond {
            seq![n]
        } else {
            seq![]
        }),
    ensures
        forall|x: Seq<char>| #[trigger] r.contains(x) <==> (l.contains(x) || (cond && x == n)),
{
    assert forall|x: Seq<char>| #[trigger] r.contains(x) <==> (l.contains(x) || (cond && x
        == n)) by {
        if l.contains(x) {
            let i = choose|i: int| 0 <= i < l.len() && l[i] == x;
            assert(r[i] == x);
        }
        if cond && x == n {
            assert(r[l.len() as int] == x);
        }
        if r.contains(x) {
            let i = choose|i: int| 0 <= i < r.len() && r[i] == x;
            if i < l.len() {
                assert(l[i] == x);
            }
        }
    }
}

/// Extending a duplicate-free name list by one conditional entry it does
/// not yet contain keeps it duplicate-free.
proof fn lemma_flag_concat_no_dup(l: Seq<Seq<char>>, cond: bool, n: Seq<char>)
    requires
        l.no_duplicates(),
        !l.contains(n),
    ensures
        (l + (if cond {
            seq![n]
        } else {
            seq![]
        })).no_duplicates(),
{
    let t: Seq<Seq<char>> = if cond {
        seq![n]
    } else {
        seq![]
    };
    let r = l + t;
    if cond {
        assert forall|i: int, j: int|
            0 <= i < r.len() && 0 <= j < r.len() && i != j implies r[i] != r[j] by {
            if i < l.len() && j < l.len() {
                assert(r[i] == l[i] && r[j] == l[j]);
            } else if i < l.len() {
                assert(l.contains(l[i]));
                assert(r[i] == l[i] && r[j] == n);
            } else if j < l.len() {
                assert(l.contains(l[j]));
                assert(r[i] == n && r[j] == l[j]);
            }
        }
    } else {
        assert(r =~= l);
    }
}

/// The rendered expansion list holds exactly the set flags, each exactly
/// once; the `attachments` flag is never rendered; and the list is empty
/// exactly where no flag is set.
pub proof fn lemma_expansions_exact(m: InterestModel)
    ensures
        expansion_names(m).contains("status"@) <==> m.status,
        expansion_names(m).contains("details"@) <==> m.details,
        expansion_names(m).contains("inspection"@) <==> m.inspection,
        expansion_names(m).contains("plain_body"@) <==> m.plain_body,
        expansion_names(m).contains("html_body"@) <==> m.html_body,
        expansion_names(m).contains("headers"@) <==> m.headers,
        expansion_names(m).contains("raw_message"@) <==> m.raw_message,
        !expansion_names(m).contains("attachments"@),
        expansion_names(m).no_duplicates(),
        expansion_names(m).len() == 0 <==> !(m.status || m.details || m.inspection
            || m.plain_body || m.html_body || m.headers || m.raw_message),
{
    reveal_strlit("status");
    reveal_strlit("details");
    reveal_strlit("inspection");
    reveal_strlit("plain_body");
    reveal_strlit("html_body");
    reveal_strlit("headers");
    reveal_strlit("raw_message");
    reveal_strlit("attachments");
    assert("status"@.len() == 6 && "details"@.len() == 7 && "inspection"@.len() == 10);
    assert("plain_body"@.len() == 10 && "html_body"@.len() == 9 && "headers"@.len() == 7);
    assert("raw_message"@.len() == 11 && "attachments"@.len() == 11);
    assert("status"@[0] == 's' && "details"@[0] == 'd' && "inspection"@[0] == 'i');
    assert("plain_body"@[0] == 'p' && "html_body"@[0] == 'h' && "headers"@[0] == 'h');
    assert("raw_message"@[0] == 'r' && "attachments"@[0] == 'a');
    let c1: Seq<Seq<char>> = if m.status {
        seq!["status"@]
    } else {
        seq![]
    };
    let p2 = c1 + (if m.details {
        seq!["details"@]
    } else {
        seq![]
    });
    let p3 = p2 + (if m.inspection {
        seq!["inspection"@]
    } else {
        seq![]
    });
    let p4 = p3 + (if m.plain_body {
        seq!["plain_body"@]
    } else {
        seq![]
    });
    let p5 = p4 + (if m.html_body {
        seq!["html_body"@]
    } else {
        seq![]
    });
    let p6 = p5 + (if m.headers {
        seq!["headers"@]
    } else {
        seq![]
    });
    let p7 = p6 + (if m.raw_message {
        seq!["raw_message"@]
    } else {
        seq![]
    });
    assert(Seq::<Seq<char>>::empty() + c1 =~= c1);
    lemma_flag_concat_contains(Seq::empty(), m.status, "status"@, c1);
    lemma_flag_concat_contains(c1, m.details, "details"@, p2);
    lemma_flag_concat_contains(p2, m.inspection, "inspection"@, p3);
    lemma_flag_concat_contains(p3, m.plain_body, "plain_body"@, p4);
    lemma_flag_concat_contains(p4, m.html_body, "html_body"@, p5);
    lemma_flag_concat_contains(p5, m.headers, "headers"@, p6);
    lemma_flag_concat_contains(p6, m.raw_message, "raw_message"@, p7);
    lemma_flag_concat_no_dup(Seq::empty(), m.status, "status"@);
    lemma_flag_concat_no_dup(c1, m.details, "details"@);
    lemma_flag_concat_no_dup(p2, m.inspection, "inspection"@);
    lemma_flag_concat_no_dup(p3, m.plain_body, "plain_body"@);
    lemma_flag_concat_no_dup(p4, m.html_body, "html_body"@);
    lemma_flag_concat_no_dup(p5, m.headers, "headers"@);
    lemma_flag_concat_no_dup(p6, m.raw_message, "raw_message"@);
    assert(expansion_names(m) == p7);
}


} // verus!
