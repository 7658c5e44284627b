//! Mailtrap: the request that its send endpoint is handed, and what its
//! answer means.

use crate::generic_mailer::GenericMailerError;
use crate::json::json_as_array;
use crate::json::json_as_bool;
use crate::json::json_as_str;
use crate::json::json_from_str;
use crate::json::json_from_text;
use crate::json::json_get;
use crate::json::json_model;
use crate::json::json_models;
use crate::json::json_object;
use crate::json::json_string;
use crate::json::map_insert;
use crate::json::map_new;
use crate::json::JsonView;
use crate::mailers::http::address_json;
use crate::mailers::http::addresses_json;
use crate::mailers::http::build_address;
use crate::mailers::http::build_addresses;
use crate::mailers::http::is_outcome;
use crate::mailers::http::is_success;
use crate::mailers::http::spec_is_success;
use crate::mailers::http::string_views;
use crate::message::Message;
use crate::message::MessageView;
use crate::text::as_str;
use vstd::prelude::*;

verus! {

/// The body of the request that sends a message. Sender, recipients and
/// subject are always there; each of the other keys only where the message
/// has something to put under it.
pub open spec fn request_json(m: MessageView) -> JsonView {
    let required = map![
        "from"@ => address_json(m.from),
        "to"@ => addresses_json(m.to),
        "subject"@ => JsonView::Text(m.subject),
    ];
    let with_cc = if m.cc.len() > 0 {
        required.insert("cc"@, addresses_json(m.cc))
    } else {
        required
    };
    let with_bcc = if m.bcc.len() > 0 {
        with_cc.insert("bcc"@, addresses_json(m.bcc))
    } else {
        with_cc
    };
    let with_reply_to = match m.reply_to {
        Some(a) => with_bcc.insert("reply_to"@, address_json(a)),
        None => with_bcc,
    };
    let with_text = match m.text_body {
        Some(body) => with_reply_to.insert("text"@, JsonView::Text(body)),
        None => with_reply_to,
    };
    let with_html = match m.html_body {
        Some(body) => with_text.insert("html"@, JsonView::Text(body)),
        None => with_text,
    };
    JsonView::Object(with_html)
}

/// What stands under each key of the request: sender, recipients and
/// subject always; `cc`, `bcc`, `reply_to`, `text` and `html` exactly where
/// the message has them; and no other key.
pub proof fn lemma_request_json(m: MessageView)
    ensures
        request_json(m) is Object,
        ({
            let o = request_json(m)->Object_0;
            &&& o.contains_key("from"@) && o["from"@] == address_json(m.from)
            &&& o.contains_key("to"@) && o["to"@] == addresses_json(m.to)
            &&& o.contains_key("subject"@) && o["subject"@] == JsonView::Text(m.subject)
            &&& o.contains_key("cc"@) <==> m.cc.len() > 0
            &&& m.cc.len() > 0 ==> o["cc"@] == addresses_json(m.cc)
            &&& o.contains_key("bcc"@) <==> m.bcc.len() > 0
            &&& m.bcc.len() > 0 ==> o["bcc"@] == addresses_json(m.bcc)
            &&& o.contains_key("reply_to"@) <==> m.reply_to is Some
            &&& m.reply_to is Some ==> o["reply_to"@] == address_json(m.reply_to->0)
            &&& o.contains_key("text"@) <==> m.text_body is Some
            &&& m.text_body is Some ==> o["text"@] == JsonView::Text(m.text_body->0)
            &&& o.contains_key("html"@) <==> m.html_body is Some
            &&& m.html_body is Some ==> o["html"@] == JsonView::Text(m.html_body->0)
            &&& forall|k: Seq<char>| #[trigger]
                o.contains_key(k) ==> k == "from"@ || k == "to"@ || k == "subject"@ || k == "cc"@
                    || k == "bcc"@ || k == "reply_to"@ || k == "text"@ || k == "html"@
        }),
{
    lemma_keys_differ();
}

/// No two keys of the request are the same.
proof fn lemma_keys_differ()
    ensures
        "from"@ != "to"@,
        "from"@ != "subject"@,
        "from"@ != "cc"@,
        "from"@ != "bcc"@,
        "from"@ != "reply_to"@,
        "from"@ != "text"@,
        "from"@ != "html"@,
        "to"@ != "subject"@,
        "to"@ != "cc"@,
        "to"@ != "bcc"@,
        "to"@ != "reply_to"@,
        "to"@ != "text"@,
        "to"@ != "html"@,
        "subject"@ != "cc"@,
        "subject"@ != "bcc"@,
        "subject"@ != "reply_to"@,
        "subject"@ != "text"@,
        "subject"@ != "html"@,
        "cc"@ != "bcc"@,
        "cc"@ != "reply_to"@,
        "cc"@ != "text"@,
        "cc"@ != "html"@,
        "bcc"@ != "reply_to"@,
        "bcc"@ != "text"@,
        "bcc"@ != "html"@,
        "reply_to"@ != "text"@,
        "reply_to"@ != "html"@,
        "text"@ != "html"@,
{
    reveal_strlit("from");
    reveal_strlit("to");
    reveal_strlit("subject");
    reveal_strlit("cc");
    reveal_strlit("bcc");
    reveal_strlit("reply_to");
    reveal_strlit("text");
    reveal_strlit("html");
    assert("from"@.len() == 4 && "text"@.len() == 4 && "html"@.len() == 4);
    assert("to"@.len() == 2 && "cc"@.len() == 2 && "bcc"@.len() == 3);
    assert("subject"@.len() == 7 && "reply_to"@.len() == 8);
    assert("from"@[0] == 'f' && "text"@[0] == 't' && "html"@[0] == 'h');
    assert("to"@[0] == 't' && "cc"@[0] == 'c');
}

/// The body of the request that sends the message.
pub fn build_request(m: &Message<'_>) -> (r: serde_json::Value)
    ensures
        json_model(r) == request_json(m@),
{
    let mut req = map_new();
    map_insert(&mut req, "from".to_owned(), build_address(&m.from));
    map_insert(&mut req, "to".to_owned(), build_addresses(m.to.as_slice()));
    map_insert(&mut req, "subject".to_owned(), json_string(as_str(&m.subject)));

    if !m.cc.is_empty() {
        map_insert(&mut req, "cc".to_owned(), build_addresses(m.cc.as_slice()));
    }

    if !m.bcc.is_empty() {
        map_insert(&mut req, "bcc".to_owned(), build_addresses(m.bcc.as_slice()));
    }

    if let Some(reply_to) = &m.reply_to {
        map_insert(&mut req, "reply_to".to_owned(), build_address(reply_to));
    }

    if let Some(body) = &m.text_body {
        map_insert(&mut req, "text".to_owned(), json_string(as_str(body)));
    }

    if let Some(body) = &m.html_body {
        map_insert(&mut req, "html".to_owned(), json_string(as_str(body)));
    }

    json_object(req)
}

/// The boolean under a key of a JSON object, where there is one.
pub open spec fn bool_under(doc: JsonView, key: Seq<char>) -> Option<bool> {
    match doc {
        JsonView::Object(m) => if m.contains_key(key) {
            match m[key] {
                JsonView::Bool(b) => Some(b),
                _ => None,
            }
        } else {
            None
        },
        _ => None,
    }
}

/// The items of the array under a key of a JSON object, where there is
/// one.
pub open spec fn items_under(doc: JsonView, key: Seq<char>) -> Option<Seq<JsonView>> {
    match doc {
        JsonView::Object(m) => if m.contains_key(key) {
            match m[key] {
                JsonView::Array(items) => Some(items),
                _ => None,
            }
        } else {
            None
        },
        _ => None,
    }
}

/// The strings among the items, in order; what is no string is passed
/// over.
pub open spec fn texts_among(items: Seq<JsonView>) -> Seq<Seq<char>>
    decreases items.len(),
{
    if items.len() == 0 {
        Seq::empty()
    } else {
        match items.last() {
            JsonView::Text(s) => texts_among(items.drop_last()).push(s),
            _ => texts_among(items.drop_last()),
        }
    }
}

/// The message identifiers that an answer names: the strings under
/// `message_ids`, where the answer is a JSON object with `success` set to
/// true and an array under `message_ids`.
pub open spec fn message_ids(doc: JsonView) -> Option<Seq<Seq<char>>> {
    if bool_under(doc, "success"@) == Some(true) {
        match items_under(doc, "message_ids"@) {
            Some(items) => Some(texts_among(items)),
            None => None,
        }
    } else {
        None
    }
}

/// The outcome of a delivery, given the answer's status, its body, and what
/// reading the body as JSON gave: the identifiers, or the status and the
/// body of an answer that is no success.
pub open spec fn outcome(
    status: u16,
    body: Seq<char>,
    reply: Result<serde_json::Value, serde_json::Error>,
) -> Result<Seq<Seq<char>>, (u16, Seq<char>)> {
    if !spec_is_success(status) {
        Err((status, body))
    } else {
        match reply {
            Ok(doc) => match message_ids(json_model(doc)) {
                Some(ids) => Ok(ids),
                None => Err((status, body)),
            },
            Err(_) => Err((status, body)),
        }
    }
}

/// The strings among the items of a JSON array.
fn collect_texts(items: &Vec<serde_json::Value>) -> (r: Vec<String>)
    ensures
        string_views(r@) == texts_among(json_models(items@)),
{
    let ghost models = json_models(items@);
    let mut ids: Vec<String> = Vec::new();
    let mut i: usize = 0;
    while i < items.len()
        invariant
            i <= items.len(),
            models == json_models(items@),
            string_views(ids@) == texts_among(models.take(i as int)),
        decreases items.len() - i,
    {
        proof {
            let next = models.take(i + 1);
            assert(next.drop_last() =~= models.take(i as int));
            assert(next.last() == json_model(items@[i as int]));
        }
        let ghost before = ids@;
        if let Some(s) = json_as_str(&items[i]) {
            ids.push(s.to_owned());
            assert(string_views(ids@) =~= string_views(before).push(s@));
        }
        i += 1;
    }
    assert(models.take(i as int) =~= models);
    ids
}

/// What an answer means once its body has been read as JSON. `reply` is
/// what that reading gave.
pub fn read_reply(
    status: u16,
    body: String,
    reply: Result<serde_json::Value, serde_json::Error>,
) -> (r: Result<Vec<String>, GenericMailerError>)
    ensures
        is_outcome(r, outcome(status, body@, reply)),
{
    if !is_success(status) {
        return Err(GenericMailerError::UnexpectedResponse(status, body));
    }
    let doc = match reply {
        Ok(doc) => doc,
        Err(_) => {
            return Err(GenericMailerError::UnexpectedResponse(status, body));
        },
    };
    let success = match json_get(&doc, "success") {
        Some(v) => json_as_bool(v),
        None => None,
    };
    match success {
        Some(true) => {},
        _ => {
            return Err(GenericMailerError::UnexpectedResponse(status, body));
        },
    }
    let items = match json_get(&doc, "message_ids") {
        Some(v) => json_as_array(v),
        None => None,
    };
    match items {
        Some(items) => Ok(collect_texts(items)),
        None => Err(GenericMailerError::UnexpectedResponse(status, body)),
    }
}

/// What an answer of the send endpoint means. An answer whose status is no
/// success, or whose body is no JSON object with `success` set to true and
/// an array under `message_ids`, is a failure that carries the status and
/// the body. Any other answer gives the strings of that array.
pub fn read_response(status: u16, body: String) -> (r: Result<Vec<String>, GenericMailerError>)
    ensures
        is_outcome(r, outcome(status, body@, json_from_text(body@))),
{
    if !is_success(status) {
        return Err(GenericMailerError::UnexpectedResponse(status, body));
    }
    let reply = json_from_str(body.as_str());
    read_reply(status, body, reply)
}

} // verus!
