//! SendGrid: the request that its mail-send endpoint is handed, and what
//! its answer means.

use crate::generic_mailer::GenericMailerError;
use crate::json::json_array;
use crate::json::json_model;
use crate::json::json_models;
use crate::json::json_object;
use crate::json::json_string;
use crate::json::map_insert;
use crate::json::map_model;
use crate::json::map_new;
use crate::json::JsonView;
use crate::mailers::http::address_json;
use crate::mailers::http::addresses_json;
use crate::mailers::http::build_address;
use crate::mailers::http::build_addresses;
use crate::mailers::http::is_outcome;
use crate::mailers::http::is_success;
use crate::mailers::http::spec_is_success;
use crate::message::Message;
use crate::message::MessageView;
use crate::text::as_str;
use crate::text::pair_texts;
use std::borrow::Cow;
use vstd::prelude::*;

verus! {

/// One body of a message with its media type, as a JSON object.
pub open spec fn typed_content(media_type: Seq<char>, value: Seq<char>) -> JsonView {
    JsonView::Object(map!["type"@ => JsonView::Text(media_type), "value"@ => JsonView::Text(value)])
}

/// The bodies of a message: the plain text first, then the HTML, each
/// where the message has it.
pub open spec fn content_json(m: MessageView) -> Seq<JsonView> {
    let text = match m.text_body {
        Some(body) => seq![typed_content("text/plain"@, body)],
        None => Seq::empty(),
    };
    match m.html_body {
        Some(body) => text.push(typed_content("text/html"@, body)),
        None => text,
    }
}

/// The recipients of a message: `to` always, `cc` and `bcc` where there
/// are any.
pub open spec fn personalization_json(m: MessageView) -> JsonView {
    let to = map!["to"@ => addresses_json(m.to)];
    let with_cc = if m.cc.len() > 0 {
        to.insert("cc"@, addresses_json(m.cc))
    } else {
        to
    };
    let with_bcc = if m.bcc.len() > 0 {
        with_cc.insert("bcc"@, addresses_json(m.bcc))
    } else {
        with_cc
    };
    JsonView::Object(with_bcc)
}

/// Keys and values as the entries of a JSON object whose values are
/// strings. Where a key comes twice, its later value stays.
pub open spec fn entries_json(pairs: Seq<(Seq<char>, Seq<char>)>) -> Map<Seq<char>, JsonView>
    decreases pairs.len(),
{
    if pairs.len() == 0 {
        Map::empty()
    } else {
        entries_json(pairs.drop_last()).insert(pairs.last().0, JsonView::Text(pairs.last().1))
    }
}

/// The body of the request that sends a message. Sender, recipients,
/// subject and content are always there; each of the other keys only where
/// the message has something to put under it.
pub open spec fn request_json(m: MessageView) -> JsonView {
    let required = map![
        "from"@ => address_json(m.from),
        "personalizations"@ => JsonView::Array(seq![personalization_json(m)]),
        "subject"@ => JsonView::Text(m.subject),
        "content"@ => JsonView::Array(content_json(m)),
    ];
    let with_reply_to = match m.reply_to {
        Some(a) => required.insert("reply_to"@, address_json(a)),
        None => required,
    };
    let with_headers = if m.headers.len() > 0 {
        with_reply_to.insert("headers"@, JsonView::Object(entries_json(m.headers)))
    } else {
        with_reply_to
    };
    let with_categories = match m.category {
        Some(c) => with_headers.insert("categories"@, JsonView::Array(seq![JsonView::Text(c)])),
        None => with_headers,
    };
    let with_custom_args = if m.metadata.len() > 0 {
        with_categories.insert("custom_args"@, JsonView::Object(entries_json(m.metadata)))
    } else {
        with_categories
    };
    JsonView::Object(with_custom_args)
}

/// What stands under each key of the request: sender, recipients, subject
/// and content always; `reply_to`, `headers`, `categories` and
/// `custom_args` exactly where the message has them; and no other key.
pub proof fn lemma_request_json(m: MessageView)
    ensures
        request_json(m) is Object,
        ({
            let o = request_json(m)->Object_0;
            &&& o.contains_key("from"@) && o["from"@] == address_json(m.from)
            &&& o.contains_key("personalizations"@) && o["personalizations"@] == JsonView::Array(
                seq![personalization_json(m)],
            )
            &&& o.contains_key("subject"@) && o["subject"@] == JsonView::Text(m.subject)
            &&& o.contains_key("content"@) && o["content"@] == JsonView::Array(content_json(m))
            &&& o.contains_key("reply_to"@) <==> m.reply_to is Some
            &&& m.reply_to is Some ==> o["reply_to"@] == address_json(m.reply_to->0)
            &&& o.contains_key("headers"@) <==> m.headers.len() > 0
            &&& m.headers.len() > 0 ==> o["headers"@] == JsonView::Object(entries_json(m.headers))
            &&& o.contains_key("categories"@) <==> m.category is Some
            &&& m.category is Some ==> o["categories"@] == JsonView::Array(
                seq![JsonView::Text(m.category->0)],
            )
            &&& o.contains_key("custom_args"@) <==> m.metadata.len() > 0
            &&& m.metadata.len() > 0 ==> o["custom_args"@] == JsonView::Object(
                entries_json(m.metadata),
            )
            &&& forall|k: Seq<char>| #[trigger]
                o.contains_key(k) ==> k == "from"@ || k == "personalizations"@ || k == "subject"@
                    || k == "content"@ || k == "reply_to"@ || k == "headers"@ || k
                    == "categories"@ || k == "custom_args"@
        }),
{
    lemma_keys_differ();
}

/// The recipients stand under `to`, `cc` and `bcc`, the last two exactly
/// where there are any, and under no other key.
pub proof fn lemma_personalization_json(m: MessageView)
    ensures
        personalization_json(m) is Object,
        ({
            let o = personalization_json(m)->Object_0;
            &&& o.contains_key("to"@) && o["to"@] == addresses_json(m.to)
            &&& o.contains_key("cc"@) <==> m.cc.len() > 0
            &&& m.cc.len() > 0 ==> o["cc"@] == addresses_json(m.cc)
            &&& o.contains_key("bcc"@) <==> m.bcc.len() > 0
            &&& m.bcc.len() > 0 ==> o["bcc"@] == addresses_json(m.bcc)
            &&& forall|k: Seq<char>| #[trigger]
                o.contains_key(k) ==> k == "to"@ || k == "cc"@ || k == "bcc"@
        }),
{
    reveal_strlit("to");
    reveal_strlit("cc");
    reveal_strlit("bcc");
    assert("to"@.len() == 2 && "cc"@.len() == 2 && "bcc"@.len() == 3);
    assert("to"@[0] == 't' && "cc"@[0] == 'c');
}

/// The entries of a JSON object of strings: a key is there exactly when
/// some pair has it, and it holds the value of the last pair that has it.
pub proof fn lemma_entries_json(pairs: Seq<(Seq<char>, Seq<char>)>, key: Seq<char>)
    ensures
        entries_json(pairs).contains_key(key) <==> exists|i: int|
            0 <= i < pairs.len() && #[trigger] pairs[i].0 == key,
        forall|i: int|
            0 <= i < pairs.len() && #[trigger] pairs[i].0 == key && (forall|j: int|
                i < j < pairs.len() ==> #[trigger] pairs[j].0 != key) ==> entries_json(pairs)[key]
                == JsonView::Text(pairs[i].1),
    decreases pairs.len(),
{
    if pairs.len() > 0 {
        let front = pairs.drop_last();
        lemma_entries_json(front, key);
        let n = pairs.len() - 1;
        if pairs[n].0 == key {
            assert(entries_json(pairs).contains_key(key));
        } else {
            if entries_json(pairs).contains_key(key) {
                let i = choose|i: int| 0 <= i < front.len() && #[trigger] front[i].0 == key;
                assert(pairs[i].0 == key);
            }
            if exists|i: int| 0 <= i < pairs.len() && #[trigger] pairs[i].0 == key {
                let i = choose|i: int| 0 <= i < pairs.len() && #[trigger] pairs[i].0 == key;
                assert(front[i].0 == key);
            }
        }
        assert forall|i: int|
            0 <= i < pairs.len() && #[trigger] pairs[i].0 == key && (forall|j: int|
                i < j < pairs.len() ==> #[trigger] pairs[j].0 != key) implies entries_json(
            pairs,
        )[key] == JsonView::Text(pairs[i].1) by {
            if i < n {
                assert(front[i].0 == key);
                assert forall|j: int| i < j < front.len() implies #[trigger] front[j].0 != key by {
                    assert(pairs[j].0 != key);
                }
                assert(pairs[n].0 != key);
            }
        }
    }
}

/// No two keys of the request are the same.
proof fn lemma_keys_differ()
    ensures
        "from"@ != "personalizations"@,
        "from"@ != "subject"@,
        "from"@ != "content"@,
        "from"@ != "reply_to"@,
        "from"@ != "headers"@,
        "from"@ != "categories"@,
        "from"@ != "custom_args"@,
        "personalizations"@ != "subject"@,
        "personalizations"@ != "content"@,
        "personalizations"@ != "reply_to"@,
        "personalizations"@ != "headers"@,
        "personalizations"@ != "categories"@,
        "personalizations"@ != "custom_args"@,
        "subject"@ != "content"@,
        "subject"@ != "reply_to"@,
        "subject"@ != "headers"@,
        "subject"@ != "categories"@,
        "subject"@ != "custom_args"@,
        "content"@ != "reply_to"@,
        "content"@ != "headers"@,
        "content"@ != "categories"@,
        "content"@ != "custom_args"@,
        "reply_to"@ != "headers"@,
        "reply_to"@ != "categories"@,
        "reply_to"@ != "custom_args"@,
        "headers"@ != "categories"@,
        "headers"@ != "custom_args"@,
        "categories"@ != "custom_args"@,
{
    reveal_strlit("from");
    reveal_strlit("personalizations");
    reveal_strlit("subject");
    reveal_strlit("content");
    reveal_strlit("reply_to");
    reveal_strlit("headers");
    reveal_strlit("categories");
    reveal_strlit("custom_args");
    assert("from"@.len() == 4 && "personalizations"@.len() == 16);
    assert("subject"@.len() == 7 && "content"@.len() == 7 && "headers"@.len() == 7);
    assert("reply_to"@.len() == 8 && "categories"@.len() == 10 && "custom_args"@.len() == 11);
    assert("subject"@[0] == 's' && "content"@[0] == 'c' && "headers"@[0] == 'h');
}

/// One body with its media type.
fn build_typed_content(media_type: &str, value: &str) -> (r: serde_json::Value)
    ensures
        json_model(r) == typed_content(media_type@, value@),
{
    let mut entries = map_new();
    map_insert(&mut entries, "type".to_owned(), json_string(media_type));
    map_insert(&mut entries, "value".to_owned(), json_string(value));
    json_object(entries)
}

/// The bodies of the message, each with its media type.
pub fn build_content(m: &Message<'_>) -> (r: Vec<serde_json::Value>)
    ensures
        json_models(r@) == content_json(m@),
{
    let mut content: Vec<serde_json::Value> = Vec::new();
    assert(json_models(content@) =~= Seq::<JsonView>::empty());

    if let Some(body) = &m.text_body {
        content.push(build_typed_content("text/plain", as_str(body)));
        assert(json_models(content@) =~= seq![typed_content("text/plain"@, body@)]);
    }
    let ghost text = json_models(content@);

    if let Some(body) = &m.html_body {
        content.push(build_typed_content("text/html", as_str(body)));
        assert(json_models(content@) =~= text.push(typed_content("text/html"@, body@)));
    }

    content
}

/// The recipients of the message.
pub fn build_personalization(m: &Message<'_>) -> (r: serde_json::Value)
    ensures
        json_model(r) == personalization_json(m@),
{
    let mut personalization = map_new();
    map_insert(&mut personalization, "to".to_owned(), build_addresses(m.to.as_slice()));

    if !m.cc.is_empty() {
        map_insert(&mut personalization, "cc".to_owned(), build_addresses(m.cc.as_slice()));
    }

    if !m.bcc.is_empty() {
        map_insert(&mut personalization, "bcc".to_owned(), build_addresses(m.bcc.as_slice()));
    }

    json_object(personalization)
}

/// Keys and values as a JSON object whose values are strings.
fn build_entries(pairs: &[(Cow<'_, str>, Cow<'_, str>)]) -> (r: serde_json::Value)
    ensures
        json_model(r) == JsonView::Object(entries_json(pair_texts(pairs@))),
{
    let ghost texts = pair_texts(pairs@);
    let mut entries = map_new();
    let mut i: usize = 0;
    assert(texts.take(0) =~= Seq::<(Seq<char>, Seq<char>)>::empty());
    while i < pairs.len()
        invariant
            i <= pairs.len(),
            texts == pair_texts(pairs@),
            map_model(entries) == entries_json(texts.take(i as int)),
        decreases pairs.len() - i,
    {
        proof {
            let next = texts.take(i + 1);
            assert(next.drop_last() =~= texts.take(i as int));
            assert(next.last() == (pairs@[i as int].0@, pairs@[i as int].1@));
        }
        let pair = &pairs[i];
        map_insert(&mut entries, as_str(&pair.0).to_owned(), json_string(as_str(&pair.1)));
        i += 1;
    }
    assert(texts.take(i as int) =~= texts);
    json_object(entries)
}

/// The body of the request that sends the message.
pub fn build_request(m: &Message<'_>) -> (r: serde_json::Value)
    ensures
        json_model(r) == request_json(m@),
{
    let mut personalizations: Vec<serde_json::Value> = Vec::new();
    personalizations.push(build_personalization(m));
    assert(json_models(personalizations@) =~= seq![personalization_json(m@)]);

    let mut req = map_new();
    map_insert(&mut req, "from".to_owned(), build_address(&m.from));
    map_insert(&mut req, "personalizations".to_owned(), json_array(personalizations));
    map_insert(&mut req, "subject".to_owned(), json_string(as_str(&m.subject)));
    map_insert(&mut req, "content".to_owned(), json_array(build_content(m)));

    if let Some(reply_to) = &m.reply_to {
        map_insert(&mut req, "reply_to".to_owned(), build_address(reply_to));
    }

    if !m.headers.is_empty() {
        map_insert(&mut req, "headers".to_owned(), build_entries(m.headers.as_slice()));
    }

    if let Some(category) = &m.category {
        let mut categories: Vec<serde_json::Value> = Vec::new();
        categories.push(json_string(as_str(category)));
        assert(json_models(categories@) =~= seq![JsonView::Text(category@)]);
        map_insert(&mut req, "categories".to_owned(), json_array(categories));
    }

    if !m.metadata.is_empty() {
        map_insert(&mut req, "custom_args".to_owned(), build_entries(m.metadata.as_slice()));
    }

    json_object(req)
}

/// The outcome of a delivery, given the answer's status, its body, and the
/// header `x-message-id` where the answer has one that is text: that one
/// identifier or none, or the status and the body of an answer that is no
/// success.
pub open spec fn outcome(status: u16, body: Seq<char>, x_message_id: Option<Seq<char>>) -> Result<
    Seq<Seq<char>>,
    (u16, Seq<char>),
> {
    if !spec_is_success(status) {
        Err((status, body))
    } else {
        match x_message_id {
            Some(id) => Ok(seq![id]),
            None => Ok(Seq::empty()),
        }
    }
}

/// The characters of an optional string.
pub open spec fn opt_string(s: Option<String>) -> Option<Seq<char>> {
    match s {
        Some(s) => Some(s@),
        None => None,
    }
}

/// What an answer of the mail-send endpoint means. `body` is read only
/// where the status is no success. The header is no message identifier
/// itself but the start of every identifier of the message.
pub fn read_response(status: u16, body: String, x_message_id: Option<String>) -> (r: Result<
    Vec<String>,
    GenericMailerError,
>)
    ensures
        is_outcome(r, outcome(status, body@, opt_string(x_message_id))),
{
    if !is_success(status) {
        return Err(GenericMailerError::UnexpectedResponse(status, body));
    }
    let mut ids: Vec<String> = Vec::new();
    if let Some(id) = x_message_id {
        ids.push(id);
    }
    assert(crate::mailers::http::string_views(ids@) =~= match opt_string(x_message_id) {
        Some(id) => seq![id],
        None => Seq::empty(),
    });
    Ok(ids)
}

} // verus!
