//! What the backends that speak JSON over HTTP have in common.

use crate::address::address_views;
use crate::address::Address;
use crate::address::AddressView;
use crate::generic_mailer::GenericMailerError;
use crate::json::json_array;
use crate::json::json_model;
use crate::json::json_models;
use crate::json::json_object;
use crate::json::json_string;
use crate::json::map_insert;
use crate::json::map_new;
use crate::json::JsonView;
use crate::text::as_str;
use vstd::prelude::*;

verus! {

/// An address as a JSON object: its email, and its name where it has one.
pub open spec fn address_json(a: AddressView) -> JsonView {
    JsonView::Object(
        match a.name {
            Some(name) => map![
                "email"@ => JsonView::Text(a.email),
                "name"@ => JsonView::Text(name),
            ],
            None => map!["email"@ => JsonView::Text(a.email)],
        },
    )
}

/// Addresses as a JSON array of such objects, in order.
pub open spec fn addresses_json(addrs: Seq<AddressView>) -> JsonView {
    JsonView::Array(addrs.map_values(|a: AddressView| address_json(a)))
}

/// The object of an address holds the email under `email`, the name under
/// `name` where the address has one, and nothing else.
pub proof fn lemma_address_json(a: AddressView)
    ensures
        address_json(a) is Object,
        address_json(a)->Object_0.contains_key("email"@),
        address_json(a)->Object_0["email"@] == JsonView::Text(a.email),
        address_json(a)->Object_0.contains_key("name"@) <==> a.name is Some,
        a.name is Some ==> address_json(a)->Object_0["name"@] == JsonView::Text(a.name->0),
        forall|k: Seq<char>| #[trigger]
            address_json(a)->Object_0.contains_key(k) ==> k == "email"@ || k == "name"@,
{
    reveal_strlit("email");
    reveal_strlit("name");
    assert("email"@ != "name"@) by {
        assert("email"@.len() != "name"@.len());
    }
}

/// The address as a JSON object.
pub fn build_address(addr: &Address<'_>) -> (r: serde_json::Value)
    ensures
        json_model(r) == address_json(addr@),
{
    let mut entries = map_new();
    map_insert(&mut entries, "email".to_owned(), json_string(as_str(&addr.email)));
    if let Some(name) = &addr.name {
        map_insert(&mut entries, "name".to_owned(), json_string(as_str(name)));
    }
    json_object(entries)
}

/// The addresses as a JSON array, in order.
pub fn build_addresses(addrs: &[Address<'_>]) -> (r: serde_json::Value)
    ensures
        json_model(r) == addresses_json(address_views(addrs@)),
{
    let ghost views = address_views(addrs@);
    let mut items: Vec<serde_json::Value> = Vec::new();
    let mut i: usize = 0;
    while i < addrs.len()
        invariant
            i <= addrs.len(),
            views == address_views(addrs@),
            json_models(items@) == views.take(i as int).map_values(
                |a: AddressView| address_json(a),
            ),
        decreases addrs.len() - i,
    {
        let ghost before = items@;
        items.push(build_address(&addrs[i]));
        proof {
            assert(json_models(items@) =~= json_models(before).push(address_json(views[i as int])));
            assert(views.take(i + 1).map_values(|a: AddressView| address_json(a)) =~= views.take(
                i as int,
            ).map_values(|a: AddressView| address_json(a)).push(address_json(views[i as int])));
        }
        i += 1;
    }
    assert(views.take(i as int) =~= views);
    json_array(items)
}

/// True for the status codes of success, 200 to 299.
pub open spec fn spec_is_success(status: u16) -> bool {
    200 <= status < 300
}

/// Tells whether a status code is one of success.
pub fn is_success(status: u16) -> (r: bool)
    ensures
        r == spec_is_success(status),
{
    200 <= status && status < 300
}

/// The characters of each string, in order.
pub open spec fn string_views(ids: Seq<String>) -> Seq<Seq<char>> {
    ids.map_values(|s: String| s@)
}

/// True when a result of a delivery is the given outcome: the same
/// identifiers, or the failure that carries the same status and body.
pub open spec fn is_outcome(
    r: Result<Vec<String>, GenericMailerError>,
    expected: Result<Seq<Seq<char>>, (u16, Seq<char>)>,
) -> bool {
    match r {
        Ok(ids) => expected == Ok::<Seq<Seq<char>>, (u16, Seq<char>)>(string_views(ids@)),
        Err(GenericMailerError::UnexpectedResponse(status, body)) => expected == Err::<
            Seq<Seq<char>>,
            (u16, Seq<char>),
        >((status, body@)),
        Err(GenericMailerError::UnexpectedError(_)) => false,
    }
}

} // verus!
