//! Ticket building for the NinjaOne ticketing API, and the choices taken on its answers.
use vstd::prelude::*;
use crate::structures::{
    field, field_text, CcEmail, FormData, Ticket, TicketAttributes, TicketDescription,
};
use crate::text::{join, join_texts, lemma_unquote, quoted, texts, trim, trim_chars, TrimSet};
use serde_json::Value;

verus! {

/// Each part followed by `suffix`.
pub open spec fn with_suffix(parts: Seq<Seq<char>>, suffix: Seq<char>) -> Seq<Seq<char>> {
    Seq::new(parts.len(), |i: int| parts[i] + suffix)
}

/// The description of a ticket: public, its paragraphs one per line as plain
/// text, and each followed by `<br>` as HTML.
pub fn build_description(form_data: &FormData) -> (d: TicketDescription)
    requires
        form_data.has_paragraph_fields(),
    ensures
        d.public,
        d.body@ == join(form_data.paragraphs(), "\n"@),
        d.html_body@ == join(with_suffix(form_data.paragraphs(), "<br>"@), ""@),
{
    let mut html_vec: Vec<String> = Vec::new();
    let mut plain_vec: Vec<String> = Vec::new();
    let paragraphs = form_data.as_vec();
    let n = paragraphs.len();
    let mut i: usize = 0;
    while i < n
        invariant
            n == paragraphs@.len(),
            n == 4,
            forall|k: int| 0 <= k < 4 ==> #[trigger] paragraphs@[k]@ == form_data.paragraphs()[k],
            i <= n,
            plain_vec@.len() == i,
            html_vec@.len() == i,
            forall|k: int| 0 <= k < i ==> #[trigger] plain_vec@[k]@ == form_data.paragraphs()[k],
            forall|k: int| 0 <= k < i ==> #[trigger] html_vec@[k]@ == form_data.paragraphs()[k]
                + "<br>"@,
        decreases n - i,
    {
        let p = &paragraphs[i];
        plain_vec.push(p.clone());
        let mut h = p.clone();
        h.append("<br>");
        html_vec.push(h);
        i = i + 1;
    }
    assert(texts(plain_vec@) =~= form_data.paragraphs());
    assert(texts(html_vec@) =~= with_suffix(form_data.paragraphs(), "<br>"@));
    let html = join_texts(&html_vec, "");
    let plain = join_texts(&plain_vec, "\n");
    TicketDescription { public: true, body: plain, html_body: html }
}

/// The attributes of a ticket: name (id 28), email (id 29), extension (id 30)
/// and request type (id 27), in that order.
pub fn build_attributes(
    first: &String,
    last: &String,
    email: &String,
    extension: &String,
    request_type: &String,
) -> (attributes: Vec<TicketAttributes>)
    ensures
        attributes@.len() == 4,
        attributes@[0].attribute_id == 28,
        attributes@[0].value@ == first@ + " "@ + last@,
        attributes@[1].attribute_id == 29,
        attributes@[1].value@ == email@,
        attributes@[2].attribute_id == 30,
        attributes@[2].value@ == extension@,
        attributes@[3].attribute_id == 27,
        attributes@[3].value@ == request_type@,
{
    let mut attributes: Vec<TicketAttributes> = Vec::new();
    let mut name = first.clone();
    name.append(" ");
    name.append(last.as_str());
    attributes.push(TicketAttributes { attribute_id: 28, value: name });
    attributes.push(TicketAttributes { attribute_id: 29, value: email.clone() });
    attributes.push(TicketAttributes { attribute_id: 30, value: extension.clone() });
    attributes.push(TicketAttributes { attribute_id: 27, value: request_type.clone() });
    attributes
}

/// The form fields that `build_ticket` reads without a default are present.
pub open spec fn has_ticket_fields(f: FormData) -> bool {
    &&& f.has_paragraph_fields()
    &&& f.telephone.is_some()
    &&& f.request_type.is_some()
}

/// The ticket to create for a form, given the device and location ids found
/// for this computer and the id of the request type's attribute value.
pub fn build_ticket(id: (Option<i64>, Option<i64>), form_data: &FormData, request_type: String) -> (t:
    Ticket)
    requires
        id.0.is_some(),
        id.1.is_some(),
        has_ticket_fields(*form_data),
    ensures
        t.client_id == 2,
        t.ticket_form_id == 1,
        t.location_id == id.1.unwrap(),
        t.node_id == id.0.unwrap(),
        t.subject@ == "New Ticket Created: "@ + field(form_data.request_type),
        t.description.public,
        t.description.body@ == join(form_data.paragraphs(), "\n"@),
        t.description.html_body@ == join(with_suffix(form_data.paragraphs(), "<br>"@), ""@),
        t.status@ == "1000"@,
        t.cc.emails@.len() == 1,
        t.cc.emails@[0]@ == field(form_data.email),
        t.attributes@.len() == 4,
        t.attributes@[0].attribute_id == 28,
        t.attributes@[0].value@ == field(form_data.first_name) + " "@ + field(form_data.last_name),
        t.attributes@[1].attribute_id == 29,
        t.attributes@[1].value@ == field(form_data.email),
        t.attributes@[2].attribute_id == 30,
        t.attributes@[2].value@ == field(form_data.telephone),
        t.attributes@[3].attribute_id == 27,
        t.attributes@[3].value@ == request_type@,
{
    let location_id = match id.1 {
        Some(v) => v,
        None => unreached(),
    };
    let node_id = match id.0 {
        Some(v) => v,
        None => unreached(),
    };
    let mut emails: Vec<String> = Vec::new();
    emails.push(field_text(&form_data.email));
    let cc = CcEmail { emails };
    let mut subject = String::from_str("New Ticket Created: ");
    subject.append(field_text(&form_data.request_type).as_str());
    let first = field_text(&form_data.first_name);
    let last = field_text(&form_data.last_name);
    let email = field_text(&form_data.email);
    let telephone = field_text(&form_data.telephone);
    Ticket {
        client_id: 2,
        ticket_form_id: 1,
        location_id,
        node_id,
        subject,
        description: build_description(form_data),
        status: String::from_str("1000"),
        cc,
        attributes: build_attributes(&first, &last, &email, &telephone, &request_type),
    }
}

/// One value of the request-type attribute, as the JSON text of its name and of its id.
pub struct AttributeValue {
    pub name: String,
    pub id: String,
}

/// The (name, id) texts of a sequence of attribute values.
pub open spec fn attribute_texts(values: Seq<AttributeValue>) -> Seq<(Seq<char>, Seq<char>)> {
    values.map_values(|v: AttributeValue| (v.name@, v.id@))
}

/// The id text, with its quotes removed, of the last value whose unquoted
/// name is `ticket_type`; the empty text when no value has that name.
pub open spec fn selected_attribute_id(
    values: Seq<(Seq<char>, Seq<char>)>,
    ticket_type: Seq<char>,
) -> Seq<char>
    decreases values.len(),
{
    if values.len() == 0 {
        Seq::empty()
    } else if trim(values.last().0, TrimSet::Quote) == ticket_type {
        trim(values.last().1, TrimSet::Quote)
    } else {
        selected_attribute_id(values.drop_last(), ticket_type)
    }
}

/// A value whose name is the JSON string `ticket_type`, placed last, is the
/// one selected: its id comes back without its quotes. A later value with
/// another name does not change the selection.
pub proof fn lemma_select_quoted_name(
    values: Seq<(Seq<char>, Seq<char>)>,
    ticket_type: Seq<char>,
    id: Seq<char>,
    other: (Seq<char>, Seq<char>),
)
    requires
        forall|i: int| 0 <= i < ticket_type.len() ==> ticket_type[i] != '"',
        forall|i: int| 0 <= i < id.len() ==> id[i] != '"',
        trim(other.0, TrimSet::Quote) != ticket_type,
    ensures
        selected_attribute_id(values.push((quoted(ticket_type), quoted(id))), ticket_type) == id,
        selected_attribute_id(values.push((quoted(ticket_type), quoted(id))).push(other), ticket_type)
            == id,
{
    lemma_unquote(ticket_type);
    lemma_unquote(id);
    let v = values.push((quoted(ticket_type), quoted(id)));
    assert(v.push(other).drop_last() =~= v);
}

/// The id of the request-type value named `ticket_type` (the last one, if
/// several carry the name), without its JSON quotes.
pub fn select_attribute_id(values: &Vec<AttributeValue>, ticket_type: &String) -> (id: String)
    ensures
        id@ == selected_attribute_id(attribute_texts(values@), ticket_type@),
{
    let mut id = String::new();
    let n = values.len();
    let mut i: usize = 0;
    assert(trim(Seq::<char>::empty(), TrimSet::Quote) == Seq::<char>::empty());
    while i < n
        invariant
            n == values@.len(),
            i <= n,
            trim(id@, TrimSet::Quote) == selected_attribute_id(
                attribute_texts(values@.take(i as int)),
                ticket_type@,
            ),
        decreases n - i,
    {
        let name = trim_chars(values[i].name.as_str(), TrimSet::Quote);
        assert(attribute_texts(values@.take(i + 1)).drop_last() =~= attribute_texts(
            values@.take(i as int),
        ));
        if name == *ticket_type {
            id = values[i].id.clone();
        }
        i = i + 1;
    }
    assert(values@.take(n as int) =~= values@);
    trim_chars(id.as_str(), TrimSet::Quote)
}

/// The NinjaOne device search for this computer's name, limited to one result.
pub fn device_search_url(pc_name: &str) -> (url: String)
    ensures
        url@ == "https://jakesweeney.rmmservice.com/v2/devices/search?q="@ + pc_name@ + "&limit=1"@,
{
    let mut url = String::from_str("https://jakesweeney.rmmservice.com/v2/devices/search?q=");
    url.append(pc_name);
    url.append("&limit=1");
    url
}

/// What follows the NinjaOne answer to a ticket creation.
#[derive(Debug, Clone, Copy, PartialEq, Eq, Structural)]
pub enum SubmitOutcome {
    /// The ticket was created: it is forwarded to the ticket viewer and stored,
    /// and the front end is told the status code.
    Accepted(u16),
    /// The ticket was not created: the front end is told 500.
    Refused(u16),
}

/// The outcome of a ticket creation answered with HTTP status `status`: a
/// success status (200 to 299) is accepted and reported as is, any other is
/// reported as 500.
pub fn submission_outcome(status: u16) -> (res: SubmitOutcome)
    ensures
        200 <= status <= 299 ==> res == SubmitOutcome::Accepted(status),
        !(200 <= status <= 299) ==> res == SubmitOutcome::Refused(500),
{
    if 200 <= status && status <= 299 {
        SubmitOutcome::Accepted(status)
    } else {
        SubmitOutcome::Refused(500)
    }
}

#[verifier::external_type_specification]
#[verifier::external_body]
pub struct ExJsonError(serde_json::Error);

/// What serde_json reads from a JSON text: parsed as a `Value`, the entry
/// `list_key`, its element at `position`, and in it the fields `id_key` and
/// `location_key`, each taken with `Value::as_i64` (`None` where a step is
/// missing or not an integer); `None` as a whole when the text is not JSON.
pub uninterp spec fn json_first_ids(
    body: Seq<char>,
    list_key: Seq<char>,
    position: nat,
    id_key: Seq<char>,
    location_key: Seq<char>,
) -> Option<(Option<i64>, Option<i64>)>;

/// `serde_json::from_str::<Value>`, then indexing the parsed value (`Index`
/// for `Value` gives `Null` for a missing key or position and never panics)
/// and `Value::as_i64`. The result is a function of the text and the keys.
#[verifier::external_body]
fn parse_first_ids(
    body: &str,
    list_key: &str,
    position: usize,
    id_key: &str,
    location_key: &str,
) -> (res: Result<(Option<i64>, Option<i64>), serde_json::Error>)
    ensures
        match res {
            Ok(ids) => json_first_ids(body@, list_key@, position as nat, id_key@, location_key@)
                == Some(ids),
            Err(_) => json_first_ids(body@, list_key@, position as nat, id_key@, location_key@) is None,
        },
{
    let response: Value = serde_json::from_str(body)?;
    Ok((
        response[list_key][position][id_key].as_i64(),
        response[list_key][position][location_key].as_i64(),
    ))
}

/// Why a device-search answer gave no ids.
#[derive(Debug, Clone, Copy, PartialEq, Eq, Structural)]
pub enum DeviceSearchError {
    /// The answer is not JSON.
    NotJson,
}

/// The device id and location id that a NinjaOne device-search answer gives
/// for this computer: `devices[0].id` and `devices[0].locationId`, each as an
/// `i64` if present; `NotJson` when the answer is not JSON.
pub fn get_device_id(body: &str) -> (res: Result<(Option<i64>, Option<i64>), DeviceSearchError>)
    ensures
        match res {
            Ok(ids) => json_first_ids(body@, "devices"@, 0, "id"@, "locationId"@) == Some(ids),
            Err(e) => json_first_ids(body@, "devices"@, 0, "id"@, "locationId"@) is None && e
                == DeviceSearchError::NotJson,
        },
{
    match parse_first_ids(body, "devices", 0, "id", "locationId") {
        Ok(ids) => Ok(ids),
        Err(_) => Err(DeviceSearchError::NotJson),
    }
}

/// What serde_json reads from a JSON text: parsed as a `Value`, the element at
/// `position`, in it the entry `object_key`, in that the entry `array_key`;
/// when that is an array, for each element the `Value::to_string` texts of
/// its fields `name_key` and `id_key` (`null` where a field is missing).
/// `None` when the text is not JSON, `Some(None)` when the entry is not an array.
pub uninterp spec fn json_array_fields(
    body: Seq<char>,
    position: nat,
    object_key: Seq<char>,
    array_key: Seq<char>,
    name_key: Seq<char>,
    id_key: Seq<char>,
) -> Option<Option<Seq<(Seq<char>, Seq<char>)>>>;

/// `serde_json::from_str::<Value>`, indexing (`Null` for anything missing,
/// never a panic), `Value::as_array`, and `Value::to_string` of each
/// element's two fields. The result is a function of the text and the keys.
#[verifier::external_body]
fn parse_array_fields(
    body: &str,
    position: usize,
    object_key: &str,
    array_key: &str,
    name_key: &str,
    id_key: &str,
) -> (res: Result<Option<Vec<AttributeValue>>, serde_json::Error>)
    ensures
        match res {
            Ok(Some(v)) => json_array_fields(
                body@,
                position as nat,
                object_key@,
                array_key@,
                name_key@,
                id_key@,
            ) == Some(Some(attribute_texts(v@))),
            Ok(None) => json_array_fields(
                body@,
                position as nat,
                object_key@,
                array_key@,
                name_key@,
                id_key@,
            ) == Some(None::<Seq<(Seq<char>, Seq<char>)>>),
            Err(_) => json_array_fields(
                body@,
                position as nat,
                object_key@,
                array_key@,
                name_key@,
                id_key@,
            ) is None,
        },
{
    let response: Value = serde_json::from_str(body)?;
    match response[position][object_key][array_key].as_array() {
        Some(items) => Ok(Some(
            items
                .iter()
                .map(|item| AttributeValue {
                    name: item[name_key].to_string(),
                    id: item[id_key].to_string(),
                })
                .collect(),
        )),
        None => Ok(None),
    }
}

/// Why the ticketing attributes answer gave no id.
#[derive(Debug, Clone, Copy, PartialEq, Eq, Structural)]
pub enum AttributesError {
    /// The answer is not JSON.
    NotJson,
    /// The answer has no array at `[4].content.values`.
    NoValues,
}

/// The request-type values that a NinjaOne ticketing-attributes answer lists:
/// `[4].content.values`, each as the JSON text of its `name` and `id`.
pub open spec fn request_type_values(body: Seq<char>) -> Option<Option<Seq<(Seq<char>, Seq<char>)>>> {
    json_array_fields(body, 4, "content"@, "values"@, "name"@, "id"@)
}

/// The id, without its JSON quotes, of the request type named `ticket_type`
/// in a NinjaOne ticketing-attributes answer (the last value with that name;
/// empty when none has it). `NotJson` when the answer is not JSON, `NoValues`
/// when it holds no array of values at `[4].content.values`.
pub fn get_attributes(body: &str, ticket_type: &String) -> (res: Result<String, AttributesError>)
    ensures
        request_type_values(body@) is None <==> res == Err::<String, AttributesError>(
            AttributesError::NotJson,
        ),
        request_type_values(body@) == Some(None::<Seq<(Seq<char>, Seq<char>)>>) <==> res == Err::<
            String,
            AttributesError,
        >(AttributesError::NoValues),
        res matches Ok(id) ==> (request_type_values(body@) matches Some(Some(values)) && id@
            == selected_attribute_id(values, ticket_type@)),
{
    match parse_array_fields(body, 4, "content", "values", "name", "id") {
        Ok(Some(values)) => {
            let id = select_attribute_id(&values, ticket_type);
            assert(request_type_values(body@) == Some(Some(attribute_texts(values@))));
            Ok(id)
        },
        Ok(None) => Err(AttributesError::NoValues),
        Err(_) => Err(AttributesError::NotJson),
    }
}

} // verus!
