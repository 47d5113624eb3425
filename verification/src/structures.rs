//! The records that the ticketing suite exchanges with its front end, the
//! credentials server and the NinjaOne API.
use vstd::prelude::*;

verus! {

/// The credentials file: an e-mail account and the NinjaOne authorization.
#[derive(Debug)]
pub struct Login {
    pub email: Creds,
    pub ninja: Auth,
}

/// E-mail account credentials and the SMTP relay to send through.
#[derive(Debug)]
pub struct Creds {
    pub username: String,
    pub password: String,
    pub relay: String,
}

/// The fields posted to the NinjaOne token endpoint.
#[derive(Debug)]
pub struct Auth {
    pub grant_type: String,
    pub client_id: String,
    pub refresh_token: String,
}

/// The NinjaOne token endpoint's answer.
#[derive(Debug)]
pub struct AuthResponse {
    pub access_token: String,
    pub refresh_token: String,
    pub expires_in: isize,
    pub scope: String,
    pub token_type: String,
}

/// A ticket as the NinjaOne ticketing API creates it.
#[derive(Debug)]
pub struct Ticket {
    pub client_id: i64,
    pub ticket_form_id: i64,
    pub location_id: i64,
    pub node_id: i64,
    pub subject: String,
    pub description: TicketDescription,
    pub status: String,
    pub cc: CcEmail,
    pub attributes: Vec<TicketAttributes>,
}

/// The body of a ticket, as plain text and as HTML.
#[derive(Debug)]
pub struct TicketDescription {
    pub public: bool,
    pub body: String,
    pub html_body: String,
}

/// The addresses that receive a copy of a ticket.
#[derive(Debug)]
pub struct CcEmail {
    pub emails: Vec<String>,
}

/// One attribute of a ticket: its NinjaOne attribute id and value.
#[derive(Debug)]
pub struct TicketAttributes {
    pub attribute_id: isize,
    pub value: String,
}

/// The ticket form as the front end sends it; every field may be missing.
#[derive(Debug)]
pub struct FormData {
    pub ticket_type: Option<String>,
    pub locale: Option<String>,
    pub dealer: Option<String>,
    pub first_name: Option<String>,
    pub last_name: Option<String>,
    pub email: Option<String>,
    pub telephone: Option<String>,
    pub request_type: Option<String>,
    pub request: Option<String>,
}

/// The parts of a ticket e-mail.
#[derive(Debug)]
pub struct EmailMessage {
    pub name: String,
    pub subject: String,
    pub contact: String,
    pub location: String,
    pub details: String,
    pub pcname: String,
}

/// The text of `field`, or `default` when it is missing.
pub open spec fn text_or(field: Option<String>, default: Seq<char>) -> Seq<char> {
    match field {
        Some(s) => s@,
        None => default,
    }
}

/// The text of `field`, assumed present.
pub open spec fn field(f: Option<String>) -> Seq<char> {
    f.unwrap()@
}

/// A copy of the text of `field`, or of `default` when it is missing.
pub fn text_or_default(field: &Option<String>, default: &str) -> (res: String)
    ensures
        res@ == text_or(*field, default@),
{
    match field {
        Some(s) => s.clone(),
        None => String::from_str(default),
    }
}

/// A copy of the text of `field`, which is present.
pub fn field_text(field: &Option<String>) -> (res: String)
    requires
        field.is_some(),
    ensures
        res@ == field.unwrap()@,
{
    match field {
        Some(s) => s.clone(),
        None => unreached(),
    }
}

impl FormData {
    /// The fields that `as_vec` reads without a default are present.
    pub open spec fn has_paragraph_fields(&self) -> bool {
        &&& self.first_name.is_some()
        &&& self.last_name.is_some()
        &&& self.email.is_some()
        &&& self.locale.is_some()
        &&& self.request.is_some()
    }

    /// The paragraphs of a ticket's description: name, contact, location and request.
    pub open spec fn paragraphs(&self) -> Seq<Seq<char>> {
        seq![
            "Name: "@ + field(self.first_name) + " "@ + field(self.last_name),
            "Contact: "@ + field(self.email) + " "@ + text_or(self.telephone, "No extension"@),
            "Location: "@ + field(self.locale) + " "@ + text_or(self.dealer, "No dealer selected"@),
            field(self.request),
        ]
    }

    /// The ticket's paragraphs: `Name: <first> <last>`, `Contact: <email>
    /// <telephone>`, `Location: <locale> <dealer>` and the request, with
    /// "No extension" and "No dealer selected" for a missing telephone or dealer.
    pub fn as_vec(&self) -> (res: Vec<String>)
        requires
            self.has_paragraph_fields(),
        ensures
            res@.len() == 4,
            forall|i: int| 0 <= i < 4 ==> #[trigger] res@[i]@ == self.paragraphs()[i],
    {
        let mut vec: Vec<String> = Vec::new();
        let mut name = String::from_str("Name: ");
        name.append(field_text(&self.first_name).as_str());
        name.append(" ");
        name.append(field_text(&self.last_name).as_str());
        vec.push(name);
        let mut contact = String::from_str("Contact: ");
        contact.append(field_text(&self.email).as_str());
        contact.append(" ");
        contact.append(text_or_default(&self.telephone, "No extension").as_str());
        vec.push(contact);
        let mut location = String::from_str("Location: ");
        location.append(field_text(&self.locale).as_str());
        location.append(" ");
        location.append(text_or_default(&self.dealer, "No dealer selected").as_str());
        vec.push(location);
        vec.push(field_text(&self.request));
        vec
    }
}

} // verus!
