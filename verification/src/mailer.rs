//! The ticket e-mail: its parts, formatted from the ticket form.
use vstd::prelude::*;
use crate::structures::{field, field_text, text_or, text_or_default, EmailMessage, FormData};

verus! {

/// The form fields that `format_message` reads without a default are present.
pub open spec fn has_message_fields(f: FormData) -> bool {
    &&& f.first_name.is_some()
    &&& f.last_name.is_some()
    &&& f.ticket_type.is_some()
    &&& f.email.is_some()
    &&& f.telephone.is_some()
    &&& f.locale.is_some()
    &&& f.request.is_some()
}

/// The e-mail of a ticket, formatted from the form, the name of this computer
/// and the date and time at which the ticket is created.
pub fn format_message(form_data: FormData, pc_name: String, datetime: String) -> (m: EmailMessage)
    requires
        has_message_fields(form_data),
    ensures
        m.name@ == field(form_data.first_name) + " "@ + field(form_data.last_name),
        m.subject@ == field(form_data.ticket_type) + " Ticket Created: "@ + datetime@,
        m.contact@ == "<a href='mailto:"@ + field(form_data.email) + "'>"@ + field(form_data.email)
            + "</a>, ext. "@ + field(form_data.telephone),
        m.location@ == field(form_data.locale) + " "@ + text_or(
            form_data.dealer,
            "No dealer selected"@,
        ),
        m.details@ == field(form_data.request),
        m.pcname@ == pc_name@,
{
    let mut name = field_text(&form_data.first_name);
    name.append(" ");
    name.append(field_text(&form_data.last_name).as_str());
    let mut subject = field_text(&form_data.ticket_type);
    subject.append(" Ticket Created: ");
    subject.append(datetime.as_str());
    let email = field_text(&form_data.email);
    let mut contact = String::from_str("<a href='mailto:");
    contact.append(email.as_str());
    contact.append("'>");
    contact.append(email.as_str());
    contact.append("</a>, ext. ");
    contact.append(field_text(&form_data.telephone).as_str());
    let mut location = field_text(&form_data.locale);
    location.append(" ");
    location.append(text_or_default(&form_data.dealer, "No dealer selected").as_str());
    let details = field_text(&form_data.request);
    EmailMessage { name, subject, contact, location, details, pcname: pc_name }
}

/// The title at the top of a ticket e-mail.
pub fn email_title() -> (res: String)
    ensures
        res@ == "<h2 style='text-align:center;font-weight:bold;font-size:20px;'>Ticket</h2>"@,
{
    String::from_str("<h2 style='text-align:center;font-weight:bold;font-size:20px;'>Ticket</h2>")
}

/// The heading line of a ticket e-mail: who created it, where, how to reach them, and from which computer.
pub fn email_heading(m: &EmailMessage) -> (res: String)
    ensures
        res@ == "Ticket created by "@ + m.name@ + " at "@ + m.location@ + ", Contact: "@
            + m.contact@ + ", PC Name: "@ + m.pcname@,
{
    let mut res = String::from_str("Ticket created by ");
    res.append(m.name.as_str());
    res.append(" at ");
    res.append(m.location.as_str());
    res.append(", Contact: ");
    res.append(m.contact.as_str());
    res.append(", PC Name: ");
    res.append(m.pcname.as_str());
    res
}

/// The HTML body of a ticket e-mail: the title and the heading, each centred,
/// then "Ticket Details" and the request.
pub fn email_body(title: &str, heading: &str, details: &str) -> (res: String)
    ensures
        res@ == "<div style='text-align:center'>\n                    "@ + title@
            + "\n                </div>\n                <div style='text-align:center'>\n                    "@
            + heading@
            + "\n                </div>\n                <br>\n                <h3>Ticket Details</h3>\n                <br>\n                "@
            + details@,
{
    let mut res = String::from_str("<div style='text-align:center'>\n                    ");
    res.append(title);
    res.append(
        "\n                </div>\n                <div style='text-align:center'>\n                    ",
    );
    res.append(heading);
    res.append(
        "\n                </div>\n                <br>\n                <h3>Ticket Details</h3>\n                <br>\n                ",
    );
    res.append(details);
    res
}

/// The envelope of a ticket e-mail: sent from the maintenance mailbox to the
/// IT help mailbox, as HTML.
pub struct EmailEnvelope {
    pub from: String,
    pub to: String,
    pub content_type: String,
}

/// The envelope of every ticket e-mail: from `<maintenance@jakesweeney.com>`
/// to `<ithelp@jakesweeney.com>`, with content type `text/html; charset=utf-8`.
pub fn email_envelope() -> (e: EmailEnvelope)
    ensures
        e.from@ == "<maintenance@jakesweeney.com>"@,
        e.to@ == "<ithelp@jakesweeney.com>"@,
        e.content_type@ == "text/html; charset=utf-8"@,
{
    EmailEnvelope {
        from: String::from_str("<maintenance@jakesweeney.com>"),
        to: String::from_str("<ithelp@jakesweeney.com>"),
        content_type: String::from_str("text/html; charset=utf-8"),
    }
}

} // verus!
