//! The local ticket store: the rows it holds and what a status report does to them.
use vstd::prelude::*;
use crate::text::{all_digits, decimal, decimal_text, numeral_value};

verus! {

/// A stored ticket: its number and its last known status.
#[derive(Debug)]
pub struct StatusObject {
    pub ticket_no: String,
    pub status: String,
}

/// The part of NinjaOne's answer to a ticket creation that is stored.
#[derive(Debug)]
pub struct TicketData {
    pub id: u32,
    pub status: Status,
}

/// A ticket status as NinjaOne names it.
#[derive(Debug)]
pub struct Status {
    pub name: String,
}

/// What a status report does to one stored ticket.
#[derive(Debug)]
pub enum StatusAction {
    /// Store the reported status for the ticket.
    Update { status: String, ticket_no: String },
    /// Remove the ticket, which is closed.
    Delete { ticket_no: String },
    /// Leave the ticket as it is.
    Keep,
}

/// The action for a stored ticket given the status reported for it: a
/// changed status is stored, an unchanged `CLOSED` ticket is removed, and any
/// other ticket is left as it is.
pub fn status_action(stored: &StatusObject, reported: &StatusObject) -> (action: StatusAction)
    ensures
        reported.status@ != stored.status@ ==> (action matches StatusAction::Update {
            status,
            ticket_no,
        } && status@ == reported.status@ && ticket_no@ == stored.ticket_no@),
        reported.status@ == stored.status@ && reported.status@ == "CLOSED"@ ==> (
        action matches StatusAction::Delete { ticket_no } && ticket_no@ == stored.ticket_no@),
        reported.status@ == stored.status@ && reported.status@ != "CLOSED"@ ==> action is Keep,
{
    if reported.status != stored.status {
        StatusAction::Update { status: reported.status.clone(), ticket_no: stored.ticket_no.clone() }
    } else if reported.status == String::from_str("CLOSED") {
        StatusAction::Delete { ticket_no: stored.ticket_no.clone() }
    } else {
        StatusAction::Keep
    }
}

/// The row stored for a created ticket: its id in decimal, and its status name.
pub fn ticket_row(data: &TicketData) -> (row: (String, String))
    ensures
        row.0@ == decimal(data.id as nat),
        all_digits(row.0@),
        numeral_value(row.0@) == data.id,
        row.1@ == data.status.name@,
{
    (decimal_text(data.id), data.status.name.clone())
}

/// The folder of the ticket store of `user`: `C:/Users/<user>/AppData/Local/ShamRock-it-db/`.
pub fn db_dir(user: &str) -> (dir: String)
    ensures
        dir@ == "C:/Users/"@ + user@ + "/AppData/Local/ShamRock-it-db/"@,
{
    let mut dir = String::from_str("C:/Users/");
    dir.append(user);
    dir.append("/AppData/Local/ShamRock-it-db/");
    dir
}

} // verus!
