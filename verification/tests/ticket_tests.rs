use shamrock_it::mailer::{email_body, email_envelope, email_heading, email_title, format_message};
use shamrock_it::ninja::{
    build_attributes, build_description, build_ticket, device_search_url, get_attributes,
    get_device_id, select_attribute_id, submission_outcome, AttributeValue, AttributesError,
    DeviceSearchError, SubmitOutcome,
};
use shamrock_it::structures::FormData;

fn form(telephone: Option<&str>, dealer: Option<&str>) -> FormData {
    FormData {
        ticket_type: Some("IT".to_string()),
        locale: Some("Store 12".to_string()),
        dealer: dealer.map(|s| s.to_string()),
        first_name: Some("Ana".to_string()),
        last_name: Some("Diaz".to_string()),
        email: Some("ana@example.com".to_string()),
        telephone: telephone.map(|s| s.to_string()),
        request_type: Some("Printer Support".to_string()),
        request: Some("The printer jams.".to_string()),
    }
}

#[test]
fn as_vec_lists_the_four_paragraphs() {
    let f = form(Some("204"), Some("Ford"));
    assert_eq!(
        f.as_vec(),
        vec!["Name: Ana Diaz", "Contact: ana@example.com 204", "Location: Store 12 Ford", "The printer jams."]
    );
}

#[test]
fn as_vec_fills_in_missing_telephone_and_dealer() {
    let f = form(None, None);
    assert_eq!(
        f.as_vec(),
        vec![
            "Name: Ana Diaz",
            "Contact: ana@example.com No extension",
            "Location: Store 12 No dealer selected",
            "The printer jams."
        ]
    );
}

#[test]
fn format_message_builds_each_part() {
    let m = format_message(form(Some("204"), None), "DESK-7".to_string(), "Mon, Jan 01, 2024 at 09:05 AM".to_string());
    assert_eq!(m.name, "Ana Diaz");
    assert_eq!(m.subject, "IT Ticket Created: Mon, Jan 01, 2024 at 09:05 AM");
    assert_eq!(m.contact, "<a href='mailto:ana@example.com'>ana@example.com</a>, ext. 204");
    assert_eq!(m.location, "Store 12 No dealer selected");
    assert_eq!(m.details, "The printer jams.");
    assert_eq!(m.pcname, "DESK-7");
}

#[test]
fn format_message_keeps_the_dealer() {
    let m = format_message(form(Some("1"), Some("Ford")), "PC".to_string(), "now".to_string());
    assert_eq!(m.location, "Store 12 Ford");
}

#[test]
fn email_parts_are_formatted() {
    let m = format_message(form(Some("204"), None), "DESK-7".to_string(), "t".to_string());
    let heading = email_heading(&m);
    assert_eq!(
        heading,
        "Ticket created by Ana Diaz at Store 12 No dealer selected, Contact: <a href='mailto:ana@example.com'>ana@example.com</a>, ext. 204, PC Name: DESK-7"
    );
    let title = email_title();
    assert_eq!(title, "<h2 style='text-align:center;font-weight:bold;font-size:20px;'>Ticket</h2>");
    let body = email_body(&title, &heading, &m.details);
    let expected = format!(
        "<div style='text-align:center'>
                    {}
                </div>
                <div style='text-align:center'>
                    {}
                </div>
                <br>
                <h3>Ticket Details</h3>
                <br>
                {}",
        title, heading, m.details
    );
    assert_eq!(body, expected);
}

#[test]
fn build_description_joins_paragraphs() {
    let d = build_description(&form(Some("204"), Some("Ford")));
    assert!(d.public);
    assert_eq!(
        d.body,
        "Name: Ana Diaz\nContact: ana@example.com 204\nLocation: Store 12 Ford\nThe printer jams."
    );
    assert_eq!(
        d.html_body,
        "Name: Ana Diaz<br>Contact: ana@example.com 204<br>Location: Store 12 Ford<br>The printer jams.<br>"
    );
}

#[test]
fn build_attributes_in_order() {
    let a = build_attributes(
        &"Ana".to_string(),
        &"Diaz".to_string(),
        &"ana@example.com".to_string(),
        &"204".to_string(),
        &"abc-123".to_string(),
    );
    let pairs: Vec<(isize, &str)> = a.iter().map(|t| (t.attribute_id, t.value.as_str())).collect();
    assert_eq!(pairs, vec![(28, "Ana Diaz"), (29, "ana@example.com"), (30, "204"), (27, "abc-123")]);
}

#[test]
fn build_ticket_fills_every_field() {
    let f = form(Some("204"), None);
    let t = build_ticket((Some(55), Some(9)), &f, "abc-123".to_string());
    assert_eq!(t.client_id, 2);
    assert_eq!(t.ticket_form_id, 1);
    assert_eq!(t.location_id, 9);
    assert_eq!(t.node_id, 55);
    assert_eq!(t.subject, "New Ticket Created: Printer Support");
    assert_eq!(t.status, "1000");
    assert_eq!(t.cc.emails, vec!["ana@example.com"]);
    assert_eq!(t.description.body, build_description(&f).body);
    assert_eq!(t.attributes.len(), 4);
    assert_eq!(t.attributes[0].value, "Ana Diaz");
    assert_eq!(t.attributes[2].value, "204");
    assert_eq!(t.attributes[3].value, "abc-123");
}

fn value(name: &str, id: &str) -> AttributeValue {
    AttributeValue { name: name.to_string(), id: id.to_string() }
}

#[test]
fn select_attribute_id_takes_the_last_match_unquoted() {
    let values = vec![
        value("\"Desktop Support\"", "\"111\""),
        value("\"Printer Support\"", "\"288c8370-c673-4a21-ae7c-85b87df31dfd\""),
        value("\"Printer Support\"", "\"999\""),
        value("null", "null"),
    ];
    assert_eq!(select_attribute_id(&values, &"Printer Support".to_string()), "999");
    assert_eq!(select_attribute_id(&values, &"Desktop Support".to_string()), "111");
    assert_eq!(select_attribute_id(&values, &"Other".to_string()), "");
    assert_eq!(select_attribute_id(&Vec::new(), &"Other".to_string()), "");
}

#[test]
fn device_search_url_names_the_computer() {
    assert_eq!(
        device_search_url("DESK-7"),
        "https://jakesweeney.rmmservice.com/v2/devices/search?q=DESK-7&limit=1"
    );
}

#[test]
fn submission_outcome_by_status() {
    assert_eq!(submission_outcome(201), SubmitOutcome::Accepted(201));
    assert_eq!(submission_outcome(200), SubmitOutcome::Accepted(200));
    assert_eq!(submission_outcome(299), SubmitOutcome::Accepted(299));
    assert_eq!(submission_outcome(300), SubmitOutcome::Refused(500));
    assert_eq!(submission_outcome(404), SubmitOutcome::Refused(500));
    assert_eq!(submission_outcome(199), SubmitOutcome::Refused(500));
}

#[test]
fn get_device_id_reads_the_first_device() {
    let body = r#"{"devices":[{"id":55,"locationId":9,"systemName":"DESK-7"},{"id":1,"locationId":2}]}"#;
    assert_eq!(get_device_id(body), Ok((Some(55), Some(9))));
}

#[test]
fn get_device_id_without_devices_gives_no_ids() {
    assert_eq!(get_device_id(r#"{"devices":[]}"#), Ok((None, None)));
    assert_eq!(get_device_id(r#"{"devices":[{"id":"x"}]}"#), Ok((None, None)));
    assert_eq!(get_device_id("[]"), Ok((None, None)));
}

#[test]
fn get_device_id_refuses_non_json() {
    assert_eq!(get_device_id("<html>busy</html>"), Err(DeviceSearchError::NotJson));
}

fn attributes_answer(values: &str) -> String {
    format!(
        r#"[{{"id":1}},{{"id":2}},{{"id":3}},{{"id":4}},{{"id":5,"name":"Request","content":{{"values":{}}}}}]"#,
        values
    )
}

#[test]
fn get_attributes_finds_the_request_type_id() {
    let body = attributes_answer(
        r#"[{"id":"111","name":"Desktop Support"},{"id":"288c8370-c673-4a21-ae7c-85b87df31dfd","name":"Printer Support"}]"#,
    );
    assert_eq!(
        get_attributes(&body, &"Printer Support".to_string()),
        Ok("288c8370-c673-4a21-ae7c-85b87df31dfd".to_string())
    );
    assert_eq!(get_attributes(&body, &"Desktop Support".to_string()), Ok("111".to_string()));
    assert_eq!(get_attributes(&body, &"Other".to_string()), Ok(String::new()));
}

#[test]
fn get_attributes_renders_non_string_ids_as_json() {
    let body = attributes_answer(r#"[{"id":42,"name":"Printer Support"},{"name":"Printer Support"}]"#);
    assert_eq!(get_attributes(&body, &"Printer Support".to_string()), Ok("null".to_string()));
    let body = attributes_answer(r#"[{"id":42,"name":"Printer Support"}]"#);
    assert_eq!(get_attributes(&body, &"Printer Support".to_string()), Ok("42".to_string()));
}

#[test]
fn get_attributes_errors() {
    assert_eq!(get_attributes("not json", &"x".to_string()), Err(AttributesError::NotJson));
    assert_eq!(get_attributes("[1,2,3]", &"x".to_string()), Err(AttributesError::NoValues));
    assert_eq!(get_attributes(&attributes_answer("{}"), &"x".to_string()), Err(AttributesError::NoValues));
}

#[test]
fn email_envelope_addresses() {
    let e = email_envelope();
    assert_eq!(e.from, "<maintenance@jakesweeney.com>");
    assert_eq!(e.to, "<ithelp@jakesweeney.com>");
    assert_eq!(e.content_type, "text/html; charset=utf-8");
}
