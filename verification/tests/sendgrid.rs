use generic_mailer::mailers::sendgrid::build_content;
use generic_mailer::mailers::sendgrid::build_personalization;
use generic_mailer::mailers::sendgrid::build_request;
use generic_mailer::mailers::sendgrid::read_response;
use generic_mailer::Address;
use generic_mailer::GenericMailerError;
use generic_mailer::Message;

fn json(text: &str) -> serde_json::Value {
    serde_json::from_str(text).unwrap()
}

#[test]
fn test_sendgrid_mailer() {
    let message = Message::builder()
        .from(Address::with_name("Sender", "sender@example.com"))
        .to(Address::with_name("Recipient", "recipient@example.com"))
        .cc(Address::new("cc@example.com"))
        .subject("Test Email")
        .text_body("This is a test email.")
        .build()
        .unwrap();

    let expected = json(
        r#"{
            "from": { "name": "Sender", "email": "sender@example.com" },
            "personalizations": [
                {
                    "to": [{ "name": "Recipient", "email": "recipient@example.com" }],
                    "cc": [{ "email": "cc@example.com" }]
                }
            ],
            "subject": "Test Email",
            "content": [
                { "type": "text/plain", "value": "This is a test email." }
            ]
        }"#,
    );

    let actual = build_request(&message);

    assert_eq!(actual, expected);
}

#[test]
fn sendgrid_request_holds_every_field_that_is_set() {
    let message = Message::builder()
        .from("f@example.com")
        .reply_to(("Replies", "replies@example.com"))
        .to("a@example.com")
        .bcc("b@example.com")
        .subject("S")
        .text_body("T")
        .html_body("<p>H</p>")
        .category("news")
        .headers("X-One", "1")
        .headers("X-Two", "2")
        .metadata("user", "42")
        .build()
        .unwrap();

    let expected = json(
        r#"{
            "from": { "email": "f@example.com" },
            "personalizations": [
                { "to": [{ "email": "a@example.com" }], "bcc": [{ "email": "b@example.com" }] }
            ],
            "subject": "S",
            "content": [
                { "type": "text/plain", "value": "T" },
                { "type": "text/html", "value": "<p>H</p>" }
            ],
            "reply_to": { "name": "Replies", "email": "replies@example.com" },
            "headers": { "X-One": "1", "X-Two": "2" },
            "categories": ["news"],
            "custom_args": { "user": "42" }
        }"#,
    );
    assert_eq!(build_request(&message), expected);
}

#[test]
fn later_header_of_the_same_name_stays() {
    let message = Message::builder()
        .from("f@example.com")
        .to("a@example.com")
        .subject("S")
        .html_body("H")
        .headers("X-Same", "first")
        .headers("X-Other", "other")
        .headers("X-Same", "second")
        .build()
        .unwrap();

    let request = build_request(&message);
    assert_eq!(request["headers"], json(r#"{ "X-Same": "second", "X-Other": "other" }"#));
    assert_eq!(request["content"], json(r#"[{ "type": "text/html", "value": "H" }]"#));
    assert!(request.get("categories").is_none());
    assert!(request.get("custom_args").is_none());
    assert!(request.get("reply_to").is_none());
}

#[test]
fn sendgrid_parts_follow_the_message() {
    let message = Message::builder()
        .from("f@example.com")
        .to("a@example.com")
        .cc("c@example.com")
        .bcc("b@example.com")
        .subject("S")
        .text_body("T")
        .build()
        .unwrap();

    assert_eq!(build_content(&message), vec![json(r#"{ "type": "text/plain", "value": "T" }"#)]);
    assert_eq!(
        build_personalization(&message),
        json(
            r#"{
                "to": [{ "email": "a@example.com" }],
                "cc": [{ "email": "c@example.com" }],
                "bcc": [{ "email": "b@example.com" }]
            }"#
        )
    );
}

#[test]
fn sendgrid_answer_names_its_message_id() {
    let ids = read_response(202, String::new(), Some("abc123".to_string())).unwrap();
    assert_eq!(ids, vec!["abc123".to_string()]);

    let ids = read_response(200, "ignored".to_string(), None).unwrap();
    assert!(ids.is_empty());
}

#[test]
fn sendgrid_answer_without_success_status_fails() {
    match read_response(400, "bad request".to_string(), Some("abc123".to_string())) {
        Err(GenericMailerError::UnexpectedResponse(status, body)) => {
            assert_eq!(status, 400);
            assert_eq!(body, "bad request");
        }
        other => panic!("{other:?}"),
    }
    assert!(matches!(
        read_response(300, String::new(), None),
        Err(GenericMailerError::UnexpectedResponse(300, _))
    ));
}
