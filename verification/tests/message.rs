use generic_mailer::Address;
use generic_mailer::Message;
use generic_mailer::MessageBuilder;
use generic_mailer::MessageBuilderError;

#[test]
fn test_message_builder() {
    let message = Message::builder()
        .from("sender@example.com")
        .to("recipient@example.com")
        .subject("Test Email")
        .text_body("This is a test email.")
        .build()
        .unwrap();

    assert_eq!(message.from.email, "sender@example.com");
    assert_eq!(message.to.len(), 1);
    assert_eq!(message.to[0].email, "recipient@example.com");
    assert_eq!(message.subject, "Test Email");
    assert_eq!(message.text_body.as_deref(), Some("This is a test email."));
}

#[test]
fn empty_builder_misses_from_first() {
    let err = MessageBuilder::new().build().unwrap_err();
    assert!(matches!(err, MessageBuilderError::MissingFrom));

    let err = Message::builder().build().unwrap_err();
    assert!(matches!(err, MessageBuilderError::MissingFrom));

    let err = MessageBuilder::default().build().unwrap_err();
    assert!(matches!(err, MessageBuilderError::MissingFrom));
}

#[test]
fn missing_from_wins_over_everything_else() {
    let err = Message::builder()
        .to("r@example.com")
        .subject("s")
        .text_body("b")
        .build()
        .unwrap_err();
    assert!(matches!(err, MessageBuilderError::MissingFrom));
}

#[test]
fn build_reports_the_first_missing_field() {
    let err = Message::builder().from("f@example.com").build().unwrap_err();
    assert!(matches!(err, MessageBuilderError::MissingTo));

    let err = Message::builder()
        .from("f@example.com")
        .cc("c@example.com")
        .bcc("b@example.com")
        .subject("s")
        .text_body("b")
        .build()
        .unwrap_err();
    assert!(matches!(err, MessageBuilderError::MissingTo));

    let err = Message::builder()
        .from("f@example.com")
        .to("r@example.com")
        .build()
        .unwrap_err();
    assert!(matches!(err, MessageBuilderError::MissingSubject));

    let err = Message::builder()
        .from("f@example.com")
        .to("r@example.com")
        .subject("s")
        .build()
        .unwrap_err();
    assert!(matches!(err, MessageBuilderError::MissingBody));
}

#[test]
fn either_body_is_enough() {
    let message = Message::builder()
        .from("f@example.com")
        .to("r@example.com")
        .subject("s")
        .html_body("<p>hi</p>")
        .build()
        .unwrap();
    assert_eq!(message.text_body, None);
    assert_eq!(message.html_body.as_deref(), Some("<p>hi</p>"));

    let message = Message::builder()
        .from("f@example.com")
        .to("r@example.com")
        .subject("")
        .text_body("")
        .html_body("h")
        .build()
        .unwrap();
    assert_eq!(message.subject, "");
    assert_eq!(message.text_body.as_deref(), Some(""));
    assert_eq!(message.html_body.as_deref(), Some("h"));
}

#[test]
fn optional_fields_default_to_nothing() {
    let message = Message::builder()
        .from("f@example.com")
        .to("r@example.com")
        .subject("s")
        .text_body("b")
        .build()
        .unwrap();
    assert_eq!(message.category, None);
    assert!(message.metadata.is_empty());
    assert_eq!(message.reply_to, None);
    assert!(message.cc.is_empty());
    assert!(message.bcc.is_empty());
    assert!(message.headers.is_empty());
    assert_eq!(message.html_body, None);
}

#[test]
fn single_setters_append_in_order() {
    let message = Message::builder()
        .from("f@example.com")
        .to("a@example.com")
        .to(("B", "b@example.com"))
        .to(Address::new("c@example.com"))
        .cc("cc1@example.com")
        .cc("cc2@example.com")
        .bcc("bcc1@example.com")
        .bcc("bcc2@example.com")
        .headers("X-One", "1")
        .headers("X-Two", "2")
        .metadata("k1", "v1")
        .metadata("k2", String::from("v2"))
        .subject("s")
        .text_body("b")
        .build()
        .unwrap();
    assert_eq!(
        message.to,
        vec![
            Address::new("a@example.com"),
            Address::with_name("B", "b@example.com"),
            Address::new("c@example.com"),
        ]
    );
    assert_eq!(message.cc, vec![Address::new("cc1@example.com"), Address::new("cc2@example.com")]);
    assert_eq!(
        message.bcc,
        vec![Address::new("bcc1@example.com"), Address::new("bcc2@example.com")]
    );
    assert_eq!(message.headers.len(), 2);
    assert_eq!(message.headers[0].0, "X-One");
    assert_eq!(message.headers[0].1, "1");
    assert_eq!(message.headers[1].0, "X-Two");
    assert_eq!(message.headers[1].1, "2");
    assert_eq!(message.metadata.len(), 2);
    assert_eq!(message.metadata[0].0, "k1");
    assert_eq!(message.metadata[1].1, "v2");
}

#[test]
fn bulk_setters_replace_what_was_added() {
    let message = Message::builder()
        .from("f@example.com")
        .to("a@example.com")
        .set_to(vec!["b@example.com", "c@example.com"])
        .cc("a@example.com")
        .set_cc(vec![("B", "b@example.com")])
        .bcc("a@example.com")
        .set_bcc(Vec::<Address>::new())
        .headers("X-Old", "old")
        .set_headers(vec![("X-New", "new"), ("X-Newer", "newer")])
        .metadata("old", "old")
        .set_metadata(vec![("new", "new")])
        .subject("s")
        .text_body("b")
        .build()
        .unwrap();
    assert_eq!(message.to, vec![Address::new("b@example.com"), Address::new("c@example.com")]);
    assert_eq!(message.cc, vec![Address::with_name("B", "b@example.com")]);
    assert!(message.bcc.is_empty());
    assert_eq!(message.headers.len(), 2);
    assert_eq!(message.headers[0].0, "X-New");
    assert_eq!(message.headers[1].1, "newer");
    assert_eq!(message.metadata.len(), 1);
    assert_eq!(message.metadata[0].0, "new");
}

#[test]
fn bulk_set_to_nothing_leaves_no_recipient() {
    let err = Message::builder()
        .from("f@example.com")
        .to("a@example.com")
        .set_to(Vec::<&str>::new())
        .subject("s")
        .text_body("b")
        .build()
        .unwrap_err();
    assert!(matches!(err, MessageBuilderError::MissingTo));
}

#[test]
fn scalar_setters_replace() {
    let message = Message::builder()
        .from("first@example.com")
        .from(("Second", "second@example.com"))
        .to("r@example.com")
        .subject("first")
        .subject("second")
        .text_body("first")
        .text_body("second")
        .html_body("first")
        .set_html_body(None::<&str>)
        .reply_to("first@example.com")
        .reply_to("second@example.com")
        .category("first")
        .category("second")
        .build()
        .unwrap();
    assert_eq!(message.from, Address::with_name("Second", "second@example.com"));
    assert_eq!(message.subject, "second");
    assert_eq!(message.text_body.as_deref(), Some("second"));
    assert_eq!(message.html_body, None);
    assert_eq!(message.reply_to, Some(Address::new("second@example.com")));
    assert_eq!(message.category.as_deref(), Some("second"));
}

#[test]
fn optional_setters_set_and_clear() {
    let message = Message::builder()
        .from("f@example.com")
        .to("r@example.com")
        .subject("s")
        .set_text_body(Some("t"))
        .set_html_body(Some(String::from("h")))
        .set_category(Some("c"))
        .set_reply_to(Some(("R", "r@example.com")))
        .build()
        .unwrap();
    assert_eq!(message.text_body.as_deref(), Some("t"));
    assert_eq!(message.html_body.as_deref(), Some("h"));
    assert_eq!(message.category.as_deref(), Some("c"));
    assert_eq!(message.reply_to, Some(Address::with_name("R", "r@example.com")));

    let err = Message::builder()
        .from("f@example.com")
        .to("r@example.com")
        .subject("s")
        .text_body("t")
        .set_text_body(None::<&str>)
        .category("c")
        .set_category(None::<String>)
        .reply_to("x@example.com")
        .set_reply_to(None::<Address>)
        .build()
        .unwrap_err();
    assert!(matches!(err, MessageBuilderError::MissingBody));
}

#[test]
fn builder_errors_say_what_is_missing() {
    assert_eq!(MessageBuilderError::MissingFrom.to_string(), "Sender (`from`) is missing");
    assert_eq!(MessageBuilderError::MissingTo.to_string(), "Recipient (`to`) is missing");
    assert_eq!(MessageBuilderError::MissingSubject.to_string(), "Subject is missing");
    assert_eq!(
        MessageBuilderError::MissingBody.to_string(),
        "Body is missing, provide at least one of `text_body` or `html_body`"
    );
}

#[test]
fn a_cloned_builder_builds_the_same_message() {
    let builder = Message::builder()
        .from(("F", "f@example.com"))
        .to("r@example.com")
        .subject("s")
        .text_body("b")
        .headers("X-One", "1");
    let first = builder.clone().build().unwrap();
    let second = builder.build().unwrap().clone();
    assert_eq!(first.from, second.from);
    assert_eq!(first.to, second.to);
    assert_eq!(first.subject, second.subject);
    assert_eq!(first.text_body, second.text_body);
    assert_eq!(first.headers, second.headers);
}
