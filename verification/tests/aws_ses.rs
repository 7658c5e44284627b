use generic_mailer::mailers::aws_ses::build_header;
use generic_mailer::mailers::aws_ses::build_tag;
use generic_mailer::mailers::aws_ses::encode_string;
use generic_mailer::mailers::aws_ses::SesBody;
use generic_mailer::mailers::aws_ses::SesContent;
use generic_mailer::mailers::aws_ses::SesDestination;
use generic_mailer::mailers::aws_ses::SesEmailContent;
use generic_mailer::mailers::aws_ses::SesSendEmail;
use generic_mailer::mailers::AwsSesFeedbackForwarding;
use generic_mailer::mailers::AwsSesMailer;
use generic_mailer::Address;
use generic_mailer::Message;

fn text(s: &str) -> String {
    s.to_string()
}

#[test]
fn ses_content_is_utf8() {
    let content = encode_string("Grüße");
    assert_eq!(content.data, "Grüße");
    assert_eq!(content.charset.as_deref(), Some("UTF-8"));
}

#[test]
fn ses_tags_and_headers_keep_name_and_value() {
    assert_eq!(build_tag("k", "v"), (text("k"), text("v")));
    assert_eq!(build_header("X-One", ""), (text("X-One"), text("")));
}

#[test]
fn ses_destination_lists_display_forms() {
    let message = Message::builder()
        .from("f@example.com")
        .to(("Recipient", "r@example.com"))
        .to("plain@example.com")
        .bcc(("María", "m@example.com"))
        .subject("S")
        .text_body("T")
        .build()
        .unwrap();

    let destination = AwsSesMailer::build_destination(&message);
    assert_eq!(
        destination.to_addresses,
        Some(vec![text("\"Recipient\" <r@example.com>"), text("plain@example.com")])
    );
    assert_eq!(destination.cc_addresses, None);
    assert_eq!(destination.bcc_addresses, Some(vec![text("=?UTF-8?B?TWFyw61h?= <m@example.com>")]));
}

#[test]
fn ses_content_holds_subject_bodies_and_headers() {
    let message = Message::builder()
        .from("f@example.com")
        .to("r@example.com")
        .subject("S")
        .html_body("<p>H</p>")
        .build()
        .unwrap();

    let content = AwsSesMailer::build_content(&message);
    assert_eq!(content.subject.data, "S");
    assert_eq!(content.subject.charset.as_deref(), Some("UTF-8"));
    assert!(content.body.text.is_none());
    let html = content.body.html.unwrap();
    assert_eq!(html.data, "<p>H</p>");
    assert_eq!(html.charset.as_deref(), Some("UTF-8"));
    assert_eq!(content.headers, None);

    let message = Message::builder()
        .from("f@example.com")
        .to("r@example.com")
        .subject("S")
        .text_body("T")
        .headers("X-One", "1")
        .headers("X-Two", "2")
        .build()
        .unwrap();
    let content = AwsSesMailer::build_content(&message);
    assert_eq!(content.body.text.unwrap().data, "T");
    assert!(content.body.html.is_none());
    assert_eq!(
        content.headers,
        Some(vec![(text("X-One"), text("1")), (text("X-Two"), text("2"))])
    );
    let body = AwsSesMailer::build_body(&message);
    assert_eq!(body.text.unwrap().data, "T");
    assert!(body.html.is_none());
}

#[test]
fn ses_tags_are_category_then_headers() {
    let plain = Message::builder()
        .from("f@example.com")
        .to("r@example.com")
        .subject("S")
        .text_body("T")
        .metadata("not", "a tag")
        .build()
        .unwrap();
    assert_eq!(AwsSesMailer::build_tags(&plain), None);

    let category = Message::builder()
        .from("f@example.com")
        .to("r@example.com")
        .subject("S")
        .text_body("T")
        .category("news")
        .build()
        .unwrap();
    assert_eq!(AwsSesMailer::build_tags(&category), Some(vec![(text("category"), text("news"))]));

    let headers = Message::builder()
        .from("f@example.com")
        .to("r@example.com")
        .subject("S")
        .text_body("T")
        .headers("X-One", "1")
        .build()
        .unwrap();
    assert_eq!(AwsSesMailer::build_tags(&headers), Some(vec![(text("X-One"), text("1"))]));

    let both = Message::builder()
        .from("f@example.com")
        .to("r@example.com")
        .subject("S")
        .text_body("T")
        .headers("X-One", "1")
        .category("news")
        .headers("X-Two", "2")
        .build()
        .unwrap();
    assert_eq!(
        AwsSesMailer::build_tags(&both),
        Some(vec![
            (text("category"), text("news")),
            (text("X-One"), text("1")),
            (text("X-Two"), text("2")),
        ])
    );
}

#[test]
fn ses_answer_names_its_message_id() {
    assert_eq!(AwsSesMailer::message_ids(Some(text("id-1"))), vec![text("id-1")]);
    assert!(AwsSesMailer::message_ids(None).is_empty());
}

fn mailer(
    configuration_set: Option<&str>,
    feedback_forwarding: Option<AwsSesFeedbackForwarding>,
) -> AwsSesMailer {
    let config = aws_sdk_sesv2::Config::builder()
        .behavior_version(aws_sdk_sesv2::config::BehaviorVersion::latest())
        .region(aws_sdk_sesv2::config::Region::new("eu-west-1"))
        .retry_config(aws_sdk_sesv2::config::retry::RetryConfig::disabled())
        .timeout_config(aws_sdk_sesv2::config::timeout::TimeoutConfig::disabled())
        .identity_cache(aws_sdk_sesv2::config::IdentityCache::no_cache())
        .stalled_stream_protection(
            aws_sdk_sesv2::config::StalledStreamProtectionConfig::disabled(),
        )
        .build();
    AwsSesMailer {
        client: aws_sdk_sesv2::Client::from_conf(config),
        configuration_set: configuration_set.map(text),
        sender_identity_arn: text("arn:aws:ses:eu-west-1:1:identity/example.com"),
        feedback_forwarding,
    }
}

#[test]
fn ses_send_email_with_everything_set() {
    let message = Message::builder()
        .from(("Sender", "sender@example.com"))
        .reply_to("replies@example.com")
        .to(("Recipient", "recipient@example.com"))
        .cc("cc@example.com")
        .subject("Test Email")
        .text_body("This is a test email.")
        .category("news")
        .headers("X-One", "1")
        .build()
        .unwrap();
    let forwarding = AwsSesFeedbackForwarding {
        identity_arn: text("arn:aws:ses:eu-west-1:1:identity/bounces.example.com"),
        email: Address::with_name("Bounces", "bounces@example.com"),
    };

    let input = mailer(Some("set-1"), Some(forwarding)).build_send_email(&message);

    let utf8 = |data: &str| SesContent { data: text(data), charset: Some(text("UTF-8")) };
    let expected = SesSendEmail {
        configuration_set_name: Some(text("set-1")),
        feedback_forwarding_email_address_identity_arn: Some(text(
            "arn:aws:ses:eu-west-1:1:identity/bounces.example.com",
        )),
        feedback_forwarding_email_address: Some(text("\"Bounces\" <bounces@example.com>")),
        from_email_address_identity_arn: text("arn:aws:ses:eu-west-1:1:identity/example.com"),
        from_email_address: text("\"Sender\" <sender@example.com>"),
        reply_to_addresses: Some(vec![text("replies@example.com")]),
        destination: SesDestination {
            to_addresses: Some(vec![text("\"Recipient\" <recipient@example.com>")]),
            cc_addresses: Some(vec![text("cc@example.com")]),
            bcc_addresses: None,
        },
        content: SesEmailContent {
            subject: utf8("Test Email"),
            body: SesBody { text: Some(utf8("This is a test email.")), html: None },
            headers: Some(vec![(text("X-One"), text("1"))]),
        },
        email_tags: Some(vec![(text("category"), text("news")), (text("X-One"), text("1"))]),
    };
    assert_eq!(input, expected);
}

#[test]
fn ses_send_email_with_the_least_set() {
    let message = Message::builder()
        .from("sender@example.com")
        .to("recipient@example.com")
        .subject("S")
        .html_body("H")
        .build()
        .unwrap();

    let input = mailer(None, None).build_send_email(&message);

    assert_eq!(input.configuration_set_name, None);
    assert_eq!(input.feedback_forwarding_email_address_identity_arn, None);
    assert_eq!(input.feedback_forwarding_email_address, None);
    assert_eq!(input.from_email_address, "sender@example.com");
    assert_eq!(input.reply_to_addresses, None);
    assert_eq!(input.destination, AwsSesMailer::build_destination(&message));
    assert_eq!(input.destination.to_addresses, Some(vec![text("recipient@example.com")]));
    assert_eq!(input.content, AwsSesMailer::build_content(&message));
    assert_eq!(input.email_tags, None);
}
