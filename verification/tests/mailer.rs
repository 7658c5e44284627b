use generic_mailer::mailers::NoOpMailer;
use generic_mailer::mailers::NoopMailer;
use generic_mailer::GenericMailer;
use generic_mailer::GenericMailerError;
use generic_mailer::MailerError;
use generic_mailer::Message;

fn sample() -> Message<'static> {
    Message::builder()
        .from("f@example.com")
        .to("r@example.com")
        .subject("s")
        .text_body("b")
        .build()
        .unwrap()
}

#[test]
fn no_op_mailers_send_nothing_and_succeed() {
    let ids = NoOpMailer.send(&sample()).unwrap();
    assert!(ids.is_empty());
    let ids = NoopMailer.send(&sample()).unwrap();
    assert!(ids.is_empty());
}

#[test]
fn unexpected_response_names_status_and_body() {
    let err = GenericMailerError::UnexpectedResponse(500, "boom".to_string());
    assert_eq!(err.to_string(), "Unexpected response: 500 - boom");
    let err = MailerError::UnexpectedResponse(404, String::new());
    assert_eq!(err.to_string(), "Unexpected response: 404 - ");
}

#[test]
fn status_is_written_in_decimal() {
    for status in [0u16, 7, 10, 99, 100, 200, 429, 1000, 9999, 10000, 65535] {
        let err = MailerError::UnexpectedResponse(status, "b".to_string());
        assert_eq!(err.to_string(), format!("Unexpected response: {status} - b"));
        let err = GenericMailerError::UnexpectedResponse(status, "b".to_string());
        assert_eq!(err.to_string(), format!("Unexpected response: {status} - b"));
    }
}

#[test]
fn unexpected_error_names_its_cause() {
    let err = GenericMailerError::UnexpectedError("connection reset".to_string());
    assert_eq!(err.to_string(), "Unexpected error: connection reset");
    let err = MailerError::UnexpectedError(String::new());
    assert_eq!(err.to_string(), "Unexpected error: ");
}
