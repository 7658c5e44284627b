//! The delivery backends.

pub mod aws_ses;
pub mod console;
pub mod http;
pub mod mailtrap;
pub mod no_op;
pub mod noop;
pub mod sendgrid;

pub use aws_ses::AwsSesFeedbackForwarding;
pub use aws_ses::AwsSesMailer;
pub use console::ConsoleMailer;
pub use no_op::NoOpMailer;
pub use noop::NoopMailer;
