//! A provider-agnostic model of an email message: addresses with their
//! header rendering, the message envelope and its builder, and what each
//! delivery backend is handed for a message.

pub mod address;
pub mod generic_mailer;
pub mod json;
pub mod mailer;
pub mod mailers;
pub mod message;
pub mod text;
pub mod utils;

pub use address::is_safe_ascii;
pub use address::quote_display_name;
pub use address::Address;
pub use address::AddressView;
pub use address::IntoAddress;
pub use generic_mailer::GenericMailer;
pub use generic_mailer::GenericMailerError;
pub use json::JsonView;
pub use mailer::Mailer;
pub use mailer::MailerError;
pub use message::Message;
pub use message::MessageBuilder;
pub use message::MessageBuilderError;
pub use message::MessageBuilderView;
pub use message::MessageView;
pub use text::IntoText;
pub use utils::encode_mime_b;
pub use utils::encoded_word;
