//! Amazon SES: what its `SendEmail` operation is handed for a message, and
//! what its answer means. The values here are plain; the caller puts them
//! into the SDK's request and sends it.

use crate::address::address_views;
use crate::address::Address;
use crate::address::AddressView;
use crate::message::Message;
use crate::message::MessageView;
use crate::text::as_str;
use crate::text::pair_texts;
use std::borrow::Cow;
use vstd::prelude::*;

verus! {

#[verifier::external_type_specification]
#[verifier::external_body]
pub struct ExSesClient(aws_sdk_sesv2::Client);

/// Where SES sends bounce and complaint notices.
pub struct AwsSesFeedbackForwarding {
    pub identity_arn: String,
    pub email: Address<'static>,
}

/// Delivers through Amazon SES.
pub struct AwsSesMailer {
    pub client: aws_sdk_sesv2::Client,
    pub configuration_set: Option<String>,
    pub sender_identity_arn: String,
    pub feedback_forwarding: Option<AwsSesFeedbackForwarding>,
}

/// A text with the name of its character set.
#[derive(Debug, Clone, PartialEq, Eq)]
pub struct SesContent {
    pub data: String,
    pub charset: Option<String>,
}

/// The bodies of an email.
#[derive(Debug, Clone, PartialEq, Eq)]
pub struct SesBody {
    pub text: Option<SesContent>,
    pub html: Option<SesContent>,
}

/// The email itself: subject, bodies, and the headers where there are any.
#[derive(Debug, Clone, PartialEq, Eq)]
pub struct SesEmailContent {
    pub subject: SesContent,
    pub body: SesBody,
    pub headers: Option<Vec<(String, String)>>,
}

/// The recipients of an email, each in display form.
#[derive(Debug, Clone, PartialEq, Eq)]
pub struct SesDestination {
    pub to_addresses: Option<Vec<String>>,
    pub cc_addresses: Option<Vec<String>>,
    pub bcc_addresses: Option<Vec<String>>,
}

/// Everything that `SendEmail` is handed. A field that is `None` is left
/// unset in the request.
#[derive(Debug, Clone, PartialEq, Eq)]
pub struct SesSendEmail {
    pub configuration_set_name: Option<String>,
    pub feedback_forwarding_email_address_identity_arn: Option<String>,
    pub feedback_forwarding_email_address: Option<String>,
    pub from_email_address_identity_arn: String,
    pub from_email_address: String,
    pub reply_to_addresses: Option<Vec<String>>,
    pub destination: SesDestination,
    pub content: SesEmailContent,
    pub email_tags: Option<Vec<(String, String)>>,
}

/// A `SesContent` as contracts see it.
#[verifier::ext_equal]
pub struct SesContentView {
    pub data: Seq<char>,
    pub charset: Option<Seq<char>>,
}

/// A `SesBody` as contracts see it.
#[verifier::ext_equal]
pub struct SesBodyView {
    pub text: Option<SesContentView>,
    pub html: Option<SesContentView>,
}

/// A `SesEmailContent` as contracts see it.
#[verifier::ext_equal]
pub struct SesEmailContentView {
    pub subject: SesContentView,
    pub body: SesBodyView,
    pub headers: Option<Seq<(Seq<char>, Seq<char>)>>,
}

/// A `SesDestination` as contracts see it.
#[verifier::ext_equal]
pub struct SesDestinationView {
    pub to_addresses: Option<Seq<Seq<char>>>,
    pub cc_addresses: Option<Seq<Seq<char>>>,
    pub bcc_addresses: Option<Seq<Seq<char>>>,
}

/// A `SesSendEmail` as contracts see it.
#[verifier::ext_equal]
pub struct SesSendEmailView {
    pub configuration_set_name: Option<Seq<char>>,
    pub feedback_forwarding_email_address_identity_arn: Option<Seq<char>>,
    pub feedback_forwarding_email_address: Option<Seq<char>>,
    pub from_email_address_identity_arn: Seq<char>,
    pub from_email_address: Seq<char>,
    pub reply_to_addresses: Option<Seq<Seq<char>>>,
    pub destination: SesDestinationView,
    pub content: SesEmailContentView,
    pub email_tags: Option<Seq<(Seq<char>, Seq<char>)>>,
}

impl DeepView for SesContent {
    type V = SesContentView;

    open spec fn deep_view(&self) -> SesContentView {
        SesContentView { data: self.data@, charset: self.charset.deep_view() }
    }
}

impl DeepView for SesBody {
    type V = SesBodyView;

    open spec fn deep_view(&self) -> SesBodyView {
        SesBodyView { text: self.text.deep_view(), html: self.html.deep_view() }
    }
}

impl DeepView for SesEmailContent {
    type V = SesEmailContentView;

    open spec fn deep_view(&self) -> SesEmailContentView {
        SesEmailContentView {
            subject: self.subject.deep_view(),
            body: self.body.deep_view(),
            headers: self.headers.deep_view(),
        }
    }
}

impl DeepView for SesDestination {
    type V = SesDestinationView;

    open spec fn deep_view(&self) -> SesDestinationView {
        SesDestinationView {
            to_addresses: self.to_addresses.deep_view(),
            cc_addresses: self.cc_addresses.deep_view(),
            bcc_addresses: self.bcc_addresses.deep_view(),
        }
    }
}

impl DeepView for SesSendEmail {
    type V = SesSendEmailView;

    open spec fn deep_view(&self) -> SesSendEmailView {
        SesSendEmailView {
            configuration_set_name: self.configuration_set_name.deep_view(),
            feedback_forwarding_email_address_identity_arn: self
                .feedback_forwarding_email_address_identity_arn
                .deep_view(),
            feedback_forwarding_email_address: self.feedback_forwarding_email_address.deep_view(),
            from_email_address_identity_arn: self.from_email_address_identity_arn@,
            from_email_address: self.from_email_address@,
            reply_to_addresses: self.reply_to_addresses.deep_view(),
            destination: self.destination.deep_view(),
            content: self.content.deep_view(),
            email_tags: self.email_tags.deep_view(),
        }
    }
}

/// A text as SES takes it: the text, in UTF-8.
pub open spec fn spec_encode_string(s: Seq<char>) -> SesContentView {
    SesContentView { data: s, charset: Some("UTF-8"@) }
}

/// An optional text as SES takes it.
pub open spec fn spec_encode_optional(s: Option<Seq<char>>) -> Option<SesContentView> {
    match s {
        Some(s) => Some(spec_encode_string(s)),
        None => None,
    }
}

/// The display form of each address, in order.
pub open spec fn displays(addrs: Seq<AddressView>) -> Seq<Seq<char>> {
    addrs.map_values(|a: AddressView| a.display())
}

/// The display forms of the addresses, or nothing where there is none.
pub open spec fn displays_if_any(addrs: Seq<AddressView>) -> Option<Seq<Seq<char>>> {
    if addrs.len() > 0 {
        Some(displays(addrs))
    } else {
        None
    }
}

/// The recipients of a message: `to` always, `cc` and `bcc` where there
/// are any.
pub open spec fn spec_destination(m: MessageView) -> SesDestinationView {
    SesDestinationView {
        to_addresses: Some(displays(m.to)),
        cc_addresses: displays_if_any(m.cc),
        bcc_addresses: displays_if_any(m.bcc),
    }
}

/// The bodies of a message, each where the message has it.
pub open spec fn spec_body(m: MessageView) -> SesBodyView {
    SesBodyView {
        text: spec_encode_optional(m.text_body),
        html: spec_encode_optional(m.html_body),
    }
}

/// The email of a message: its subject, its bodies, and its headers where
/// it has any.
pub open spec fn spec_content(m: MessageView) -> SesEmailContentView {
    SesEmailContentView {
        subject: spec_encode_string(m.subject),
        body: spec_body(m),
        headers: if m.headers.len() > 0 {
            Some(m.headers)
        } else {
            None
        },
    }
}

/// The tags of a message: its category under the name `category`, where
/// it has one, then each of its headers as a tag. A message with neither
/// has no tags at all.
pub open spec fn spec_tags(m: MessageView) -> Option<Seq<(Seq<char>, Seq<char>)>> {
    match m.category {
        Some(c) => Some(seq![("category"@, c)] + m.headers),
        None => if m.headers.len() > 0 {
            Some(m.headers)
        } else {
            None
        },
    }
}

/// What the mailer hands `SendEmail` for a message.
pub open spec fn spec_send_email(
    configuration_set: Option<Seq<char>>,
    sender_identity_arn: Seq<char>,
    feedback_forwarding: Option<(Seq<char>, AddressView)>,
    m: MessageView,
) -> SesSendEmailView {
    SesSendEmailView {
        configuration_set_name: configuration_set,
        feedback_forwarding_email_address_identity_arn: match feedback_forwarding {
            Some(ff) => Some(ff.0),
            None => None,
        },
        feedback_forwarding_email_address: match feedback_forwarding {
            Some(ff) => Some(ff.1.display()),
            None => None,
        },
        from_email_address_identity_arn: sender_identity_arn,
        from_email_address: m.from.display(),
        reply_to_addresses: match m.reply_to {
            Some(a) => Some(seq![a.display()]),
            None => None,
        },
        destination: spec_destination(m),
        content: spec_content(m),
        email_tags: spec_tags(m),
    }
}

/// The text as SES takes it, in UTF-8.
pub fn encode_string(s: &str) -> (r: SesContent)
    ensures
        r.deep_view() == spec_encode_string(s@),
{
    SesContent { data: s.to_owned(), charset: Some("UTF-8".to_owned()) }
}

/// A tag: its name and its value.
pub fn build_tag(k: &str, v: &str) -> (r: (String, String))
    ensures
        r.deep_view() == (k@, v@),
{
    (k.to_owned(), v.to_owned())
}

/// A header: its name and its value.
pub fn build_header(k: &str, v: &str) -> (r: (String, String))
    ensures
        r.deep_view() == (k@, v@),
{
    (k.to_owned(), v.to_owned())
}

/// The display form of each address, in order.
fn display_all(addrs: &[Address<'_>]) -> (r: Vec<String>)
    ensures
        r.deep_view() == displays(address_views(addrs@)),
{
    let ghost views = address_views(addrs@);
    let mut out: Vec<String> = Vec::new();
    let mut i: usize = 0;
    while i < addrs.len()
        invariant
            i <= addrs.len(),
            views == address_views(addrs@),
            out.deep_view() == displays(views.take(i as int)),
        decreases addrs.len() - i,
    {
        let ghost before = out.deep_view();
        out.push(addrs[i].to_string());
        proof {
            assert(out.deep_view() =~= before.push(views[i as int].display()));
            assert(displays(views.take(i + 1)) =~= displays(views.take(i as int)).push(
                views[i as int].display(),
            ));
        }
        i += 1;
    }
    assert(views.take(i as int) =~= views);
    out
}

/// Each key and value as a pair of owned strings, in order.
fn own_pairs(pairs: &[(Cow<'_, str>, Cow<'_, str>)]) -> (r: Vec<(String, String)>)
    ensures
        r.deep_view() == pair_texts(pairs@),
{
    let mut out: Vec<(String, String)> = Vec::new();
    let mut i: usize = 0;
    while i < pairs.len()
        invariant
            i <= pairs.len(),
            out.deep_view() == pair_texts(pairs@).take(i as int),
        decreases pairs.len() - i,
    {
        let ghost before = out.deep_view();
        let pair = &pairs[i];
        out.push(build_header(as_str(&pair.0), as_str(&pair.1)));
        proof {
            assert(out.deep_view() =~= before.push((pair.0@, pair.1@)));
            assert(pair_texts(pairs@).take(i + 1) =~= pair_texts(pairs@).take(i as int).push(
                (pair.0@, pair.1@),
            ));
        }
        i += 1;
    }
    assert(pair_texts(pairs@).take(i as int) =~= pair_texts(pairs@));
    out
}

impl AwsSesMailer {
    /// The recipients of the message, each in display form.
    pub fn build_destination(m: &Message<'_>) -> (r: SesDestination)
        ensures
            r.deep_view() == spec_destination(m@),
    {
        let to = display_all(m.to.as_slice());
        let mut destination = SesDestination {
            to_addresses: Some(to),
            cc_addresses: None,
            bcc_addresses: None,
        };

        if !m.cc.is_empty() {
            destination.cc_addresses = Some(display_all(m.cc.as_slice()));
        }

        if !m.bcc.is_empty() {
            destination.bcc_addresses = Some(display_all(m.bcc.as_slice()));
        }

        destination
    }

    /// The bodies of the message.
    pub fn build_body(m: &Message<'_>) -> (r: SesBody)
        ensures
            r.deep_view() == spec_body(m@),
    {
        let mut body = SesBody { text: None, html: None };

        if let Some(text) = &m.text_body {
            body.text = Some(encode_string(as_str(text)));
        }

        if let Some(html) = &m.html_body {
            body.html = Some(encode_string(as_str(html)));
        }

        body
    }

    /// The email of the message: subject, bodies and headers.
    pub fn build_content(m: &Message<'_>) -> (r: SesEmailContent)
        ensures
            r.deep_view() == spec_content(m@),
    {
        let headers = if !m.headers.is_empty() {
            Some(own_pairs(m.headers.as_slice()))
        } else {
            None
        };
        let subject = encode_string(as_str(&m.subject));
        let body = Self::build_body(m);
        SesEmailContent { subject, body, headers }
    }

    /// The tags that go with a message.
    pub fn build_tags(m: &Message<'_>) -> (r: Option<Vec<(String, String)>>)
        ensures
            r.deep_view() == spec_tags(m@),
    {
        if m.category.is_some() || !m.headers.is_empty() {
            let mut tags: Vec<(String, String)> = Vec::new();
            assert(tags.deep_view() =~= Seq::empty());

            if let Some(category) = &m.category {
                tags.push(build_tag("category", as_str(category)));
                assert(tags.deep_view() =~= seq![("category"@, category@)]);
            }
            let ghost first = tags.deep_view();

            let mut rest = own_pairs(m.headers.as_slice());
            let ghost more = rest.deep_view();
            tags.append(&mut rest);
            assert(tags.deep_view() =~= first + more);
            assert(Seq::<(Seq<char>, Seq<char>)>::empty() + more =~= more);
            Some(tags)
        } else {
            None
        }
    }

    /// Everything that `SendEmail` is handed for a message.
    pub fn build_send_email(&self, m: &Message<'_>) -> (r: SesSendEmail)
        ensures
            r.deep_view() == spec_send_email(
                self.configuration_set.deep_view(),
                self.sender_identity_arn@,
                match self.feedback_forwarding {
                    Some(ff) => Some((ff.identity_arn@, ff.email@)),
                    None => None,
                },
                m@,
            ),
    {
        let configuration_set_name = match &self.configuration_set {
            Some(config) => Some(config.clone()),
            None => None,
        };
        let (feedback_arn, feedback_address) = match &self.feedback_forwarding {
            Some(ff) => (Some(ff.identity_arn.clone()), Some(ff.email.to_string())),
            None => (None, None),
        };
        let reply_to_addresses = match &m.reply_to {
            Some(reply_to) => {
                let mut addresses: Vec<String> = Vec::new();
                addresses.push(reply_to.to_string());
                assert(addresses.deep_view() =~= seq![reply_to@.display()]);
                Some(addresses)
            },
            None => None,
        };
        SesSendEmail {
            configuration_set_name,
            feedback_forwarding_email_address_identity_arn: feedback_arn,
            feedback_forwarding_email_address: feedback_address,
            from_email_address_identity_arn: self.sender_identity_arn.clone(),
            from_email_address: m.from.to_string(),
            reply_to_addresses,
            destination: Self::build_destination(m),
            content: Self::build_content(m),
            email_tags: Self::build_tags(m),
        }
    }

    /// The identifiers that an answer of `SendEmail` names: its message
    /// identifier, where it has one.
    pub fn message_ids(message_id: Option<String>) -> (r: Vec<String>)
        ensures
            r.deep_view() == match message_id {
                Some(id) => seq![id@],
                None => Seq::<Seq<char>>::empty(),
            },
    {
        let mut ids: Vec<String> = Vec::new();
        if let Some(id) = message_id {
            ids.push(id);
            assert(ids.deep_view() =~= seq![id@]);
        } else {
            assert(ids.deep_view() =~= Seq::<Seq<char>>::empty());
        }
        ids
    }
}

} // verus!
