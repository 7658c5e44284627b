//! The message envelope and the builder that is the only way to make one.

use crate::address::address_views;
use crate::address::opt_address;
use crate::address::Address;
use crate::address::AddressView;
use crate::address::IntoAddress;
use crate::text::opt_text;
use crate::text::pair_texts;
use crate::text::IntoText;
use std::borrow::Cow;
use vstd::prelude::*;

verus! {

/// A message as contracts see it.
#[verifier::ext_equal]
pub struct MessageView {
    pub category: Option<Seq<char>>,
    pub metadata: Seq<(Seq<char>, Seq<char>)>,
    pub from: AddressView,
    pub reply_to: Option<AddressView>,
    pub to: Seq<AddressView>,
    pub cc: Seq<AddressView>,
    pub bcc: Seq<AddressView>,
    pub headers: Seq<(Seq<char>, Seq<char>)>,
    pub subject: Seq<char>,
    pub text_body: Option<Seq<char>>,
    pub html_body: Option<Seq<char>>,
}

impl MessageView {
    /// What `build` has checked of every message that it hands out: there
    /// is a recipient, and there is a body.
    pub open spec fn complete(self) -> bool {
        &&& self.to.len() > 0
        &&& (self.text_body is Some || self.html_body is Some)
    }
}

/// An email: who sends it, who receives it, and what it says. `build` is
/// what makes one, and nothing checks a message again after that.
#[derive(Debug, Clone)]
pub struct Message<'a> {
    pub category: Option<Cow<'a, str>>,
    pub metadata: Vec<(Cow<'a, str>, Cow<'a, str>)>,
    pub from: Address<'a>,
    pub reply_to: Option<Address<'a>>,
    pub to: Vec<Address<'a>>,
    pub cc: Vec<Address<'a>>,
    pub bcc: Vec<Address<'a>>,
    pub headers: Vec<(Cow<'a, str>, Cow<'a, str>)>,
    pub subject: Cow<'a, str>,
    pub text_body: Option<Cow<'a, str>>,
    pub html_body: Option<Cow<'a, str>>,
}

impl<'a> View for Message<'a> {
    type V = MessageView;

    open spec fn view(&self) -> MessageView {
        MessageView {
            category: opt_text(self.category),
            metadata: pair_texts(self.metadata@),
            from: self.from@,
            reply_to: opt_address(self.reply_to),
            to: address_views(self.to@),
            cc: address_views(self.cc@),
            bcc: address_views(self.bcc@),
            headers: pair_texts(self.headers@),
            subject: self.subject@,
            text_body: opt_text(self.text_body),
            html_body: opt_text(self.html_body),
        }
    }
}

impl Message<'_> {
    /// A builder in which nothing is set.
    pub fn builder<'a>() -> (r: MessageBuilder<'a>)
        ensures
            r@ == MessageBuilderView::empty(),
    {
        MessageBuilder::new()
    }
}

/// Why `build` made no message: the first of the four things it asks for
/// that the builder lacks.
#[allow(clippy::enum_variant_names)]
#[derive(Debug)]
pub enum MessageBuilderError {
    MissingFrom,
    MissingTo,
    MissingSubject,
    MissingBody,
}

impl MessageBuilderError {
    /// The words of the error.
    pub open spec fn message(self) -> Seq<char> {
        match self {
            MessageBuilderError::MissingFrom => "Sender (`from`) is missing"@,
            MessageBuilderError::MissingTo => "Recipient (`to`) is missing"@,
            MessageBuilderError::MissingSubject => "Subject is missing"@,
            MessageBuilderError::MissingBody => {
                "Body is missing, provide at least one of `text_body` or `html_body`"@
            },
        }
    }

    /// The error in words, for a log.
    pub fn to_string(&self) -> (r: String)
        ensures
            r@ == self.message(),
    {
        let message = match self {
            MessageBuilderError::MissingFrom => "Sender (`from`) is missing",
            MessageBuilderError::MissingTo => "Recipient (`to`) is missing",
            MessageBuilderError::MissingSubject => "Subject is missing",
            MessageBuilderError::MissingBody => {
                "Body is missing, provide at least one of `text_body` or `html_body`"
            },
        };
        message.to_owned()
    }
}

/// A builder as contracts see it: one slot for each field of a message.
#[verifier::ext_equal]
pub struct MessageBuilderView {
    pub category: Option<Seq<char>>,
    pub metadata: Seq<(Seq<char>, Seq<char>)>,
    pub from: Option<AddressView>,
    pub reply_to: Option<AddressView>,
    pub to: Seq<AddressView>,
    pub cc: Seq<AddressView>,
    pub bcc: Seq<AddressView>,
    pub headers: Seq<(Seq<char>, Seq<char>)>,
    pub subject: Option<Seq<char>>,
    pub text_body: Option<Seq<char>>,
    pub html_body: Option<Seq<char>>,
}

impl MessageBuilderView {
    /// The builder in which nothing is set.
    pub open spec fn empty() -> Self {
        MessageBuilderView {
            category: None,
            metadata: Seq::empty(),
            from: None,
            reply_to: None,
            to: Seq::empty(),
            cc: Seq::empty(),
            bcc: Seq::empty(),
            headers: Seq::empty(),
            subject: None,
            text_body: None,
            html_body: None,
        }
    }

    /// The builder with the category set or cleared.
    pub open spec fn with_category(self, category: Option<Seq<char>>) -> Self {
        MessageBuilderView { category, ..self }
    }

    /// The builder with one more entry of metadata, behind the others.
    pub open spec fn add_metadata(self, key: Seq<char>, value: Seq<char>) -> Self {
        MessageBuilderView { metadata: self.metadata.push((key, value)), ..self }
    }

    /// The builder with these entries of metadata and no others.
    pub open spec fn with_metadata(self, metadata: Seq<(Seq<char>, Seq<char>)>) -> Self {
        MessageBuilderView { metadata, ..self }
    }

    /// The builder with this sender.
    pub open spec fn with_from(self, from: AddressView) -> Self {
        MessageBuilderView { from: Some(from), ..self }
    }

    /// The builder with the address for replies set or cleared.
    pub open spec fn with_reply_to(self, reply_to: Option<AddressView>) -> Self {
        MessageBuilderView { reply_to, ..self }
    }

    /// The builder with one more recipient, behind the others.
    pub open spec fn add_to(self, address: AddressView) -> Self {
        MessageBuilderView { to: self.to.push(address), ..self }
    }

    /// The builder with these recipients and no others.
    pub open spec fn with_to(self, to: Seq<AddressView>) -> Self {
        MessageBuilderView { to, ..self }
    }

    /// The builder with one more recipient of a copy, behind the others.
    pub open spec fn add_cc(self, address: AddressView) -> Self {
        MessageBuilderView { cc: self.cc.push(address), ..self }
    }

    /// The builder with these recipients of a copy and no others.
    pub open spec fn with_cc(self, cc: Seq<AddressView>) -> Self {
        MessageBuilderView { cc, ..self }
    }

    /// The builder with one more recipient of a hidden copy, behind the
    /// others.
    pub open spec fn add_bcc(self, address: AddressView) -> Self {
        MessageBuilderView { bcc: self.bcc.push(address), ..self }
    }

    /// The builder with these recipients of a hidden copy and no others.
    pub open spec fn with_bcc(self, bcc: Seq<AddressView>) -> Self {
        MessageBuilderView { bcc, ..self }
    }

    /// The builder with one more header, behind the others.
    pub open spec fn add_header(self, key: Seq<char>, value: Seq<char>) -> Self {
        MessageBuilderView { headers: self.headers.push((key, value)), ..self }
    }

    /// The builder with these headers and no others.
    pub open spec fn with_headers(self, headers: Seq<(Seq<char>, Seq<char>)>) -> Self {
        MessageBuilderView { headers, ..self }
    }

    /// The builder with this subject.
    pub open spec fn with_subject(self, subject: Seq<char>) -> Self {
        MessageBuilderView { subject: Some(subject), ..self }
    }

    /// The builder with the plain text body set or cleared.
    pub open spec fn with_text_body(self, body: Option<Seq<char>>) -> Self {
        MessageBuilderView { text_body: body, ..self }
    }

    /// The builder with the HTML body set or cleared.
    pub open spec fn with_html_body(self, body: Option<Seq<char>>) -> Self {
        MessageBuilderView { html_body: body, ..self }
    }

    /// The first thing that `build` finds missing, in the order in which it
    /// looks: sender, recipient, subject, body.
    pub open spec fn missing(self) -> Option<MessageBuilderError> {
        if self.from is None {
            Some(MessageBuilderError::MissingFrom)
        } else if self.to.len() == 0 {
            Some(MessageBuilderError::MissingTo)
        } else if self.subject is None {
            Some(MessageBuilderError::MissingSubject)
        } else if self.text_body is None && self.html_body is None {
            Some(MessageBuilderError::MissingBody)
        } else {
            None
        }
    }

    /// The message that `build` makes of a builder in which nothing is
    /// missing: every slot goes over as it is.
    pub open spec fn message(self) -> MessageView
        recommends
            self.missing() is None,
    {
        MessageView {
            category: self.category,
            metadata: self.metadata,
            from: self.from->0,
            reply_to: self.reply_to,
            to: self.to,
            cc: self.cc,
            bcc: self.bcc,
            headers: self.headers,
            subject: self.subject->0,
            text_body: self.text_body,
            html_body: self.html_body,
        }
    }

    /// What `build` returns.
    pub open spec fn build(self) -> Result<MessageView, MessageBuilderError> {
        match self.missing() {
            Some(e) => Err(e),
            None => Ok(self.message()),
        }
    }
}

/// A builder without a sender builds nothing and says that the sender is
/// missing, whatever else it lacks; so does the builder in which nothing is
/// set.
pub proof fn lemma_missing_from_comes_first(b: MessageBuilderView)
    requires
        b.from is None,
    ensures
        b.build() == Err::<MessageView, MessageBuilderError>(MessageBuilderError::MissingFrom),
        MessageBuilderView::empty().build() == Err::<MessageView, MessageBuilderError>(
            MessageBuilderError::MissingFrom,
        ),
{
}

/// `build` succeeds exactly when a sender, a recipient, a subject and a
/// body are set, and the message it makes then has a recipient and a body.
pub proof fn lemma_build_succeeds(b: MessageBuilderView)
    ensures
        b.build() is Ok <==> b.from is Some && b.to.len() > 0 && b.subject is Some && (
        b.text_body is Some || b.html_body is Some),
        b.build() is Ok ==> b.build()->Ok_0.complete(),
{
}

/// A sender, one recipient, a subject and a text body are enough: the
/// message has that one recipient and that text body.
pub proof fn lemma_minimal_message(
    from: AddressView,
    to: AddressView,
    subject: Seq<char>,
    body: Seq<char>,
)
    ensures
        ({
            let b = MessageBuilderView::empty().with_from(from).add_to(to).with_subject(
                subject,
            ).with_text_body(Some(body));
            &&& b.build() is Ok
            &&& b.build()->Ok_0.from == from
            &&& b.build()->Ok_0.to == seq![to]
            &&& b.build()->Ok_0.to.len() == 1
            &&& b.build()->Ok_0.subject == subject
            &&& b.build()->Ok_0.text_body == Some(body)
        }),
{
    assert(MessageBuilderView::empty().to.push(to) =~= seq![to]);
}

/// Setting a whole list at once replaces what was added one by one before:
/// only the new entries are left, in the order given. This holds of the
/// recipients, of the copies, of the hidden copies, of the headers and of
/// the metadata alike.
pub proof fn lemma_bulk_set_replaces(
    b: MessageBuilderView,
    a: AddressView,
    all: Seq<AddressView>,
    pair: (Seq<char>, Seq<char>),
    pairs: Seq<(Seq<char>, Seq<char>)>,
)
    ensures
        b.add_to(a).with_to(all).to == all,
        b.add_to(a).with_to(all) == b.with_to(all),
        b.add_cc(a).with_cc(all).cc == all,
        b.add_cc(a).with_cc(all) == b.with_cc(all),
        b.add_bcc(a).with_bcc(all).bcc == all,
        b.add_bcc(a).with_bcc(all) == b.with_bcc(all),
        b.add_header(pair.0, pair.1).with_headers(pairs).headers == pairs,
        b.add_header(pair.0, pair.1).with_headers(pairs) == b.with_headers(pairs),
        b.add_metadata(pair.0, pair.1).with_metadata(pairs).metadata == pairs,
        b.add_metadata(pair.0, pair.1).with_metadata(pairs) == b.with_metadata(pairs),
{
}

/// Adding recipients one by one keeps them all, in the order of the calls.
pub proof fn lemma_to_appends(b: MessageBuilderView, a1: AddressView, a2: AddressView)
    ensures
        b.add_to(a1).add_to(a2).to.len() == b.to.len() + 2,
        b.add_to(a1).add_to(a2).to == b.to + seq![a1, a2],
{
    assert(b.to.push(a1).push(a2) =~= b.to + seq![a1, a2]);
}

/// A setter touches its own slot and no other.
pub proof fn lemma_setters_keep_other_slots(
    b: MessageBuilderView,
    a: AddressView,
    text: Seq<char>,
)
    ensures
        b.with_subject(text).with_from(a) == b.with_from(a).with_subject(text),
        b.add_to(a).with_subject(text) == b.with_subject(text).add_to(a),
        b.with_from(a).to == b.to,
        b.add_to(a).from == b.from,
        b.with_subject(text).text_body == b.text_body,
        b.with_text_body(Some(text)).html_body == b.html_body,
{
}

/// Collects the fields of a message. No setter checks anything: `build`
/// does, once, at the end.
#[derive(Debug, Clone)]
pub struct MessageBuilder<'a> {
    category: Option<Cow<'a, str>>,
    metadata: Vec<(Cow<'a, str>, Cow<'a, str>)>,
    from: Option<Address<'a>>,
    reply_to: Option<Address<'a>>,
    to: Vec<Address<'a>>,
    cc: Vec<Address<'a>>,
    bcc: Vec<Address<'a>>,
    headers: Vec<(Cow<'a, str>, Cow<'a, str>)>,
    subject: Option<Cow<'a, str>>,
    text_body: Option<Cow<'a, str>>,
    html_body: Option<Cow<'a, str>>,
}

impl<'a> View for MessageBuilder<'a> {
    type V = MessageBuilderView;

    closed spec fn view(&self) -> MessageBuilderView {
        MessageBuilderView {
            category: opt_text(self.category),
            metadata: pair_texts(self.metadata@),
            from: opt_address(self.from),
            reply_to: opt_address(self.reply_to),
            to: address_views(self.to@),
            cc: address_views(self.cc@),
            bcc: address_views(self.bcc@),
            headers: pair_texts(self.headers@),
            subject: opt_text(self.subject),
            text_body: opt_text(self.text_body),
            html_body: opt_text(self.html_body),
        }
    }
}

impl<'a> Default for MessageBuilder<'a> {
    fn default() -> (r: Self)
        ensures
            r@ == MessageBuilderView::empty(),
    {
        let r = MessageBuilder {
            category: None,
            metadata: Vec::new(),
            from: None,
            reply_to: None,
            to: Vec::new(),
            cc: Vec::new(),
            bcc: Vec::new(),
            headers: Vec::new(),
            subject: None,
            text_body: None,
            html_body: None,
        };
        assert(r@ =~= MessageBuilderView::empty());
        r
    }
}

/// Converts each item to an address, in order.
fn into_addresses<'a, T: IntoAddress<'a>>(items: Vec<T>) -> (r: Vec<Address<'a>>)
    ensures
        r@ == items@.map_values(|t: T| t.address()),
{
    let ghost all = items@;
    let mut out: Vec<Address<'a>> = Vec::new();
    for item in it: items.into_iter()
        invariant
            it.seq() == all,
            out@ == all.take(it.index() as int).map_values(|t: T| t.address()),
    {
        proof {
            let n = it.index() as int;
            assert(all.take(n + 1).map_values(|t: T| t.address()) =~= all.take(n).map_values(
                |t: T| t.address(),
            ).push(all[n].address()));
        }
        out.push(item.into_address());
    }
    assert(all.take(all.len() as int) =~= all);
    out
}

/// Converts each key and value to stored text, in order.
fn into_pairs<'a, K: IntoText<'a>, V: IntoText<'a>>(items: Vec<(K, V)>) -> (r: Vec<
    (Cow<'a, str>, Cow<'a, str>),
>)
    ensures
        r@ == items@.map_values(|p: (K, V)| (p.0.text(), p.1.text())),
{
    let ghost all = items@;
    let mut out: Vec<(Cow<'a, str>, Cow<'a, str>)> = Vec::new();
    for item in it: items.into_iter()
        invariant
            it.seq() == all,
            out@ == all.take(it.index() as int).map_values(|p: (K, V)| (p.0.text(), p.1.text())),
    {
        proof {
            let n = it.index() as int;
            assert(all.take(n + 1).map_values(|p: (K, V)| (p.0.text(), p.1.text())) =~= all.take(
                n,
            ).map_values(|p: (K, V)| (p.0.text(), p.1.text())).push(
                (all[n].0.text(), all[n].1.text()),
            ));
        }
        let (key, value) = item;
        out.push((key.into_text(), value.into_text()));
    }
    assert(all.take(all.len() as int) =~= all);
    out
}

/// The view of what each item stands for, in order.
pub open spec fn given_addresses<'a, T: IntoAddress<'a>>(items: Seq<T>) -> Seq<AddressView> {
    items.map_values(|t: T| t.address()@)
}

/// The characters of each key and value, in order.
pub open spec fn given_pairs<'a, K: IntoText<'a>, V: IntoText<'a>>(items: Seq<(K, V)>) -> Seq<
    (Seq<char>, Seq<char>),
> {
    items.map_values(|p: (K, V)| (p.0.text()@, p.1.text()@))
}

/// The characters of an optional text as it is given.
pub open spec fn given_text<'a, T: IntoText<'a>>(text: Option<T>) -> Option<Seq<char>> {
    match text {
        Some(t) => Some(t.text()@),
        None => None,
    }
}

/// The view of the address that an optional item stands for.
pub open spec fn given_address<'a, T: IntoAddress<'a>>(address: Option<T>) -> Option<AddressView> {
    match address {
        Some(a) => Some(a.address()@),
        None => None,
    }
}

impl<'a> MessageBuilder<'a> {
    /// A builder in which nothing is set.
    pub fn new() -> (r: Self)
        ensures
            r@ == MessageBuilderView::empty(),
    {
        Self::default()
    }

    /// Sets the category, in place of any set before.
    pub fn category<T: IntoText<'a>>(self, category: T) -> (r: Self)
        ensures
            r@ == self@.with_category(Some(category.text()@)),
    {
        let mut this = self;
        this.category = Some(category.into_text());
        this
    }

    /// Sets the category or, with `None`, clears it.
    pub fn set_category<T: IntoText<'a>>(self, category: Option<T>) -> (r: Self)
        ensures
            r@ == self@.with_category(given_text(category)),
    {
        let mut this = self;
        this.category = match category {
            Some(c) => Some(c.into_text()),
            None => None,
        };
        this
    }

    /// Adds one entry of metadata, after those added before.
    pub fn metadata<K: IntoText<'a>, V: IntoText<'a>>(self, key: K, value: V) -> (r: Self)
        ensures
            r@ == self@.add_metadata(key.text()@, value.text()@),
    {
        let mut this = self;
        let ghost before = this.metadata@;
        this.metadata.push((key.into_text(), value.into_text()));
        assert(pair_texts(this.metadata@) =~= pair_texts(before).push(
            (key.text()@, value.text()@),
        ));
        this
    }

    /// Sets all the metadata at once, in place of what was there.
    pub fn set_metadata<K: IntoText<'a>, V: IntoText<'a>>(self, kv_pairs: Vec<(K, V)>) -> (r:
        Self)
        ensures
            r@ == self@.with_metadata(given_pairs(kv_pairs@)),
    {
        let mut this = self;
        this.metadata = into_pairs(kv_pairs);
        assert(pair_texts(this.metadata@) =~= given_pairs(kv_pairs@));
        this
    }

    /// Sets the sender, in place of any set before.
    pub fn from<A: IntoAddress<'a>>(self, address: A) -> (r: Self)
        ensures
            r@ == self@.with_from(address.address()@),
    {
        let mut this = self;
        this.from = Some(address.into_address());
        this
    }

    /// Sets the address that replies go to, in place of any set before.
    pub fn reply_to<A: IntoAddress<'a>>(self, address: A) -> (r: Self)
        ensures
            r@ == self@.with_reply_to(Some(address.address()@)),
    {
        let mut this = self;
        this.reply_to = Some(address.into_address());
        this
    }

    /// Sets the address that replies go to or, with `None`, clears it.
    pub fn set_reply_to<A: IntoAddress<'a>>(self, address: Option<A>) -> (r: Self)
        ensures
            r@ == self@.with_reply_to(given_address(address)),
    {
        let mut this = self;
        this.reply_to = match address {
            Some(a) => Some(a.into_address()),
            None => None,
        };
        this
    }

    /// Adds one recipient, after those added before.
    pub fn to<A: IntoAddress<'a>>(self, address: A) -> (r: Self)
        ensures
            r@ == self@.add_to(address.address()@),
    {
        let mut this = self;
        let ghost before = this.to@;
        this.to.push(address.into_address());
        assert(address_views(this.to@) =~= address_views(before).push(address.address()@));
        this
    }

    /// Sets all the recipients at once, in place of those that were there.
    pub fn set_to<T: IntoAddress<'a>>(self, addresses: Vec<T>) -> (r: Self)
        ensures
            r@ == self@.with_to(given_addresses(addresses@)),
    {
        let mut this = self;
        this.to = into_addresses(addresses);
        assert(address_views(this.to@) =~= given_addresses(addresses@));
        this
    }

    /// Adds one recipient of a copy, after those added before.
    pub fn cc<A: IntoAddress<'a>>(self, address: A) -> (r: Self)
        ensures
            r@ == self@.add_cc(address.address()@),
    {
        let mut this = self;
        let ghost before = this.cc@;
        this.cc.push(address.into_address());
        assert(address_views(this.cc@) =~= address_views(before).push(address.address()@));
        this
    }

    /// Sets all the recipients of a copy at once, in place of those that
    /// were there.
    pub fn set_cc<T: IntoAddress<'a>>(self, addresses: Vec<T>) -> (r: Self)
        ensures
            r@ == self@.with_cc(given_addresses(addresses@)),
    {
        let mut this = self;
        this.cc = into_addresses(addresses);
        assert(address_views(this.cc@) =~= given_addresses(addresses@));
        this
    }

    /// Adds one recipient of a hidden copy, after those added before.
    pub fn bcc<A: IntoAddress<'a>>(self, address: A) -> (r: Self)
        ensures
            r@ == self@.add_bcc(address.address()@),
    {
        let mut this = self;
        let ghost before = this.bcc@;
        this.bcc.push(address.into_address());
        assert(address_views(this.bcc@) =~= address_views(before).push(address.address()@));
        this
    }

    /// Sets all the recipients of a hidden copy at once, in place of those
    /// that were there.
    pub fn set_bcc<T: IntoAddress<'a>>(self, addresses: Vec<T>) -> (r: Self)
        ensures
            r@ == self@.with_bcc(given_addresses(addresses@)),
    {
        let mut this = self;
        this.bcc = into_addresses(addresses);
        assert(address_views(this.bcc@) =~= given_addresses(addresses@));
        this
    }

    /// Adds one header, after those added before.
    pub fn headers<K: IntoText<'a>, V: IntoText<'a>>(self, key: K, value: V) -> (r: Self)
        ensures
            r@ == self@.add_header(key.text()@, value.text()@),
    {
        let mut this = self;
        let ghost before = this.headers@;
        this.headers.push((key.into_text(), value.into_text()));
        assert(pair_texts(this.headers@) =~= pair_texts(before).push(
            (key.text()@, value.text()@),
        ));
        this
    }

    /// Sets all the headers at once, in place of those that were there.
    pub fn set_headers<K: IntoText<'a>, V: IntoText<'a>>(self, kv_pairs: Vec<(K, V)>) -> (r:
        Self)
        ensures
            r@ == self@.with_headers(given_pairs(kv_pairs@)),
    {
        let mut this = self;
        this.headers = into_pairs(kv_pairs);
        assert(pair_texts(this.headers@) =~= given_pairs(kv_pairs@));
        this
    }

    /// Sets the subject, in place of any set before.
    pub fn subject<T: IntoText<'a>>(self, subject: T) -> (r: Self)
        ensures
            r@ == self@.with_subject(subject.text()@),
    {
        let mut this = self;
        this.subject = Some(subject.into_text());
        this
    }

    /// Sets the plain text body, in place of any set before.
    pub fn text_body<T: IntoText<'a>>(self, body: T) -> (r: Self)
        ensures
            r@ == self@.with_text_body(Some(body.text()@)),
    {
        let mut this = self;
        this.text_body = Some(body.into_text());
        this
    }

    /// Sets the plain text body or, with `None`, clears it.
    pub fn set_text_body<T: IntoText<'a>>(self, body: Option<T>) -> (r: Self)
        ensures
            r@ == self@.with_text_body(given_text(body)),
    {
        let mut this = self;
        this.text_body = match body {
            Some(b) => Some(b.into_text()),
            None => None,
        };
        this
    }

    /// Sets the HTML body, in place of any set before.
    pub fn html_body<T: IntoText<'a>>(self, body: T) -> (r: Self)
        ensures
            r@ == self@.with_html_body(Some(body.text()@)),
    {
        let mut this = self;
        this.html_body = Some(body.into_text());
        this
    }

    /// Sets the HTML body or, with `None`, clears it.
    pub fn set_html_body<T: IntoText<'a>>(self, body: Option<T>) -> (r: Self)
        ensures
            r@ == self@.with_html_body(given_text(body)),
    {
        let mut this = self;
        this.html_body = match body {
            Some(b) => Some(b.into_text()),
            None => None,
        };
        this
    }

    /// Makes the message, or says what is missing: the sender, then a
    /// recipient, then the subject, then a body, whichever is missed first.
    pub fn build(self) -> (r: Result<Message<'a>, MessageBuilderError>)
        ensures
            match r {
                Ok(m) => self@.build() == Ok::<MessageView, MessageBuilderError>(m@),
                Err(e) => self@.build() == Err::<MessageView, MessageBuilderError>(e),
            },
    {
        let from = match self.from {
            Some(from) => from,
            None => {
                return Err(MessageBuilderError::MissingFrom);
            },
        };

        if self.to.is_empty() {
            return Err(MessageBuilderError::MissingTo);
        }

        let subject = match self.subject {
            Some(subject) => subject,
            None => {
                return Err(MessageBuilderError::MissingSubject);
            },
        };

        if self.text_body.is_none() && self.html_body.is_none() {
            return Err(MessageBuilderError::MissingBody);
        }

        let m = Message {
            category: self.category,
            metadata: self.metadata,
            from,
            reply_to: self.reply_to,
            to: self.to,
            cc: self.cc,
            bcc: self.bcc,
            headers: self.headers,
            subject,
            text_body: self.text_body,
            html_body: self.html_body,
        };
        assert(m@ =~= self@.message());
        Ok(m)
    }
}

} // verus!
