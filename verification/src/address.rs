//! An address: an email and, optionally, the name shown beside it.

use crate::text::as_str;
use crate::text::opt_text;
use crate::text::IntoText;
use crate::utils::encode_mime_b;
use crate::utils::base64_standard;
use crate::utils::encoded_word_prefix;
use crate::utils::encoded_word_suffix;
use crate::utils::spec_encode_mime_b;
use std::borrow::Cow;
use vstd::prelude::*;
use vstd::string::StringExecFns;
use vstd::utf8::encode_scalar;
use vstd::utf8::encode_utf8;

verus! {

/// True for the bytes of printable ASCII, space through tilde.
pub open spec fn spec_is_safe_ascii(b: u8) -> bool {
    0x20 <= b <= 0x7e
}

/// True when every byte is printable ASCII.
pub open spec fn all_safe_ascii(bytes: Seq<u8>) -> bool {
    forall|i: int| 0 <= i < bytes.len() ==> spec_is_safe_ascii(#[trigger] bytes[i])
}

/// What one byte of a name becomes inside a quoted string: a backslash and
/// a double quote get a backslash in front, any other byte stands as it is.
pub open spec fn escaped_byte(b: u8) -> Seq<char> {
    if b == 0x5c {
        seq!['\\', '\\']
    } else if b == 0x22 {
        seq!['\\', '"']
    } else {
        seq![b as char]
    }
}

/// The bytes of a name, each escaped, in order.
pub open spec fn escaped(bytes: Seq<u8>) -> Seq<char>
    decreases bytes.len(),
{
    if bytes.len() == 0 {
        Seq::empty()
    } else {
        escaped(bytes.drop_last()) + escaped_byte(bytes.last())
    }
}

/// The quoted string of RFC 5322: the escaped bytes between double quotes.
pub open spec fn quoted_string(bytes: Seq<u8>) -> Seq<char> {
    seq!['"'] + escaped(bytes) + seq!['"']
}

/// How a display name is written in a header. A name of printable ASCII
/// alone is a quoted string; any other name is one encoded word, whole.
pub open spec fn spec_quote_display_name(name: Seq<char>) -> Seq<char> {
    if all_safe_ascii(encode_utf8(name)) {
        quoted_string(encode_utf8(name))
    } else {
        spec_encode_mime_b(name)
    }
}

/// True for the characters of printable ASCII, space through tilde.
pub open spec fn is_safe_char(c: char) -> bool {
    ' ' <= c <= '~'
}

/// True when every character is printable ASCII.
pub open spec fn all_safe_chars(name: Seq<char>) -> bool {
    forall|i: int| 0 <= i < name.len() ==> is_safe_char(#[trigger] name[i])
}

/// Reads a quoted string's content back: a backslash gives way to the
/// character behind it, any other character stands for itself.
pub open spec fn unescaped(s: Seq<char>) -> Seq<char>
    decreases s.len(),
{
    if s.len() == 0 {
        Seq::empty()
    } else if s[0] == '\\' && s.len() >= 2 {
        seq![s[1]] + unescaped(s.skip(2))
    } else {
        seq![s[0]] + unescaped(s.skip(1))
    }
}

proof fn lemma_first_byte(c: char)
    ensures
        encode_scalar(c as u32).len() >= 1,
        is_safe_char(c) ==> encode_scalar(c as u32) == seq![c as u8],
        !is_safe_char(c) ==> !spec_is_safe_ascii(encode_scalar(c as u32)[0]),
{
    let v = c as u32;
    if v <= 0x7f {
        assert((v & 0x7f) as u8 == v as u8) by (bit_vector)
            requires
                v <= 0x7f,
        ;
    }
    assert((0xc0 | ((v >> 6) & 0x1f) as u8) >= 0xc0u8) by (bit_vector);
    assert((0xe0 | ((v >> 12) & 0x0f) as u8) >= 0xe0u8) by (bit_vector);
    assert((0xf0 | ((v >> 18) & 0x07) as u8) >= 0xf0u8) by (bit_vector);
}

/// A name's bytes are all printable ASCII exactly when its characters are,
/// and then each character is one byte.
pub proof fn lemma_safe_bytes_are_safe_chars(name: Seq<char>)
    ensures
        all_safe_ascii(encode_utf8(name)) <==> all_safe_chars(name),
        all_safe_chars(name) ==> encode_utf8(name) == name.map_values(|c: char| c as u8),
    decreases name.len(),
{
    let bytes = encode_utf8(name);
    if name.len() == 0 {
        assert(bytes =~= name.map_values(|c: char| c as u8));
    } else {
        let rest = name.drop_first();
        let first = encode_scalar(name[0] as u32);
        lemma_first_byte(name[0]);
        lemma_safe_bytes_are_safe_chars(rest);
        assert(bytes == first + encode_utf8(rest));
        if all_safe_chars(name) {
            assert(is_safe_char(name[0]));
            assert forall|i: int| 0 <= i < rest.len() implies is_safe_char(#[trigger] rest[i]) by {
                assert(rest[i] == name[i + 1]);
            }
            assert(bytes =~= name.map_values(|c: char| c as u8));
            assert forall|i: int| 0 <= i < bytes.len() implies spec_is_safe_ascii(
                #[trigger] bytes[i],
            ) by {
                assert(is_safe_char(name[i]));
            }
        }
        if all_safe_ascii(bytes) {
            assert(bytes[0] == first[0]);
            assert(is_safe_char(name[0]));
            assert forall|i: int| 0 <= i < encode_utf8(rest).len() implies spec_is_safe_ascii(
                #[trigger] encode_utf8(rest)[i],
            ) by {
                assert(encode_utf8(rest)[i] == bytes[i + 1]);
            }
            assert forall|i: int| 0 <= i < name.len() implies is_safe_char(#[trigger] name[i]) by {
                if i > 0 {
                    assert(name[i] == rest[i - 1]);
                }
            }
        }
    }
}

/// Escaping goes byte by byte: the first byte's escape, then the rest's.
pub proof fn lemma_escaped_first(bytes: Seq<u8>)
    requires
        bytes.len() > 0,
    ensures
        escaped(bytes) == escaped_byte(bytes[0]) + escaped(bytes.drop_first()),
    decreases bytes.len(),
{
    if bytes.len() == 1 {
        assert(bytes.drop_last() =~= Seq::<u8>::empty());
        assert(bytes.drop_first() =~= Seq::<u8>::empty());
        assert(escaped(bytes) =~= escaped_byte(bytes[0]) + escaped(bytes.drop_first()));
    } else {
        let front = bytes.drop_last();
        let rest = bytes.drop_first();
        lemma_escaped_first(front);
        assert(front.drop_first() =~= rest.drop_last());
        assert(escaped(rest) == escaped(rest.drop_last()) + escaped_byte(rest.last()));
        assert(escaped(bytes) =~= escaped_byte(bytes[0]) + escaped(rest));
    }
}

/// Quoting loses nothing: what is read back from the escaped bytes of a
/// name is the name, byte for byte.
pub proof fn lemma_unescaped_escaped(bytes: Seq<u8>)
    ensures
        unescaped(escaped(bytes)) == bytes.map_values(|b: u8| b as char),
    decreases bytes.len(),
{
    if bytes.len() == 0 {
        assert(unescaped(escaped(bytes)) =~= bytes.map_values(|b: u8| b as char));
    } else {
        let rest = bytes.drop_first();
        let b = bytes[0];
        let e = escaped(bytes);
        lemma_escaped_first(bytes);
        lemma_unescaped_escaped(rest);
        if b == 0x5c || b == 0x22 {
            assert(e[0] == '\\');
            assert(e[1] == b as char);
            assert(e.skip(2) =~= escaped(rest));
        } else {
            assert(e[0] == b as char);
            assert(e[0] != '\\');
            assert(e.skip(1) =~= escaped(rest));
        }
        assert(unescaped(e) =~= bytes.map_values(|b: u8| b as char));
    }
}

/// A name with a byte outside printable ASCII is written as one encoded
/// word, whatever else it holds: no part of it is quoted.
pub proof fn lemma_unsafe_name_is_encoded(name: Seq<char>, i: int)
    requires
        0 <= i < name.len(),
        !is_safe_char(name[i]),
    ensures
        spec_quote_display_name(name) == encoded_word_prefix() + base64_standard(
            encode_utf8(name),
        ) + encoded_word_suffix(),
{
    lemma_safe_bytes_are_safe_chars(name);
}

/// A name of printable ASCII alone is written between double quotes, and
/// what stands between them reads back as the name.
pub proof fn lemma_safe_name_is_quoted(name: Seq<char>)
    requires
        all_safe_chars(name),
    ensures
        spec_quote_display_name(name) == seq!['"'] + escaped(encode_utf8(name)) + seq!['"'],
        unescaped(escaped(encode_utf8(name))) == name,
{
    lemma_safe_bytes_are_safe_chars(name);
    lemma_unescaped_escaped(encode_utf8(name));
    assert(encode_utf8(name).map_values(|b: u8| b as char) =~= name) by {
        assert forall|i: int| 0 <= i < name.len() implies (name[i] as u8) as char == name[i] by {
            assert(is_safe_char(name[i]));
        }
    }
}

/// Tells whether a byte is printable ASCII.
pub fn is_safe_ascii(b: u8) -> (r: bool)
    ensures
        r == spec_is_safe_ascii(b),
{
    0x20 <= b && b <= 0x7e
}

fn bytes_all_safe(bytes: &[u8]) -> (r: bool)
    ensures
        r == all_safe_ascii(bytes@),
{
    let mut i: usize = 0;
    while i < bytes.len()
        invariant
            i <= bytes.len(),
            forall|j: int| 0 <= j < i ==> spec_is_safe_ascii(#[trigger] bytes@[j]),
        decreases bytes.len() - i,
    {
        if !is_safe_ascii(bytes[i]) {
            return false;
        }
        i += 1;
    }
    true
}

/// Writes a display name as a header takes it: between double quotes,
/// with backslashes and double quotes escaped, where every byte of it is
/// printable ASCII; as one encoded word otherwise.
pub fn quote_display_name(name: &str) -> (r: String)
    ensures
        r@ == spec_quote_display_name(name@),
{
    let bytes = name.as_bytes();
    if bytes_all_safe(bytes) {
        proof {
            reveal_strlit("\"");
        }
        let mut result = String::from_str("\"");
        let mut i: usize = 0;
        while i < bytes.len()
            invariant
                i <= bytes.len(),
                result@ == seq!['"'] + escaped(bytes@.take(i as int)),
            decreases bytes.len() - i,
        {
            let byte = bytes[i];
            proof {
                let next = bytes@.take(i + 1);
                assert(next.drop_last() =~= bytes@.take(i as int));
                assert(next.last() == byte);
                assert(escaped(next) == escaped(next.drop_last()) + escaped_byte(byte));
            }
            if byte == 0x5c {
                proof {
                    reveal_strlit("\\\\");
                }
                result.append("\\\\");
            } else if byte == 0x22 {
                proof {
                    reveal_strlit("\\\"");
                }
                result.append("\\\"");
            } else {
                result.push(byte as char);
            }
            i += 1;
            assert(result@ =~= seq!['"'] + escaped(bytes@.take(i as int)));
        }
        assert(bytes@.take(i as int) =~= bytes@);
        result.append("\"");
        assert(result@ =~= quoted_string(bytes@));
        result
    } else {
        encode_mime_b(name)
    }
}

/// An address as contracts see it.
#[verifier::ext_equal]
pub struct AddressView {
    pub name: Option<Seq<char>>,
    pub email: Seq<char>,
}

impl AddressView {
    /// The address as a header shows it: the email alone, or the quoted or
    /// encoded name, a space, and the email between angle brackets.
    pub open spec fn display(self) -> Seq<char> {
        match self.name {
            Some(name) => spec_quote_display_name(name) + seq![' ', '<'] + self.email + seq!['>'],
            None => self.email,
        }
    }
}

/// An email address with an optional display name. The email is taken as
/// it comes: no syntax is checked, and it may be empty.
#[derive(Debug, Clone, PartialEq, Eq)]
pub struct Address<'a> {
    pub name: Option<Cow<'a, str>>,
    pub email: Cow<'a, str>,
}

impl<'a> View for Address<'a> {
    type V = AddressView;

    open spec fn view(&self) -> AddressView {
        AddressView { name: opt_text(self.name), email: self.email@ }
    }
}

impl<'a> Address<'a> {
    /// An address without a name.
    pub fn new<E: IntoText<'a>>(email: E) -> (r: Self)
        ensures
            r == (Address { name: None, email: email.text() }),
    {
        Self { name: None, email: email.into_text() }
    }

    /// An address with a name.
    pub fn with_name<N: IntoText<'a>, E: IntoText<'a>>(name: N, email: E) -> (r: Self)
        ensures
            r == (Address { name: Some(name.text()), email: email.text() }),
    {
        Self { name: Some(name.into_text()), email: email.into_text() }
    }

    /// The display form of the address.
    pub fn to_string(&self) -> (r: String)
        ensures
            r@ == self@.display(),
    {
        match &self.name {
            Some(name) => {
                proof {
                    reveal_strlit(" <");
                    reveal_strlit(">");
                }
                let mut out = quote_display_name(as_str(name));
                out.append(" <");
                out.append(as_str(&self.email));
                out.append(">");
                assert(out@ =~= self@.display());
                out
            },
            None => as_str(&self.email).to_owned(),
        }
    }
}

/// An address without a name is displayed as its email, unchanged. One
/// with a name is displayed as the name, quoted or encoded, then a space
/// and the email between angle brackets.
pub proof fn lemma_display(name: Seq<char>, email: Seq<char>)
    ensures
        (AddressView { name: None, email }).display() == email,
        (AddressView { name: Some(name), email }).display() == spec_quote_display_name(name)
            + seq![' ', '<'] + email + seq!['>'],
{
}

/// What can be given where an address is asked for: an address, an email
/// alone, or a name and an email as a pair.
pub trait IntoAddress<'a>: Sized {
    /// The address that the value stands for.
    spec fn address(self) -> Address<'a>;

    /// Makes the address.
    fn into_address(self) -> (r: Address<'a>)
        ensures
            r == self.address(),
    ;
}

impl<'a> IntoAddress<'a> for Address<'a> {
    open spec fn address(self) -> Address<'a> {
        self
    }

    fn into_address(self) -> (r: Address<'a>) {
        self
    }
}

impl<'a> IntoAddress<'a> for &'a str {
    open spec fn address(self) -> Address<'a> {
        Address { name: None, email: Cow::Borrowed(self) }
    }

    fn into_address(self) -> (r: Address<'a>) {
        Address::new(self)
    }
}

impl<'a> IntoAddress<'a> for String {
    open spec fn address(self) -> Address<'a> {
        Address { name: None, email: Cow::Owned(self) }
    }

    fn into_address(self) -> (r: Address<'a>) {
        Address::new(self)
    }
}

impl<'a, N: IntoText<'a>, E: IntoText<'a>> IntoAddress<'a> for (N, E) {
    open spec fn address(self) -> Address<'a> {
        Address { name: Some(self.0.text()), email: self.1.text() }
    }

    fn into_address(self) -> (r: Address<'a>) {
        Address::with_name(self.0, self.1)
    }
}

impl<'a> From<&'a str> for Address<'a> {
    fn from(s: &'a str) -> (r: Self) {
        s.into_address()
    }
}

impl<'a> vstd::std_specs::convert::FromSpecImpl<&'a str> for Address<'a> {
    open spec fn obeys_from_spec() -> bool {
        true
    }

    open spec fn from_spec(s: &'a str) -> Self {
        s.address()
    }
}

impl From<String> for Address<'static> {
    fn from(s: String) -> (r: Self) {
        s.into_address()
    }
}

impl vstd::std_specs::convert::FromSpecImpl<String> for Address<'static> {
    open spec fn obeys_from_spec() -> bool {
        true
    }

    open spec fn from_spec(s: String) -> Self {
        s.address()
    }
}

impl<'a> From<(&'a str, &'a str)> for Address<'a> {
    fn from(pair: (&'a str, &'a str)) -> (r: Self) {
        pair.into_address()
    }
}

impl<'a> vstd::std_specs::convert::FromSpecImpl<(&'a str, &'a str)> for Address<'a> {
    open spec fn obeys_from_spec() -> bool {
        true
    }

    open spec fn from_spec(pair: (&'a str, &'a str)) -> Self {
        pair.address()
    }
}

impl<'a> From<(&'a str, String)> for Address<'a> {
    fn from(pair: (&'a str, String)) -> (r: Self) {
        pair.into_address()
    }
}

impl<'a> vstd::std_specs::convert::FromSpecImpl<(&'a str, String)> for Address<'a> {
    open spec fn obeys_from_spec() -> bool {
        true
    }

    open spec fn from_spec(pair: (&'a str, String)) -> Self {
        pair.address()
    }
}

impl<'a> From<(String, &'a str)> for Address<'a> {
    fn from(pair: (String, &'a str)) -> (r: Self) {
        pair.into_address()
    }
}

impl<'a> vstd::std_specs::convert::FromSpecImpl<(String, &'a str)> for Address<'a> {
    open spec fn obeys_from_spec() -> bool {
        true
    }

    open spec fn from_spec(pair: (String, &'a str)) -> Self {
        pair.address()
    }
}

impl From<(String, String)> for Address<'static> {
    fn from(pair: (String, String)) -> (r: Self) {
        pair.into_address()
    }
}

impl vstd::std_specs::convert::FromSpecImpl<(String, String)> for Address<'static> {
    open spec fn obeys_from_spec() -> bool {
        true
    }

    open spec fn from_spec(pair: (String, String)) -> Self {
        pair.address()
    }
}

/// The views of a sequence of addresses, in order.
pub open spec fn address_views(s: Seq<Address<'_>>) -> Seq<AddressView> {
    s.map_values(|a: Address<'_>| a@)
}

/// The view of an optional address.
pub open spec fn opt_address(a: Option<Address<'_>>) -> Option<AddressView> {
    match a {
        Some(a) => Some(a@),
        None => None,
    }
}

} // verus!
