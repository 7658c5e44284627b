//! Text: how addresses and messages store it, borrowed from the caller or
//! owned, and how numbers and failures are put into words.

use std::borrow::Cow;
use std::borrow::ToOwned;
use vstd::prelude::*;
use vstd::string::StringExecFns;

verus! {

/// `Clone::clone` of `std::borrow::Cow`. Nothing is claimed of the copy.
pub assume_specification<'a, B: ?Sized + ToOwned>[ <Cow<'a, B> as Clone>::clone ](
    c: &Cow<'a, B>,
) -> (r: Cow<'a, B>)
;

/// `String::push` of std: the character is appended at the end.
pub assume_specification[ String::push ](s: &mut String, ch: char)
    ensures
        final(s)@ == old(s)@.push(ch),
;

/// What can be stored as the text of an address or a message without being
/// copied: a borrowed string slice, an owned string, or either of the two.
pub trait IntoText<'a>: Sized {
    /// The text as it is stored: a borrowed slice stays borrowed, an owned
    /// string is moved, and neither is copied.
    spec fn text(self) -> Cow<'a, str>;

    /// Hands the text over for storing.
    fn into_text(self) -> (r: Cow<'a, str>)
        ensures
            r == self.text(),
    ;
}

impl<'a> IntoText<'a> for &'a str {
    open spec fn text(self) -> Cow<'a, str> {
        Cow::Borrowed(self)
    }

    fn into_text(self) -> (r: Cow<'a, str>) {
        Cow::Borrowed(self)
    }
}

impl<'a> IntoText<'a> for String {
    open spec fn text(self) -> Cow<'a, str> {
        Cow::Owned(self)
    }

    fn into_text(self) -> (r: Cow<'a, str>) {
        Cow::Owned(self)
    }
}

impl<'a> IntoText<'a> for Cow<'a, str> {
    open spec fn text(self) -> Cow<'a, str> {
        self
    }

    fn into_text(self) -> (r: Cow<'a, str>) {
        self
    }
}

/// The characters of an optional text.
pub open spec fn opt_text(t: Option<Cow<'_, str>>) -> Option<Seq<char>> {
    match t {
        Some(c) => Some(c@),
        None => None,
    }
}

/// The characters of each key and value, in order.
pub open spec fn pair_texts(s: Seq<(Cow<'_, str>, Cow<'_, str>)>) -> Seq<(Seq<char>, Seq<char>)> {
    s.map_values(|p: (Cow<'_, str>, Cow<'_, str>)| (p.0@, p.1@))
}

/// The character of a decimal digit.
pub open spec fn digit(d: nat) -> char
    recommends
        d < 10,
{
    ((48 + d) as u8) as char
}

/// A number in decimal: no sign, no leading zero, `0` for zero.
pub open spec fn decimal(n: nat) -> Seq<char>
    decreases n,
{
    if n < 10 {
        seq![digit(n)]
    } else {
        decimal(n / 10).push(digit(n % 10))
    }
}

/// Appends a number in decimal.
pub(crate) fn push_decimal(out: &mut String, n: u16)
    ensures
        final(out)@ == old(out)@ + decimal(n as nat),
    decreases n,
{
    if n >= 10 {
        push_decimal(out, n / 10);
    }
    let d: u8 = (n % 10) as u8;
    out.push((48 + d) as char);
    assert(out@ =~= old(out)@ + decimal(n as nat));
}

/// What a failed delivery says of a response that the provider sent and
/// that was no success: the status and the body.
pub open spec fn response_message(status: u16, body: Seq<char>) -> Seq<char> {
    "Unexpected response: "@ + decimal(status as nat) + " - "@ + body
}

/// What a failed delivery says of a failure below the provider's answer.
pub open spec fn error_message(cause: Seq<char>) -> Seq<char> {
    "Unexpected error: "@ + cause
}

/// The words for an answer that was no success.
pub(crate) fn format_response(status: u16, body: &str) -> (r: String)
    ensures
        r@ == response_message(status, body@),
{
    let mut out = String::from_str("Unexpected response: ");
    push_decimal(&mut out, status);
    out.append(" - ");
    out.append(body);
    assert(out@ =~= response_message(status, body@));
    out
}

/// The words for a failure below the provider's answer.
pub(crate) fn format_error(cause: &str) -> (r: String)
    ensures
        r@ == error_message(cause@),
{
    let mut out = String::from_str("Unexpected error: ");
    out.append(cause);
    out
}

/// Borrows the text as a string slice.
pub(crate) fn as_str<'b>(c: &'b Cow<'_, str>) -> (r: &'b str)
    ensures
        r@ == c@,
{
    match c {
        Cow::Borrowed(s) => s,
        Cow::Owned(s) => s.as_str(),
    }
}

} // verus!
