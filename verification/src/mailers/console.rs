//! The backend that writes each message out as text.

use crate::address::address_views;
use crate::address::Address;
use crate::address::AddressView;
use crate::message::Message;
use crate::message::MessageView;
use crate::text::as_str;
use vstd::prelude::*;
use vstd::string::StringExecFns;

verus! {

/// The display forms of the addresses, with a comma and a space between
/// one and the next.
pub open spec fn spec_join_addresses(addrs: Seq<AddressView>) -> Seq<char>
    decreases addrs.len(),
{
    if addrs.len() == 0 {
        Seq::empty()
    } else if addrs.len() == 1 {
        addrs[0].display()
    } else {
        spec_join_addresses(addrs.drop_last()) + ", "@ + addrs.last().display()
    }
}

/// Joins the display forms of the addresses with `, `.
pub fn join_addresses(addrs: &[Address<'_>]) -> (r: String)
    ensures
        r@ == spec_join_addresses(address_views(addrs@)),
{
    let ghost views = address_views(addrs@);
    let mut out = String::new();
    let mut i: usize = 0;
    while i < addrs.len()
        invariant
            i <= addrs.len(),
            views == address_views(addrs@),
            out@ == spec_join_addresses(views.take(i as int)),
        decreases addrs.len() - i,
    {
        proof {
            let next = views.take(i + 1);
            assert(next.drop_last() =~= views.take(i as int));
            assert(next.last() == addrs@[i as int]@);
        }
        if i > 0 {
            out.append(", ");
        }
        let shown = addrs[i].to_string();
        out.append(shown.as_str());
        i += 1;
        assert(out@ =~= spec_join_addresses(views.take(i as int)));
    }
    assert(views.take(i as int) =~= views);
    out
}

/// A line of the output: the text and a line feed.
pub open spec fn line(text: Seq<char>) -> Seq<char> {
    text + "\n"@
}

/// The line that names where replies go, or nothing where no such address
/// is set.
pub open spec fn reply_to_line(reply_to: Option<AddressView>) -> Seq<char> {
    match reply_to {
        Some(a) => line("Reply-To: "@ + a.display()),
        None => Seq::empty(),
    }
}

/// The line of the text body, or of the note that stands for a missing one.
pub open spec fn text_line(text_body: Option<Seq<char>>) -> Seq<char> {
    match text_body {
        Some(body) => line(body),
        None => line("No text body."@),
    }
}

/// A line that names a list of addresses, or nothing where the list is
/// empty.
pub open spec fn address_line(label: Seq<char>, addrs: Seq<AddressView>) -> Seq<char> {
    if addrs.len() > 0 {
        line(label + spec_join_addresses(addrs))
    } else {
        Seq::empty()
    }
}

proof fn lemma_append_after(start: Seq<char>, written: Seq<char>, next: Seq<char>)
    ensures
        (start + written) + next == start + (written + next),
{
    assert((start + written) + next =~= start + (written + next));
}

fn push_line(w: &mut String, text: &str)
    ensures
        final(w)@ == old(w)@ + line(text@),
{
    w.append(text);
    w.append("\n");
    assert(w@ =~= old(w)@ + line(text@));
}

fn push_field(w: &mut String, label: &str, text: &str)
    ensures
        final(w)@ == old(w)@ + line(label@ + text@),
{
    w.append(label);
    w.append(text);
    w.append("\n");
    assert(w@ =~= old(w)@ + line(label@ + text@));
}

fn push_address_line(w: &mut String, label: &str, addrs: &[Address<'_>])
    ensures
        final(w)@ == old(w)@ + address_line(label@, address_views(addrs@)),
{
    if addrs.len() > 0 {
        let joined = join_addresses(addrs);
        push_field(w, label, joined.as_str());
    } else {
        assert(w@ =~= old(w)@ + Seq::<char>::empty());
    }
}

/// Writes messages out instead of sending them.
pub struct ConsoleMailer;

impl ConsoleMailer {
    /// A message as it is written out: a rule, the headers that are set,
    /// an empty line, the text body or a note that there is none, and a
    /// closing rule.
    pub open spec fn rendered(m: MessageView) -> Seq<char> {
        line("==================== [ BEGIN EMAIL ] ===================="@)
            + line("From: "@ + m.from.display())
            + reply_to_line(m.reply_to)
            + address_line("To: "@, m.to)
            + address_line("Cc: "@, m.cc)
            + address_line("Bcc: "@, m.bcc)
            + line("Subject: "@ + m.subject)
            + line(Seq::empty())
            + text_line(m.text_body)
            + line("==================== [  END EMAIL  ] ===================="@)
    }

    /// Appends the message, written out, to `w`.
    pub fn send(w: &mut String, m: &Message<'_>)
        ensures
            final(w)@ == old(w)@ + Self::rendered(m@),
    {
        let ghost v = m@;
        let ghost start = w@;
        push_line(w, "==================== [ BEGIN EMAIL ] ====================");
        let ghost done = line("==================== [ BEGIN EMAIL ] ===================="@);
        assert(w@ == start + done);

        let from = m.from.to_string();
        push_field(w, "From: ", from.as_str());
        proof {
            lemma_append_after(start, done, line("From: "@ + v.from.display()));
            done = done + line("From: "@ + v.from.display());
        }
        assert(w@ == start + done);

        let ghost before = w@;
        if let Some(reply_to) = &m.reply_to {
            let shown = reply_to.to_string();
            push_field(w, "Reply-To: ", shown.as_str());
        }
        proof {
            assert(w@ =~= before + reply_to_line(v.reply_to));
            lemma_append_after(start, done, reply_to_line(v.reply_to));
            done = done + reply_to_line(v.reply_to);
        }
        assert(w@ == start + done);

        push_address_line(w, "To: ", m.to.as_slice());
        proof {
            lemma_append_after(start, done, address_line("To: "@, v.to));
            done = done + address_line("To: "@, v.to);
        }
        push_address_line(w, "Cc: ", m.cc.as_slice());
        proof {
            lemma_append_after(start, done, address_line("Cc: "@, v.cc));
            done = done + address_line("Cc: "@, v.cc);
        }
        push_address_line(w, "Bcc: ", m.bcc.as_slice());
        proof {
            lemma_append_after(start, done, address_line("Bcc: "@, v.bcc));
            done = done + address_line("Bcc: "@, v.bcc);
        }
        assert(w@ == start + done);

        push_field(w, "Subject: ", as_str(&m.subject));
        proof {
            lemma_append_after(start, done, line("Subject: "@ + v.subject));
            done = done + line("Subject: "@ + v.subject);
        }
        let ghost before = w@;
        w.append("\n");
        proof {
            assert(w@ =~= before + line(Seq::empty()));
            lemma_append_after(start, done, line(Seq::empty()));
            done = done + line(Seq::empty());
        }
        assert(w@ == start + done);

        let ghost before = w@;
        if let Some(body) = &m.text_body {
            push_line(w, as_str(body));
        } else {
            push_line(w, "No text body.");
        }
        proof {
            assert(w@ == before + text_line(v.text_body));
            lemma_append_after(start, done, text_line(v.text_body));
            done = done + text_line(v.text_body);
        }
        assert(w@ == start + done);

        push_line(w, "==================== [  END EMAIL  ] ====================");
        proof {
            let last = line("==================== [  END EMAIL  ] ===================="@);
            lemma_append_after(start, done, last);
            done = done + last;
        }
        assert(w@ == start + done);
        assert(done == Self::rendered(v));
    }
}

} // verus!
