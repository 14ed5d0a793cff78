//! The message model: a fully composed e-mail as the caller hands it to a
//! transport, and the recipient-formatting helper used for diagnostics.

use vstd::prelude::*;
use vstd::string::*;

verus! {

/// An externally constructed, immutable e-mail: the envelope sender address,
/// the ordered envelope recipient addresses, and the raw MIME body bytes.
///
/// The caller owns the message; a transport borrows it for the duration of a
/// send call and never stores or mutates it.
pub struct Message {
    /// Envelope sender address.
    pub mail_from: String,
    /// Envelope recipient addresses, in the caller's order.
    pub rcpt_to: Vec<String>,
    /// Raw MIME body bytes.
    pub body: Vec<u8>,
}

impl Message {
    /// The recipient addresses as a sequence of character sequences.
    pub open spec fn recipients_view(&self) -> Seq<Seq<char>> {
        self.rcpt_to@.map_values(|s: String| s@)
    }
}

/// The comma-and-space-joined form of a sequence of addresses, keeping their
/// order: empty for no addresses, and `a, b, c` style otherwise.
pub open spec fn join_addresses(addrs: Seq<Seq<char>>) -> Seq<char>
    decreases addrs.len(),
{
    if addrs.len() == 0 {
        Seq::empty()
    } else if addrs.len() == 1 {
        addrs[0]
    } else {
        join_addresses(addrs.drop_last()) + ", "@ + addrs.last()
    }
}

/// Join the recipient addresses of a message with `, ` for human-readable
/// diagnostic output, preserving the message's recipient ordering.
///
/// Zero recipients yield the empty string. The helper is pure: it reads the
/// message and nothing else.
pub fn format_recipient_addresses(message: &Message) -> (r: String)
    ensures
        r@ == join_addresses(message.recipients_view()),
{
    let mut out = String::new();
    let mut i: usize = 0;
    while i < message.rcpt_to.len()
        invariant
            i <= message.rcpt_to.len(),
            out@ == join_addresses(message.recipients_view().take(i as int)),
        decreases message.rcpt_to.len() - i,
    {
        if i > 0 {
            out.append(", ");
        }
        let address: &String = &message.rcpt_to[i];
        out.append(address.as_str());
        proof {
            let view = message.recipients_view();
            assert(view.take(i + 1).drop_last() =~= view.take(i as int));
            assert(view.take(i + 1).last() == view[i as int]);
        }
        i = i + 1;
    }
    proof {
        let view = message.recipients_view();
        assert(view.take(message.rcpt_to.len() as int) =~= view);
    }
    out
}

} // verus!
