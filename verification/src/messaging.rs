//! The mailbox: the append-only sequence of all sent messages.

use vstd::prelude::*;
use vstd::string::StringExecFns;

use crate::login::{Person, PersonView};

verus! {

/// One sent message: the sender's identity snapshot, the recipient id (0 is
/// the reserved broadcast value), and the body.
pub struct Message {
    sender: Person,
    recipient: i32,
    message: String,
}

/// The mathematical value of a [`Message`].
pub ghost struct MessageView {
    pub sender: PersonView,
    pub recipient: int,
    pub message: Seq<char>,
}

impl View for Message {
    type V = MessageView;

    closed spec fn view(&self) -> MessageView {
        MessageView {
            sender: self.sender@,
            recipient: self.recipient as int,
            message: self.message@,
        }
    }
}

/// The mailbox. Its view is the sequence of sent messages in insertion order.
pub struct Chat {
    messages: Vec<Message>,
}

impl View for Chat {
    type V = Seq<MessageView>;

    closed spec fn view(&self) -> Seq<MessageView> {
        Seq::new(self.messages@.len(), |i: int| self.messages@[i]@)
    }
}

/// Whether a viewer with the given id sees a message: the reserved id 0 sees
/// everything, a broadcast (recipient 0) is seen by every viewer, and
/// otherwise exactly the recipient sees it.
pub open spec fn visible_to(viewer: int, m: MessageView) -> bool {
    viewer == 0 || m.recipient == viewer || m.recipient == 0
}

/// The line shown for one message.
pub open spec fn message_line(m: MessageView) -> Seq<char> {
    "From "@ + m.sender.name + ": "@ + m.message
}

/// The lines shown to a viewer: one line per visible message, in insertion
/// order.
pub open spec fn lines_for(msgs: Seq<MessageView>, viewer: int) -> Seq<Seq<char>>
    decreases msgs.len(),
{
    if msgs.len() == 0 {
        Seq::empty()
    } else {
        lines_for(msgs.drop_last(), viewer) + (if visible_to(viewer, msgs.last()) {
            seq![message_line(msgs.last())]
        } else {
            Seq::empty()
        })
    }
}

impl Chat {
    /// An empty mailbox.
    pub fn new() -> (r: Chat)
        ensures
            r@ == Seq::<MessageView>::empty(),
    {
        let r = Chat { messages: Vec::new() };
        proof {
            assert(r@ =~= Seq::<MessageView>::empty());
        }
        r
    }

    /// Appends a message and returns the acknowledgement shown to the sender.
    pub fn send(&mut self, sender: Person, recipient: i32, message: String) -> (ack: String)
        ensures
            final(self)@ =~= old(self)@.push(
                MessageView { sender: sender@, recipient: recipient as int, message: message@ },
            ),
            ack@ == "Your message '"@ + message@ + "' was sent!"@,
    {
        let mut ack = String::from_str("Your message '");
        ack.append(message.as_str());
        ack.append("' was sent!");
        self.messages.push(Message { sender, recipient, message });
        ack
    }

    /// The lines a viewer with the given id sees, in insertion order: its own
    /// messages, every broadcast, and, for the reserved viewer 0, everything.
    pub fn show_messages(&self, id: i32) -> (r: Vec<String>)
        ensures
            r.deep_view() == lines_for(self@, id as int),
    {
        let mut lines: Vec<String> = Vec::new();
        let n = self.messages.len();
        let mut k: usize = 0;
        while k < n
            invariant
                n == self.messages.len(),
                k <= n,
                lines.deep_view() =~= lines_for(self@.take(k as int), id as int),
            decreases n - k,
        {
            let m = &self.messages[k];
            if id == 0 || m.recipient == id || m.recipient == 0 {
                let mut line = String::from_str("From ");
                line.append(m.sender.get_name());
                line.append(": ");
                line.append(m.message.as_str());
                lines.push(line);
            }
            proof {
                assert(self@.take(k as int + 1).drop_last() =~= self@.take(k as int));
                assert(self@.take(k as int + 1).last() == self@[k as int]);
            }
            k += 1;
        }
        proof {
            assert(self@.take(n as int) =~= self@);
            assert(lines.deep_view() =~= lines_for(self@, id as int));
        }
        lines
    }
}

/// Law: reading the mailbox twice with no intervening append yields the same
/// lines; the listing is a function of the stored messages and the viewer
/// alone.
pub proof fn lemma_show_idempotent(
    msgs: Seq<MessageView>,
    viewer: int,
    r1: Seq<Seq<char>>,
    r2: Seq<Seq<char>>,
)
    requires
        r1 == lines_for(msgs, viewer),
        r2 == lines_for(msgs, viewer),
    ensures
        r1 == r2,
{
}

} // verus!
