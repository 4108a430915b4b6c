//! Output coordination: the messages sent to the terminal writer, how each is
//! rendered, and the single-slot queue that orders them.
use vstd::prelude::*;
use vstd::string::StringExecFns;

verus! {

/// A unit of work for the terminal writer.
#[derive(Clone, Debug, PartialEq, Eq)]
pub enum UiMessage {
    UpdatePrompt(String),
    PrintLine(String),
}

impl UiMessage {
    pub open spec fn spec_text(&self) -> Seq<char> {
        match self {
            UiMessage::UpdatePrompt(t) => t@,
            UiMessage::PrintLine(t) => t@,
        }
    }

    /// The text that the message carries.
    pub fn text(&self) -> (r: &str)
        ensures
            r@ == self.spec_text(),
    {
        match self {
            UiMessage::UpdatePrompt(t) => t.as_str(),
            UiMessage::PrintLine(t) => t.as_str(),
        }
    }

    /// Whether the output stream is flushed after the message is written.
    pub fn needs_flush(&self) -> (r: bool)
        ensures
            r == (self is UpdatePrompt),
    {
        match self {
            UiMessage::UpdatePrompt(_) => true,
            UiMessage::PrintLine(_) => false,
        }
    }
}

/// What is written for a message: a carriage return, the text, a newline.
pub open spec fn rendered(m: UiMessage) -> Seq<char> {
    seq!['\r'] + m.spec_text() + seq!['\n']
}

/// The characters written to the terminal for `m`.
pub fn render(m: &UiMessage) -> (r: String)
    ensures
        r@ == rendered(*m),
{
    let mut out = String::from_str("\r");
    out.append(m.text());
    out.append("\n");
    proof {
        reveal_strlit("\r");
        reveal_strlit("\n");
    }
    assert(out@ =~= rendered(*m));
    out
}

/// A queue that holds at most one pending message. A producer offers a
/// message and, when the slot is full, must wait and offer it again; the
/// single consumer takes messages out in the order they were accepted.
pub struct OutputSlot {
    pending: Option<UiMessage>,
    accepted: Ghost<Seq<UiMessage>>,
    delivered: Ghost<Seq<UiMessage>>,
}

impl OutputSlot {
    /// Every message accepted so far, in order.
    pub closed spec fn accepted(&self) -> Seq<UiMessage> {
        self.accepted@
    }

    /// Every message taken out so far, in order.
    pub closed spec fn delivered(&self) -> Seq<UiMessage> {
        self.delivered@
    }

    /// The message waiting to be taken, if any.
    pub closed spec fn pending(&self) -> Option<UiMessage> {
        self.pending
    }

    pub closed spec fn wf(&self) -> bool {
        match self.pending {
            None => self.accepted@ == self.delivered@,
            Some(m) => self.accepted@ == self.delivered@.push(m),
        }
    }

    /// An empty slot with no history.
    pub fn new() -> (r: OutputSlot)
        ensures
            r.wf(),
            r.pending() == None::<UiMessage>,
            r.accepted() == Seq::<UiMessage>::empty(),
            r.delivered() == Seq::<UiMessage>::empty(),
    {
        OutputSlot { pending: None, accepted: Ghost(Seq::empty()), delivered: Ghost(Seq::empty()) }
    }

    /// Whether a message is waiting.
    pub fn is_full(&self) -> (r: bool)
        ensures
            r == self.pending().is_some(),
    {
        self.pending.is_some()
    }

    /// Accepts `m` when the slot is empty; hands it back when a message is
    /// already waiting.
    pub fn offer(&mut self, m: UiMessage) -> (r: Result<(), UiMessage>)
        requires
            old(self).wf(),
        ensures
            final(self).wf(),
            final(self).delivered() == old(self).delivered(),
            old(self).pending() is None ==> r is Ok && final(self).pending() == Some(m)
                && final(self).accepted() == old(self).accepted().push(m),
            old(self).pending() is Some ==> r == Err::<(), UiMessage>(m) && final(self).pending()
                == old(self).pending() && final(self).accepted() == old(self).accepted(),
    {
        if self.pending.is_some() {
            Err(m)
        } else {
            self.accepted = Ghost(self.accepted@.push(m));
            self.pending = Some(m);
            Ok(())
        }
    }

    /// Takes out the waiting message, if any.
    pub fn take(&mut self) -> (r: Option<UiMessage>)
        requires
            old(self).wf(),
        ensures
            final(self).wf(),
            r == old(self).pending(),
            final(self).pending() == None::<UiMessage>,
            final(self).accepted() == old(self).accepted(),
            match r {
                Some(m) => final(self).delivered() == old(self).delivered().push(m),
                None => final(self).delivered() == old(self).delivered(),
            },
    {
        let r = self.pending.take();
        if let Some(m) = &r {
            self.delivered = Ghost(self.delivered@.push(*m));
        }
        r
    }
}

/// Messages leave the slot in exactly the order in which they were accepted,
/// and at most one accepted message is ever waiting.
pub proof fn lemma_slot_order(s: OutputSlot)
    requires
        s.wf(),
    ensures
        s.delivered().len() <= s.accepted().len() <= s.delivered().len() + 1,
        s.delivered() == s.accepted().subrange(0, s.delivered().len() as int),
        s.pending() is Some <==> s.accepted().len() == s.delivered().len() + 1,
{
    match s.pending() {
        Some(m) => {
            assert(s.delivered() =~= s.accepted().subrange(0, s.delivered().len() as int));
        },
        None => {
            assert(s.delivered() =~= s.accepted().subrange(0, s.delivered().len() as int));
        },
    }
}

} // verus!
