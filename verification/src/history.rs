use vstd::prelude::*;

verus! {

/// Who a message speaks for: the fixed instructions and knowledge block, the
/// person typing, or the model answering.
#[derive(Clone, Copy, PartialEq, Eq, Structural, Debug)]
pub enum Role {
    System,
    Human,
    Assistant,
}

/// One chat message: a role paired with its text. Immutable once created.
pub struct Message {
    pub role: Role,
    pub content: String,
}

/// The mathematical content of a message.
pub ghost struct MessageView {
    pub role: Role,
    pub content: Seq<char>,
}

impl View for Message {
    type V = MessageView;

    open spec fn view(&self) -> MessageView {
        MessageView { role: self.role, content: self.content@ }
    }
}

/// An ordered, appendable, clearable sequence of messages, kept in memory
/// for the life of the process.
pub struct ConversationHistory {
    messages: Vec<Message>,
}

impl View for ConversationHistory {
    type V = Seq<MessageView>;

    closed spec fn view(&self) -> Seq<MessageView> {
        Seq::new(self.messages@.len(), |i: int| self.messages@[i]@)
    }
}

impl ConversationHistory {
    /// A fresh history holds no messages.
    pub fn new() -> (h: ConversationHistory)
        ensures
            h@ == Seq::<MessageView>::empty(),
    {
        let h = ConversationHistory { messages: Vec::new() };
        proof {
            assert(h@ =~= Seq::<MessageView>::empty());
        }
        h
    }

    pub fn len(&self) -> (n: usize)
        ensures
            n == self@.len(),
    {
        self.messages.len()
    }

    /// Append one human turn at the end.
    pub fn push_human(&mut self, content: String)
        ensures
            final(self)@ == old(self)@.push(MessageView { role: Role::Human, content: content@ }),
    {
        let ghost before = self@;
        self.messages.push(Message { role: Role::Human, content });
        proof {
            assert(self@ =~= before.push(self.messages@.last()@));
        }
    }

    /// Append one assistant turn at the end.
    pub fn push_assistant(&mut self, content: String)
        ensures
            final(self)@ == old(self)@.push(
                MessageView { role: Role::Assistant, content: content@ },
            ),
    {
        let ghost before = self@;
        self.messages.push(Message { role: Role::Assistant, content });
        proof {
            assert(self@ =~= before.push(self.messages@.last()@));
        }
    }

    /// Drop every message, whatever the prior length.
    pub fn clear(&mut self)
        ensures
            final(self)@ == Seq::<MessageView>::empty(),
    {
        self.messages.clear();
        proof {
            assert(self@ =~= Seq::<MessageView>::empty());
        }
    }

    /// Read one message by position.
    pub fn get(&self, i: usize) -> (m: &Message)
        requires
            i < self@.len(),
        ensures
            m@ == self@[i as int],
    {
        &self.messages[i]
    }
}

} // verus!
