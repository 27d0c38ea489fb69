use vstd::prelude::*;

use crate::history::ConversationHistory;
use crate::history::Message;
use crate::history::MessageView;
use crate::history::Role;

verus! {

broadcast use vstd::seq_lib::group_seq_lib_default, vstd::seq::group_seq_axioms;

/// The fixed instruction that opens every request.
pub open spec fn system_instruction_text() -> Seq<char> {
    "You are a world-class technical documentation writer. Use the following knowledge to answer the user's query."@
}

pub fn system_instruction() -> (s: String)
    ensures
        s@ == system_instruction_text(),
{
    String::from_str(
        "You are a world-class technical documentation writer. Use the following knowledge to answer the user's query.",
    )
}

/// The knowledge block as it is placed into a request.
pub open spec fn knowledge_block_text(knowledge: Seq<char>) -> Seq<char> {
    "Knowledge:\n"@ + knowledge
}

/// The views of a sequence of messages.
pub open spec fn message_views(v: Seq<Message>) -> Seq<MessageView> {
    Seq::new(v.len(), |i: int| v[i]@)
}

/// The assembled request: the fixed instruction, then — only when the active
/// knowledge is non-empty — the knowledge block, then the prior history
/// oldest first, then the new input as the final human turn.
pub open spec fn prompt_of(
    instruction: Seq<char>,
    knowledge: Seq<char>,
    history: Seq<MessageView>,
    input: Seq<char>,
) -> Seq<MessageView> {
    let head = seq![MessageView { role: Role::System, content: instruction }];
    let know = if knowledge.len() == 0 {
        Seq::<MessageView>::empty()
    } else {
        seq![MessageView { role: Role::System, content: knowledge_block_text(knowledge) }]
    };
    let tail = seq![MessageView { role: Role::Human, content: input }];
    head + know + history + tail
}

/// One remote request: an ordered list of messages.
pub struct PromptRequest {
    pub messages: Vec<Message>,
}

impl View for PromptRequest {
    type V = Seq<MessageView>;

    open spec fn view(&self) -> Seq<MessageView> {
        message_views(self.messages@)
    }
}

/// Assemble one request. Pure construction: the history itself is not
/// touched, and the caller appends the human turn and, later, the reply.
pub fn build_prompt(
    instruction: &String,
    knowledge: &String,
    history: &ConversationHistory,
    input: &String,
) -> (p: PromptRequest)
    ensures
        p@ == prompt_of(instruction@, knowledge@, history@, input@),
{
    let mut messages: Vec<Message> = Vec::new();
    messages.push(Message { role: Role::System, content: instruction.clone() });
    if !knowledge.as_str().is_empty() {
        let mut block = String::from_str("Knowledge:\n");
        block.append(knowledge.as_str());
        messages.push(Message { role: Role::System, content: block });
    }
    let ghost head = message_views(messages@);
    proof {
        assert(head.len() == if knowledge@.len() == 0 {
            1int
        } else {
            2int
        });
        assert(head[0] == MessageView { role: Role::System, content: instruction@ });
        assert(knowledge@.len() != 0 ==> head[1] == MessageView {
            role: Role::System,
            content: knowledge_block_text(knowledge@),
        });
    }
    let n = history.len();
    let mut i: usize = 0;
    while i < n
        invariant
            i <= n,
            n == history@.len(),
            messages@.len() == head.len() + i,
            forall|k: int| 0 <= k < head.len() ==> messages@[k]@ == head[k],
            forall|k: int| 0 <= k < i ==> messages@[head.len() + k]@ == history@[k],
        decreases n - i,
    {
        let m = history.get(i);
        messages.push(Message { role: m.role, content: m.content.clone() });
        i += 1;
    }
    messages.push(Message { role: Role::Human, content: input.clone() });
    let p = PromptRequest { messages };
    proof {
        assert(p@ =~= prompt_of(instruction@, knowledge@, history@, input@));
    }
    p
}

} // verus!
