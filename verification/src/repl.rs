use vstd::prelude::*;

use crate::history::ConversationHistory;
use crate::history::MessageView;
use crate::history::Role;
use crate::knowledge::load_mq_knowledge;
use crate::knowledge::load_pii_knowledge;
use crate::knowledge::mq_load_spec;
use crate::knowledge::pii_load_spec;
use crate::knowledge::ActiveKnowledge;
use crate::knowledge::KnowledgeLoadError;
use crate::prompt::build_prompt;
use crate::prompt::prompt_of;
use crate::prompt::system_instruction;
use crate::prompt::system_instruction_text;
use crate::prompt::PromptRequest;

verus! {

/// Which knowledge schema a source file is expected to follow.
#[derive(Clone, Copy, PartialEq, Eq, Structural, Debug)]
pub enum KnowledgeKind {
    Pii,
    Mq,
}

/// Where the interactive loop stands between two events.
#[derive(Clone, Copy, PartialEq, Eq, Structural, Debug)]
pub enum ReplState {
    /// Blocked on the next line of input.
    AwaitingInput,
    /// Blocked on the pick from the knowledge-source menu.
    AwaitingSelection,
    /// Blocked on the content of the chosen knowledge file.
    AwaitingFile(KnowledgeKind),
    /// Blocked on the outcome of the one outstanding remote call.
    AwaitingReply,
    /// Terminal: no further input is read.
    Stopped,
}

/// What the outside world reports to the loop.
pub enum ReplEvent {
    /// The cancellation flag was observed set.
    Interrupted,
    /// One line was read, already trimmed.
    Line(String),
    /// Reading a line failed.
    InputFailed,
    /// The menu pick, by index.
    Selected(usize),
    /// The chosen file's text, or `None` when it could not be read.
    FileContent(Option<String>),
    /// The remote call answered.
    ReplyOk(String),
    /// The remote call failed.
    ReplyFailed,
}

pub ghost enum ReplEventView {
    Interrupted,
    Line(Seq<char>),
    InputFailed,
    Selected(nat),
    FileContent(Option<Seq<char>>),
    ReplyOk(Seq<char>),
    ReplyFailed,
}

impl View for ReplEvent {
    type V = ReplEventView;

    open spec fn view(&self) -> ReplEventView {
        match self {
            ReplEvent::Interrupted => ReplEventView::Interrupted,
            ReplEvent::Line(l) => ReplEventView::Line(l@),
            ReplEvent::InputFailed => ReplEventView::InputFailed,
            ReplEvent::Selected(i) => ReplEventView::Selected(*i as nat),
            ReplEvent::FileContent(c) => ReplEventView::FileContent(
                match c {
                    Option::Some(t) => Option::Some(t@),
                    Option::None => Option::None,
                },
            ),
            ReplEvent::ReplyOk(t) => ReplEventView::ReplyOk(t@),
            ReplEvent::ReplyFailed => ReplEventView::ReplyFailed,
        }
    }
}

/// What the loop asks the outside world to do next.
pub enum ReplAction {
    /// Prompt for and read the next line.
    PromptForLine,
    /// Show the knowledge-source menu and read a pick.
    PromptForSelection,
    /// Read the file of the chosen knowledge source.
    ReadKnowledgeFile(KnowledgeKind),
    /// Issue the one remote call with this request.
    SendPrompt(PromptRequest),
    /// Show the reply to the user.
    RenderReply(String),
    /// Report a failed knowledge load; the loop goes on.
    ReportLoadError(KnowledgeLoadError),
    /// Report a failed remote call; the loop goes on.
    ReportRemoteFailure,
    /// Leave the loop with success status.
    Exit,
}

pub ghost enum ReplActionView {
    PromptForLine,
    PromptForSelection,
    ReadKnowledgeFile(KnowledgeKind),
    SendPrompt(Seq<MessageView>),
    RenderReply(Seq<char>),
    ReportLoadError(KnowledgeLoadError),
    ReportRemoteFailure,
    Exit,
}

impl View for ReplAction {
    type V = ReplActionView;

    open spec fn view(&self) -> ReplActionView {
        match self {
            ReplAction::PromptForLine => ReplActionView::PromptForLine,
            ReplAction::PromptForSelection => ReplActionView::PromptForSelection,
            ReplAction::ReadKnowledgeFile(k) => ReplActionView::ReadKnowledgeFile(*k),
            ReplAction::SendPrompt(p) => ReplActionView::SendPrompt(p@),
            ReplAction::RenderReply(t) => ReplActionView::RenderReply(t@),
            ReplAction::ReportLoadError(e) => ReplActionView::ReportLoadError(*e),
            ReplAction::ReportRemoteFailure => ReplActionView::ReportRemoteFailure,
            ReplAction::Exit => ReplActionView::Exit,
        }
    }
}

pub ghost struct SessionView {
    pub state: ReplState,
    pub history: Seq<MessageView>,
    pub knowledge: Seq<char>,
}

pub ghost struct StepOutcome {
    pub session: SessionView,
    pub action: ReplActionView,
}

/// What loading the given kind of knowledge from the given text must yield.
pub open spec fn load_spec(kind: KnowledgeKind, text: Seq<char>) -> Result<
    Seq<char>,
    KnowledgeLoadError,
> {
    match kind {
        KnowledgeKind::Pii => pii_load_spec(text),
        KnowledgeKind::Mq => mq_load_spec(text),
    }
}

/// Which menu index selects which knowledge source. Index 0 is the PII
/// taxonomy and index 2 the MQ catalog; every other index is a source with
/// no file behind it.
pub open spec fn selection_kind(sel: nat) -> Option<KnowledgeKind> {
    if sel == 0 {
        Some(KnowledgeKind::Pii)
    } else if sel == 2 {
        Some(KnowledgeKind::Mq)
    } else {
        None
    }
}

/// Which events can arrive in which state: any state still running can see
/// the cancellation flag; otherwise the event must answer what the loop is
/// blocked on. Nothing arrives once the loop is stopped.
pub open spec fn event_fits(state: ReplState, e: ReplEventView) -> bool {
    match state {
        ReplState::AwaitingInput => e is Interrupted || e is Line || e is InputFailed,
        ReplState::AwaitingSelection => e is Interrupted || e is Selected,
        ReplState::AwaitingFile(_) => e is Interrupted || e is FileContent,
        ReplState::AwaitingReply => e is Interrupted || e is ReplyOk || e is ReplyFailed,
        ReplState::Stopped => false,
    }
}

pub open spec fn stopped(s: SessionView) -> StepOutcome {
    StepOutcome {
        session: SessionView { state: ReplState::Stopped, ..s },
        action: ReplActionView::Exit,
    }
}

pub open spec fn step_line_spec(s: SessionView, l: Seq<char>) -> StepOutcome {
    if l.len() == 0 || l == "exit"@ {
        stopped(s)
    } else if l == "clear"@ {
        StepOutcome {
            session: SessionView {
                state: ReplState::AwaitingInput,
                history: Seq::empty(),
                ..s
            },
            action: ReplActionView::PromptForLine,
        }
    } else if l == ".k"@ {
        StepOutcome {
            session: SessionView { state: ReplState::AwaitingSelection, ..s },
            action: ReplActionView::PromptForSelection,
        }
    } else {
        StepOutcome {
            session: SessionView {
                state: ReplState::AwaitingReply,
                history: s.history.push(MessageView { role: Role::Human, content: l }),
                ..s
            },
            action: ReplActionView::SendPrompt(
                prompt_of(system_instruction_text(), s.knowledge, s.history, l),
            ),
        }
    }
}

pub open spec fn step_selected_spec(s: SessionView, sel: nat) -> StepOutcome {
    match selection_kind(sel) {
        Some(kind) => StepOutcome {
            session: SessionView { state: ReplState::AwaitingFile(kind), ..s },
            action: ReplActionView::ReadKnowledgeFile(kind),
        },
        None => StepOutcome {
            session: SessionView {
                state: ReplState::AwaitingInput,
                knowledge: Seq::empty(),
                ..s
            },
            action: ReplActionView::PromptForLine,
        },
    }
}

pub open spec fn step_file_spec(
    s: SessionView,
    kind: KnowledgeKind,
    content: Option<Seq<char>>,
) -> StepOutcome {
    match content {
        None => StepOutcome {
            session: SessionView { state: ReplState::AwaitingInput, ..s },
            action: ReplActionView::ReportLoadError(KnowledgeLoadError::UnreadableFile),
        },
        Some(text) => match load_spec(kind, text) {
            Result::Ok(k) => StepOutcome {
                session: SessionView { state: ReplState::AwaitingInput, knowledge: k, ..s },
                action: ReplActionView::PromptForLine,
            },
            Result::Err(err) => StepOutcome {
                session: SessionView { state: ReplState::AwaitingInput, ..s },
                action: ReplActionView::ReportLoadError(err),
            },
        },
    }
}

/// The whole loop as one transition function: from the session and the next
/// event to the next session and the one action the outside world performs.
pub open spec fn step_spec(s: SessionView, e: ReplEventView) -> StepOutcome {
    if e is Interrupted {
        stopped(s)
    } else {
        match s.state {
            ReplState::AwaitingInput => match e {
                ReplEventView::Line(l) => step_line_spec(s, l),
                _ => stopped(s),
            },
            ReplState::AwaitingSelection => match e {
                ReplEventView::Selected(sel) => step_selected_spec(s, sel),
                _ => stopped(s),
            },
            ReplState::AwaitingFile(kind) => match e {
                ReplEventView::FileContent(content) => step_file_spec(s, kind, content),
                _ => stopped(s),
            },
            ReplState::AwaitingReply => match e {
                ReplEventView::ReplyOk(t) => StepOutcome {
                    session: SessionView {
                        state: ReplState::AwaitingInput,
                        history: s.history.push(
                            MessageView { role: Role::Assistant, content: t },
                        ),
                        ..s
                    },
                    action: ReplActionView::RenderReply(t),
                },
                _ => StepOutcome {
                    session: SessionView { state: ReplState::AwaitingInput, ..s },
                    action: ReplActionView::ReportRemoteFailure,
                },
            },
            ReplState::Stopped => stopped(s),
        }
    }
}

/// One interactive session: the loop's state, the conversation so far, and
/// the active knowledge.
pub struct Session {
    state: ReplState,
    history: ConversationHistory,
    knowledge: ActiveKnowledge,
}

impl View for Session {
    type V = SessionView;

    closed spec fn view(&self) -> SessionView {
        SessionView { state: self.state, history: self.history@, knowledge: self.knowledge@ }
    }
}

pub open spec fn initial_session() -> SessionView {
    SessionView {
        state: ReplState::AwaitingInput,
        history: Seq::empty(),
        knowledge: Seq::empty(),
    }
}

impl Session {
    /// A session starts awaiting input, with no history and no knowledge.
    pub fn new() -> (s: Session)
        ensures
            s@ == initial_session(),
    {
        Session {
            state: ReplState::AwaitingInput,
            history: ConversationHistory::new(),
            knowledge: ActiveKnowledge::new(),
        }
    }

    pub fn state(&self) -> (st: ReplState)
        ensures
            st == self@.state,
    {
        self.state
    }

    pub fn history(&self) -> (h: &ConversationHistory)
        ensures
            h@ == self@.history,
    {
        &self.history
    }

    pub fn knowledge_text(&self) -> (t: &String)
        ensures
            t@ == self@.knowledge,
    {
        self.knowledge.text()
    }

    /// Advance the loop by one event and say what to do next.
    pub fn step(&mut self, event: ReplEvent) -> (action: ReplAction)
        requires
            event_fits(old(self)@.state, event@),
        ensures
            final(self)@ == step_spec(old(self)@, event@).session,
            action@ == step_spec(old(self)@, event@).action,
    {
        match event {
            ReplEvent::Interrupted => {
                self.state = ReplState::Stopped;
                ReplAction::Exit
            },
            ReplEvent::InputFailed => {
                self.state = ReplState::Stopped;
                ReplAction::Exit
            },
            ReplEvent::Line(line) => {
                let kw_exit = String::from_str("exit");
                if line.as_str().is_empty() || line == kw_exit {
                    self.state = ReplState::Stopped;
                    ReplAction::Exit
                } else {
                    let kw_clear = String::from_str("clear");
                    let kw_select = String::from_str(".k");
                    if line == kw_clear {
                        self.history.clear();
                        self.state = ReplState::AwaitingInput;
                        ReplAction::PromptForLine
                    } else if line == kw_select {
                        self.state = ReplState::AwaitingSelection;
                        ReplAction::PromptForSelection
                    } else {
                        let instruction = system_instruction();
                        let p = build_prompt(
                            &instruction,
                            self.knowledge.text(),
                            &self.history,
                            &line,
                        );
                        self.history.push_human(line);
                        self.state = ReplState::AwaitingReply;
                        ReplAction::SendPrompt(p)
                    }
                }
            },
            ReplEvent::Selected(sel) => {
                if sel == 0 {
                    self.state = ReplState::AwaitingFile(KnowledgeKind::Pii);
                    ReplAction::ReadKnowledgeFile(KnowledgeKind::Pii)
                } else if sel == 2 {
                    self.state = ReplState::AwaitingFile(KnowledgeKind::Mq);
                    ReplAction::ReadKnowledgeFile(KnowledgeKind::Mq)
                } else {
                    self.knowledge.replace(String::new());
                    self.state = ReplState::AwaitingInput;
                    ReplAction::PromptForLine
                }
            },
            ReplEvent::FileContent(content) => {
                let kind = match self.state {
                    ReplState::AwaitingFile(k) => k,
                    _ => vstd::pervasive::unreached(),
                };
                self.state = ReplState::AwaitingInput;
                match content {
                    None => ReplAction::ReportLoadError(KnowledgeLoadError::UnreadableFile),
                    Some(text) => {
                        let loaded = match kind {
                            KnowledgeKind::Pii => load_pii_knowledge(text.as_str()),
                            KnowledgeKind::Mq => load_mq_knowledge(text.as_str()),
                        };
                        match loaded {
                            Ok(k) => {
                                self.knowledge.replace(k);
                                ReplAction::PromptForLine
                            },
                            Err(e) => ReplAction::ReportLoadError(e),
                        }
                    },
                }
            },
            ReplEvent::ReplyOk(text) => {
                self.history.push_assistant(text.clone());
                self.state = ReplState::AwaitingInput;
                ReplAction::RenderReply(text)
            },
            ReplEvent::ReplyFailed => {
                self.state = ReplState::AwaitingInput;
                ReplAction::ReportRemoteFailure
            },
        }
    }
}

/// A line that reaches the remote call: non-empty and none of the reserved
/// tokens.
pub open spec fn is_query(l: Seq<char>) -> bool {
    l.len() != 0 && l != "exit"@ && l != "clear"@ && l != ".k"@
}

/// The session after one successful turn: a query line answered by a reply.
pub open spec fn successful_turn(s: SessionView, input: Seq<char>, reply: Seq<char>) -> SessionView {
    step_spec(step_spec(s, ReplEventView::Line(input)).session, ReplEventView::ReplyOk(reply)).session
}

/// The session after a whole sequence of successful turns, oldest first.
pub open spec fn run_turns(s: SessionView, turns: Seq<(Seq<char>, Seq<char>)>) -> SessionView
    decreases turns.len(),
{
    if turns.len() == 0 {
        s
    } else {
        run_turns(successful_turn(s, turns[0].0, turns[0].1), turns.drop_first())
    }
}

/// Every successful turn appends exactly one human and one assistant
/// message: any sequence of N successful query turns grows the history by
/// exactly 2N, leaves the loop awaiting input, and leaves the active
/// knowledge untouched.
pub proof fn lemma_turns_grow_history_two_per_turn(
    s: SessionView,
    turns: Seq<(Seq<char>, Seq<char>)>,
)
    requires
        s.state == ReplState::AwaitingInput,
        forall|i: int| 0 <= i < turns.len() ==> is_query(#[trigger] turns[i].0),
    ensures
        run_turns(s, turns).state == ReplState::AwaitingInput,
        run_turns(s, turns).history.len() == s.history.len() + 2 * turns.len(),
        run_turns(s, turns).knowledge == s.knowledge,
    decreases turns.len(),
{
    if turns.len() != 0 {
        assert(is_query(turns[0].0));
        let s1 = successful_turn(s, turns[0].0, turns[0].1);
        assert(s1.state == ReplState::AwaitingInput);
        assert(s1.history.len() == s.history.len() + 2);
        assert forall|i: int| 0 <= i < turns.drop_first().len() implies is_query(
            #[trigger] turns.drop_first()[i].0,
        ) by {
            assert(turns.drop_first()[i] == turns[i + 1]);
        }
        lemma_turns_grow_history_two_per_turn(s1, turns.drop_first());
    }
}

/// From an empty history, N successful turns leave exactly 2N messages, and
/// a following "clear" line empties the history again, whatever its length.
pub proof fn lemma_history_length_and_clear(s: SessionView, turns: Seq<(Seq<char>, Seq<char>)>)
    requires
        s.state == ReplState::AwaitingInput,
        s.history.len() == 0,
        forall|i: int| 0 <= i < turns.len() ==> is_query(#[trigger] turns[i].0),
    ensures
        run_turns(s, turns).history.len() == 2 * turns.len(),
        step_spec(run_turns(s, turns), ReplEventView::Line("clear"@)).session.history.len() == 0,
{
    lemma_turns_grow_history_two_per_turn(s, turns);
    reveal_strlit("clear");
    reveal_strlit("exit");
    assert("clear"@.len() == 5);
}

/// A failed remote call keeps the human turn and appends no assistant turn:
/// from an evenly paired history, one query followed by a failure leaves the
/// history one message longer, of odd length, ending in the human turn, and
/// the loop back awaiting input rather than stopped.
pub proof fn lemma_failed_call_keeps_human_turn(s: SessionView, input: Seq<char>)
    requires
        s.state == ReplState::AwaitingInput,
        is_query(input),
        s.history.len() % 2 == 0,
    ensures
        ({
            let mid = step_spec(s, ReplEventView::Line(input)).session;
            let out = step_spec(mid, ReplEventView::ReplyFailed).session;
            &&& out.state == ReplState::AwaitingInput
            &&& out.history == mid.history
            &&& out.history.len() == s.history.len() + 1
            &&& out.history.len() % 2 == 1
            &&& out.history.last() == MessageView { role: Role::Human, content: input }
        }),
{
}

/// A failed knowledge load reports its error and leaves the previously
/// active knowledge untouched; the loop goes on.
pub proof fn lemma_failed_load_keeps_knowledge(
    s: SessionView,
    kind: KnowledgeKind,
    text: Seq<char>,
)
    requires
        s.state == ReplState::AwaitingFile(kind),
        (load_spec(kind, text) is Err),
    ensures
        (step_spec(s, ReplEventView::FileContent(Some(text))).session == (SessionView {
            state: ReplState::AwaitingInput,
            ..s
        })),
        step_spec(s, ReplEventView::FileContent(Some(text))).action
            == ReplActionView::ReportLoadError(load_spec(kind, text)->Err_0),
{
}

/// The session after showing the menu, picking one source and loading its
/// file, from a session that was awaiting input.
pub open spec fn select_and_load(s: SessionView, sel: nat, text: Seq<char>) -> SessionView {
    let s1 = step_spec(s, ReplEventView::Line(".k"@)).session;
    let s2 = step_spec(s1, ReplEventView::Selected(sel)).session;
    step_spec(s2, ReplEventView::FileContent(Some(text))).session
}

/// Selecting a knowledge source twice in a row replaces rather than
/// concatenates: after loading source one and then source two, the active
/// knowledge is exactly the second rendering, whatever the first load did.
pub proof fn lemma_second_selection_replaces_first(
    s: SessionView,
    sel1: nat,
    text1: Seq<char>,
    sel2: nat,
    text2: Seq<char>,
)
    requires
        s.state == ReplState::AwaitingInput,
        (selection_kind(sel1) is Some),
        (selection_kind(sel2) is Some),
        (load_spec(selection_kind(sel2)->0, text2) is Ok),
    ensures
        select_and_load(select_and_load(s, sel1, text1), sel2, text2).knowledge == load_spec(
            selection_kind(sel2)->0,
            text2,
        )->Ok_0,
        select_and_load(select_and_load(s, sel1, text1), sel2, text2).state
            == ReplState::AwaitingInput,
{
    reveal_strlit(".k");
    reveal_strlit("exit");
    reveal_strlit("clear");
    assert(".k"@.len() == 2);
    assert("exit"@.len() == 4);
    assert("clear"@.len() == 5);
}

/// An empty input line or the exit keyword stops the loop at once: nothing
/// is sent, nothing changes, the action is to leave with success.
pub proof fn lemma_empty_or_exit_stops(s: SessionView, l: Seq<char>)
    requires
        s.state == ReplState::AwaitingInput,
        l.len() == 0 || l == "exit"@,
    ensures
        (step_spec(s, ReplEventView::Line(l)).session == (SessionView {
            state: ReplState::Stopped,
            ..s
        })),
        step_spec(s, ReplEventView::Line(l)).action == ReplActionView::Exit,
        (!(step_spec(s, ReplEventView::Line(l)).action is SendPrompt)),
{
}

} // verus!
