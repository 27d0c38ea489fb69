use knowchat::history::ConversationHistory;
use knowchat::history::Role;
use knowchat::prompt::build_prompt;
use knowchat::prompt::system_instruction;
use knowchat::repl::ReplAction;
use knowchat::repl::ReplEvent;
use knowchat::repl::Session;

#[test]
fn instruction_text_is_fixed() {
    assert_eq!(
        system_instruction(),
        "You are a world-class technical documentation writer. Use the following knowledge to answer the user's query."
    );
}

#[test]
fn empty_knowledge_adds_no_knowledge_block() {
    let history = ConversationHistory::new();
    let p = build_prompt(
        &system_instruction(),
        &String::new(),
        &history,
        &"hello".to_string(),
    );
    assert_eq!(p.messages.len(), 2);
    assert_eq!(p.messages[0].role, Role::System);
    assert_eq!(p.messages[0].content, system_instruction());
    assert_eq!(p.messages[1].role, Role::Human);
    assert_eq!(p.messages[1].content, "hello");
}

#[test]
fn knowledge_block_follows_instruction() {
    let history = ConversationHistory::new();
    let p = build_prompt(
        &system_instruction(),
        &"facts".to_string(),
        &history,
        &"hello".to_string(),
    );
    assert_eq!(p.messages.len(), 3);
    assert_eq!(p.messages[1].role, Role::System);
    assert_eq!(p.messages[1].content, "Knowledge:\nfacts");
    assert_eq!(p.messages[2].role, Role::Human);
}

#[test]
fn history_is_kept_in_order_before_the_new_input() {
    let mut history = ConversationHistory::new();
    history.push_human("q1".to_string());
    history.push_assistant("a1".to_string());
    let p = build_prompt(
        &system_instruction(),
        &String::new(),
        &history,
        &"q2".to_string(),
    );
    assert_eq!(p.messages.len(), 4);
    assert_eq!(p.messages[1].role, Role::Human);
    assert_eq!(p.messages[1].content, "q1");
    assert_eq!(p.messages[2].role, Role::Assistant);
    assert_eq!(p.messages[2].content, "a1");
    assert_eq!(p.messages[3].role, Role::Human);
    assert_eq!(p.messages[3].content, "q2");
}

#[test]
fn session_sends_instruction_history_and_input() {
    let mut session = Session::new();
    let action = session.step(ReplEvent::Line("q1".to_string()));
    let p = match action {
        ReplAction::SendPrompt(p) => p,
        _ => panic!("expected a prompt"),
    };
    assert_eq!(p.messages.len(), 2);
    assert_eq!(p.messages[0].role, Role::System);
    assert_eq!(p.messages[1].content, "q1");

    let action = session.step(ReplEvent::ReplyOk("a1".to_string()));
    assert!(matches!(action, ReplAction::RenderReply(_)));

    let action = session.step(ReplEvent::Line("q2".to_string()));
    let p = match action {
        ReplAction::SendPrompt(p) => p,
        _ => panic!("expected a prompt"),
    };
    assert_eq!(p.messages.len(), 4);
    assert_eq!(p.messages[1].content, "q1");
    assert_eq!(p.messages[1].role, Role::Human);
    assert_eq!(p.messages[2].content, "a1");
    assert_eq!(p.messages[2].role, Role::Assistant);
    assert_eq!(p.messages[3].content, "q2");
    assert_eq!(p.messages[3].role, Role::Human);
}

#[test]
fn history_push_and_get() {
    let mut history = ConversationHistory::new();
    history.push_human("hi".to_string());
    assert_eq!(history.len(), 1);
    assert_eq!(history.get(0).role, Role::Human);
    assert_eq!(history.get(0).content, "hi");
    history.push_assistant("yo".to_string());
    assert_eq!(history.len(), 2);
    assert_eq!(history.get(1).role, Role::Assistant);
    history.clear();
    assert_eq!(history.len(), 0);
}
