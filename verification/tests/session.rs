use knowchat::history::Role;
use knowchat::knowledge::ActiveKnowledge;
use knowchat::knowledge::KnowledgeLoadError;
use knowchat::repl::KnowledgeKind;
use knowchat::repl::ReplAction;
use knowchat::repl::ReplEvent;
use knowchat::repl::ReplState;
use knowchat::repl::Session;

const PII_TEXT: &str = r#"{"pii_description":["A","B"],"exclude_pii_description":["C"]}"#;
const MQ_TEXT: &str = "{\"mq_data_background\":\"BG\",\"mq_data_current_state\":\"ST\",\"mq_technology\":\"TE\",\"mq_pub_sub_topics\":[]}";

fn one_turn(session: &mut Session, input: &str, reply: &str) {
    let action = session.step(ReplEvent::Line(input.to_string()));
    assert!(matches!(action, ReplAction::SendPrompt(_)));
    let action = session.step(ReplEvent::ReplyOk(reply.to_string()));
    assert!(matches!(action, ReplAction::RenderReply(_)));
}

#[test]
fn history_grows_by_two_per_successful_turn() {
    let mut session = Session::new();
    assert_eq!(session.history().len(), 0);
    one_turn(&mut session, "first question", "first answer");
    assert_eq!(session.history().len(), 2);
    one_turn(&mut session, "second question", "second answer");
    assert_eq!(session.history().len(), 4);
    assert_eq!(session.state(), ReplState::AwaitingInput);
}

#[test]
fn clear_empties_history_whatever_its_length() {
    let mut session = Session::new();
    one_turn(&mut session, "one", "two");
    one_turn(&mut session, "three", "four");
    let action = session.step(ReplEvent::Line("clear".to_string()));
    assert!(matches!(action, ReplAction::PromptForLine));
    assert_eq!(session.history().len(), 0);
    assert_eq!(session.state(), ReplState::AwaitingInput);
}

#[test]
fn failed_call_keeps_human_turn_and_loop_runs_on() {
    let mut session = Session::new();
    let action = session.step(ReplEvent::Line("question".to_string()));
    assert!(matches!(action, ReplAction::SendPrompt(_)));
    let action = session.step(ReplEvent::ReplyFailed);
    assert!(matches!(action, ReplAction::ReportRemoteFailure));
    assert_eq!(session.history().len(), 1);
    assert_eq!(session.history().len() % 2, 1);
    assert_eq!(session.history().get(0).role, Role::Human);
    assert_eq!(session.history().get(0).content, "question");
    assert_eq!(session.state(), ReplState::AwaitingInput);
}

fn load_source(session: &mut Session, index: usize, kind: KnowledgeKind, text: &str) {
    let action = session.step(ReplEvent::Line(".k".to_string()));
    assert!(matches!(action, ReplAction::PromptForSelection));
    let action = session.step(ReplEvent::Selected(index));
    match action {
        ReplAction::ReadKnowledgeFile(k) => assert_eq!(k, kind),
        other => panic!("expected a file read, got {:?}", std::mem::discriminant(&other)),
    }
    let action = session.step(ReplEvent::FileContent(Some(text.to_string())));
    assert!(matches!(action, ReplAction::PromptForLine));
}

#[test]
fn selecting_twice_replaces_rather_than_concatenates() {
    let mut session = Session::new();
    load_source(&mut session, 0, KnowledgeKind::Pii, PII_TEXT);
    let pii_rendered = session.knowledge_text().clone();
    assert!(pii_rendered.contains("A\nB\n"));
    load_source(&mut session, 2, KnowledgeKind::Mq, MQ_TEXT);
    let mq_rendered = session.knowledge_text().clone();
    assert!(mq_rendered.contains("BG"));
    assert!(!mq_rendered.contains(&pii_rendered));
    assert!(!mq_rendered.contains("Category of PII"));
}

#[test]
fn selecting_source_without_file_empties_knowledge() {
    let mut session = Session::new();
    load_source(&mut session, 0, KnowledgeKind::Pii, PII_TEXT);
    assert!(!session.knowledge_text().is_empty());
    let action = session.step(ReplEvent::Line(".k".to_string()));
    assert!(matches!(action, ReplAction::PromptForSelection));
    let action = session.step(ReplEvent::Selected(1));
    assert!(matches!(action, ReplAction::PromptForLine));
    assert_eq!(session.knowledge_text(), "");
}

#[test]
fn failed_load_leaves_previous_knowledge_untouched() {
    let mut session = Session::new();
    load_source(&mut session, 0, KnowledgeKind::Pii, PII_TEXT);
    let before = session.knowledge_text().clone();

    let action = session.step(ReplEvent::Line(".k".to_string()));
    assert!(matches!(action, ReplAction::PromptForSelection));
    let action = session.step(ReplEvent::Selected(0));
    assert!(matches!(action, ReplAction::ReadKnowledgeFile(_)));
    let action = session.step(ReplEvent::FileContent(Some("{\"x\":1}".to_string())));
    assert!(matches!(
        action,
        ReplAction::ReportLoadError(KnowledgeLoadError::SchemaMismatch)
    ));
    assert_eq!(session.knowledge_text(), &before);
    assert_eq!(session.state(), ReplState::AwaitingInput);
}

#[test]
fn unreadable_file_is_reported_and_knowledge_kept() {
    let mut session = Session::new();
    load_source(&mut session, 2, KnowledgeKind::Mq, MQ_TEXT);
    let before = session.knowledge_text().clone();
    let action = session.step(ReplEvent::Line(".k".to_string()));
    assert!(matches!(action, ReplAction::PromptForSelection));
    let action = session.step(ReplEvent::Selected(0));
    assert!(matches!(action, ReplAction::ReadKnowledgeFile(_)));
    let action = session.step(ReplEvent::FileContent(None));
    assert!(matches!(
        action,
        ReplAction::ReportLoadError(KnowledgeLoadError::UnreadableFile)
    ));
    assert_eq!(session.knowledge_text(), &before);
}

#[test]
fn empty_line_stops_without_remote_call() {
    let mut session = Session::new();
    let action = session.step(ReplEvent::Line(String::new()));
    assert!(matches!(action, ReplAction::Exit));
    assert_eq!(session.state(), ReplState::Stopped);
    assert_eq!(session.history().len(), 0);
}

#[test]
fn exit_keyword_stops_without_remote_call() {
    let mut session = Session::new();
    let action = session.step(ReplEvent::Line("exit".to_string()));
    assert!(matches!(action, ReplAction::Exit));
    assert_eq!(session.state(), ReplState::Stopped);
    assert_eq!(session.history().len(), 0);
}

#[test]
fn interrupt_stops_the_loop() {
    let mut session = Session::new();
    let action = session.step(ReplEvent::Interrupted);
    assert!(matches!(action, ReplAction::Exit));
    assert_eq!(session.state(), ReplState::Stopped);
}

#[test]
fn input_failure_stops_the_loop() {
    let mut session = Session::new();
    let action = session.step(ReplEvent::InputFailed);
    assert!(matches!(action, ReplAction::Exit));
    assert_eq!(session.state(), ReplState::Stopped);
}

#[test]
fn replace_overwrites_active_knowledge() {
    let mut knowledge = ActiveKnowledge::new();
    assert!(knowledge.is_empty());
    knowledge.replace("first".to_string());
    assert_eq!(knowledge.text(), "first");
    knowledge.replace("second".to_string());
    assert_eq!(knowledge.text(), "second");
    assert!(!knowledge.is_empty());
}
