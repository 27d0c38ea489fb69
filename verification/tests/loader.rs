use knowchat::knowledge::load_mq_knowledge;
use knowchat::knowledge::load_pii_knowledge;
use knowchat::knowledge::KnowledgeLoadError;

const PII_HEADER: &str =
    "Here is the knowledge about Category of PII (Personal Identifiable Information) :\n";
const NON_PII_HEADER: &str =
    "Here is the knowledge about Category of Non-PII (Personal Identifiable Information) :\n";

#[test]
fn pii_renders_descriptions_in_order() {
    let text = r#"{"pii_description":["A","B"],"exclude_pii_description":["C"]}"#;
    let rendered = load_pii_knowledge(text).unwrap();
    let expected = format!("{}A\nB\n{}C\n", PII_HEADER, NON_PII_HEADER);
    assert_eq!(rendered, expected);
}

#[test]
fn pii_renders_empty_arrays_as_headers_only() {
    let text = r#"{"pii_description":[],"exclude_pii_description":[]}"#;
    let rendered = load_pii_knowledge(text).unwrap();
    let expected = format!("{}{}", PII_HEADER, NON_PII_HEADER);
    assert_eq!(rendered, expected);
}

#[test]
fn pii_accepts_escaped_strings() {
    // The parser must decode JSON escapes, not hand the raw text through.
    let text = r#"{"pii_description":["A b","line\nbreak"],"exclude_pii_description":[]}"#;
    let rendered = load_pii_knowledge(text).unwrap();
    let expected = format!("{}A b\nline\nbreak\n{}", PII_HEADER, NON_PII_HEADER);
    assert_eq!(rendered, expected);
}

#[test]
fn pii_ignores_unknown_fields() {
    let text = r#"{"pii_description":["A"],"exclude_pii_description":[],"note":"x"}"#;
    let rendered = load_pii_knowledge(text).unwrap();
    let expected = format!("{}A\n{}", PII_HEADER, NON_PII_HEADER);
    assert_eq!(rendered, expected);
}

#[test]
fn pii_missing_field_is_schema_mismatch() {
    let text = r#"{"pii_description":["A"]}"#;
    assert_eq!(
        load_pii_knowledge(text).unwrap_err(),
        KnowledgeLoadError::SchemaMismatch
    );
}

#[test]
fn pii_wrong_type_is_schema_mismatch() {
    let text = r#"{"pii_description":"A","exclude_pii_description":[]}"#;
    assert_eq!(
        load_pii_knowledge(text).unwrap_err(),
        KnowledgeLoadError::SchemaMismatch
    );
    let text = r#"{"pii_description":["A",3],"exclude_pii_description":[]}"#;
    assert_eq!(
        load_pii_knowledge(text).unwrap_err(),
        KnowledgeLoadError::SchemaMismatch
    );
    let text = r#"["pii_description"]"#;
    assert_eq!(
        load_pii_knowledge(text).unwrap_err(),
        KnowledgeLoadError::SchemaMismatch
    );
}

#[test]
fn pii_malformed_json_is_reported() {
    assert_eq!(
        load_pii_knowledge("{").unwrap_err(),
        KnowledgeLoadError::MalformedJson
    );
    assert_eq!(
        load_pii_knowledge("").unwrap_err(),
        KnowledgeLoadError::MalformedJson
    );
}

fn mq_sample() -> String {
    let mut text = String::from("{\"mq_data_background\":\"BG\",");
    text.push_str("\"mq_data_current_state\":\"ST\",");
    text.push_str("\"mq_technology\":\"TE\",");
    text.push_str("\"mq_pub_sub_topics\":[");
    text.push_str("{\"business_module\":\"X\",\"topic_name\":\"Y\",");
    text.push_str("\"publisher\":\"Z\",\"remark\":\"R\"}]}");
    text
}

#[test]
fn mq_renders_labeled_sections_and_topic() {
    let rendered = load_mq_knowledge(&mq_sample()).unwrap();
    let mut expected = String::from("Here is the knowledge about Message sync MQ Pub/Sub :\nBG\n");
    expected.push_str("Here is the knowledge about Message sync MQ Pub/Sub Current State :\nST\n");
    expected.push_str("Here is the knowledge about Message sync MQ Pub/Sub Technology :\nTE\n");
    expected.push_str("Here is the knowledge about Message sync MQ Pub/Sub Topics :\n");
    expected.push_str("Business Module: X\nTopic Name or Topic String: Y\n");
    expected.push_str("Publisher: Z\nRemark: R\n\n");
    assert_eq!(rendered, expected);
}

#[test]
fn mq_final_section_has_four_labeled_lines_then_blank() {
    let rendered = load_mq_knowledge(&mq_sample()).unwrap();
    let lines: Vec<&str> = rendered.lines().collect();
    let topics_at = lines
        .iter()
        .position(|l| *l == "Here is the knowledge about Message sync MQ Pub/Sub Topics :")
        .unwrap();
    assert_eq!(lines[topics_at + 1], "Business Module: X");
    assert_eq!(lines[topics_at + 2], "Topic Name or Topic String: Y");
    assert_eq!(lines[topics_at + 3], "Publisher: Z");
    assert_eq!(lines[topics_at + 4], "Remark: R");
    assert!(rendered.ends_with("Remark: R\n\n"));
}

#[test]
fn mq_keeps_topic_order() {
    let mut text = String::from("{\"mq_data_background\":\"\",\"mq_data_current_state\":\"\",");
    text.push_str("\"mq_technology\":\"\",\"mq_pub_sub_topics\":[");
    text.push_str("{\"business_module\":\"1\",\"topic_name\":\"a\",\"publisher\":\"p\",\"remark\":\"\"},");
    text.push_str("{\"business_module\":\"2\",\"topic_name\":\"b\",\"publisher\":\"q\",\"remark\":\"\"}]}");
    let rendered = load_mq_knowledge(&text).unwrap();
    let first = rendered.find("Business Module: 1").unwrap();
    let second = rendered.find("Business Module: 2").unwrap();
    assert!(first < second);
}

#[test]
fn mq_missing_topic_field_is_schema_mismatch() {
    let mut text = String::from("{\"mq_data_background\":\"BG\",\"mq_data_current_state\":\"ST\",");
    text.push_str("\"mq_technology\":\"TE\",");
    text.push_str("\"mq_pub_sub_topics\":[{\"business_module\":\"X\"}]}");
    assert_eq!(
        load_mq_knowledge(&text).unwrap_err(),
        KnowledgeLoadError::SchemaMismatch
    );
}

#[test]
fn mq_missing_section_is_schema_mismatch() {
    let text = r#"{"mq_data_background":"BG","mq_pub_sub_topics":[]}"#;
    assert_eq!(
        load_mq_knowledge(text).unwrap_err(),
        KnowledgeLoadError::SchemaMismatch
    );
}

#[test]
fn mq_malformed_json_is_reported() {
    assert_eq!(
        load_mq_knowledge("not json").unwrap_err(),
        KnowledgeLoadError::MalformedJson
    );
}
