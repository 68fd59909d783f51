use condition_json::bridge::{diagnostic_line, handle, handle_outcome, Reply};
use condition_json::condition::{ConditionTree, Operator};
use condition_json::parser::ParseError;

fn keyword(value: &str) -> ConditionTree {
    ConditionTree::Keyword(value.to_string())
}

fn refused(message: &str) -> Result<ConditionTree, ParseError> {
    Err(ParseError { message: message.to_string() })
}

#[test]
fn parsed_conjunction_is_answered_with_its_document() {
    let parsed = ConditionTree::Operator(Operator::And, vec![keyword("cat"), keyword("dog")]);
    let reply = handle_outcome("cat AND dog".to_string(), Ok(parsed));
    assert_eq!(reply.json, "{\"and\":[{\"keyword\":\"cat\"},{\"keyword\":\"dog\"}]}");
    assert_eq!(reply.diagnostic, None);
}

#[test]
fn parsed_phrase_is_answered_with_its_document() {
    let parsed = ConditionTree::PhraseKeyword("red fox".to_string());
    let reply = handle_outcome("\"red fox\"".to_string(), Ok(parsed));
    assert_eq!(reply.json, "{\"phraseKeyword\":\"red fox\"}");
    assert_eq!(reply.diagnostic, None);
}

#[test]
fn parsed_negation_is_answered_with_its_document() {
    let parsed = ConditionTree::Not(Box::new(keyword("spam")));
    let reply = handle_outcome("NOT spam".to_string(), Ok(parsed));
    assert_eq!(reply.json, "{\"not\":{\"keyword\":\"spam\"}}");
    assert_eq!(reply.diagnostic, None);
}

#[test]
fn parsed_empty_condition_is_answered_with_the_empty_object() {
    let reply = handle_outcome("".to_string(), Ok(ConditionTree::Empty));
    assert_eq!(reply, Reply { json: "{}".to_string(), diagnostic: None });
}

#[test]
fn refused_query_is_answered_as_one_keyword() {
    let reply = handle_outcome("((".to_string(), refused("unbalanced brackets"));
    assert_eq!(reply.json, "{\"keyword\":\"((\"}");
    assert_eq!(reply.diagnostic, Some("ERROR: unbalanced brackets: ((".to_string()));
}

#[test]
fn refused_empty_query_is_answered_as_the_empty_keyword() {
    let reply = handle_outcome("".to_string(), refused("nothing to parse"));
    assert_eq!(reply.json, "{\"keyword\":\"\"}");
    assert_eq!(reply.diagnostic, Some("ERROR: nothing to parse: ".to_string()));
}

#[test]
fn refused_query_is_kept_character_by_character() {
    let query = "a \"b\" AND \\c\n(d OR";
    let reply = handle_outcome(query.to_string(), refused("no"));
    assert_eq!(reply.json, "{\"keyword\":\"a \\\"b\\\" AND \\\\c\\n(d OR\"}");
    let value: serde_json::Value = serde_json::from_str(&reply.json).expect("valid JSON");
    assert_eq!(value["keyword"].as_str(), Some(query));
}

#[test]
fn diagnostic_line_holds_the_message_and_the_query() {
    assert_eq!(diagnostic_line("bad", "x y"), "ERROR: bad: x y");
    assert_eq!(diagnostic_line("", ""), "ERROR: : ");
}

#[test]
fn handle_answers_a_conjunction() {
    let reply = handle("cat AND dog".to_string());
    assert_eq!(reply.json, "{\"and\":[{\"keyword\":\"cat\"},{\"keyword\":\"dog\"}]}");
    assert_eq!(reply.diagnostic, None);
}

#[test]
fn handle_answers_a_phrase() {
    let reply = handle("\"red fox\"".to_string());
    assert_eq!(reply.json, "{\"phraseKeyword\":\"red fox\"}");
    assert_eq!(reply.diagnostic, None);
}

#[test]
fn handle_answers_a_negation() {
    let reply = handle("-spam".to_string());
    assert_eq!(reply.json, "{\"not\":{\"keyword\":\"spam\"}}");
    assert_eq!(reply.diagnostic, None);
}

#[test]
fn handle_answers_a_layered_query() {
    let reply = handle(
        "(word1 and -word2) or ((\"phrase word 1\" or -\"phrase word 2\") and -(\" a long phrase word \" or word3))"
            .to_string(),
    );
    assert_eq!(
        reply.json,
        "{\"or\":[{\"and\":[{\"keyword\":\"word1\"},{\"not\":{\"keyword\":\"word2\"}}]},\
         {\"and\":[{\"or\":[{\"phraseKeyword\":\"phrase word 1\"},\
         {\"not\":{\"phraseKeyword\":\"phrase word 2\"}}]},\
         {\"not\":{\"or\":[{\"phraseKeyword\":\" a long phrase word \"},{\"keyword\":\"word3\"}]}}]}]}"
    );
    assert_eq!(reply.diagnostic, None);
}

#[test]
fn handle_answers_a_query_without_a_term_with_the_empty_object() {
    assert_eq!(handle("".to_string()), Reply { json: "{}".to_string(), diagnostic: None });
    assert_eq!(handle("((".to_string()), Reply { json: "{}".to_string(), diagnostic: None });
}

#[test]
fn handle_is_the_same_on_every_call() {
    let first = handle("a OR (b AND -c)".to_string());
    let second = handle("a OR (b AND -c)".to_string());
    assert_eq!(first, second);
}

#[test]
fn handle_escapes_what_the_terms_hold() {
    let reply = handle("back\\slash".to_string());
    assert_eq!(reply.json, "{\"keyword\":\"back\\\\slash\"}");
}
