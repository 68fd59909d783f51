use condition_json::condition::{ConditionTree, Operator};
use condition_json::parser::parse_query;

fn keyword(value: &str) -> ConditionTree {
    ConditionTree::Keyword(value.to_string())
}

fn phrase(value: &str) -> ConditionTree {
    ConditionTree::PhraseKeyword(value.to_string())
}

fn not(inner: ConditionTree) -> ConditionTree {
    ConditionTree::Not(Box::new(inner))
}

#[test]
fn single_word_is_a_keyword() {
    assert_eq!(parse_query("cat"), Ok(keyword("cat")));
}

#[test]
fn words_joined_by_and() {
    assert_eq!(
        parse_query("cat AND dog"),
        Ok(ConditionTree::Operator(Operator::And, vec![keyword("cat"), keyword("dog")]))
    );
}

#[test]
fn words_joined_by_spaces_are_joined_by_and() {
    assert_eq!(
        parse_query("word1 word2"),
        Ok(ConditionTree::Operator(Operator::And, vec![keyword("word1"), keyword("word2")]))
    );
}

#[test]
fn words_joined_by_or() {
    assert_eq!(
        parse_query("cat OR dog"),
        Ok(ConditionTree::Operator(Operator::Or, vec![keyword("cat"), keyword("dog")]))
    );
}

#[test]
fn quoted_words_are_a_phrase() {
    assert_eq!(parse_query("\"red fox\""), Ok(phrase("red fox")));
}

#[test]
fn minus_negates() {
    assert_eq!(parse_query("-spam"), Ok(not(keyword("spam"))));
    assert_eq!(parse_query("-\"red fox\""), Ok(not(phrase("red fox"))));
}

#[test]
fn brackets_nest() {
    assert_eq!(
        parse_query("word1 AND (word2 OR word3)"),
        Ok(ConditionTree::Operator(
            Operator::And,
            vec![
                keyword("word1"),
                ConditionTree::Operator(Operator::Or, vec![keyword("word2"), keyword("word3")]),
            ]
        ))
    );
}

#[test]
fn negated_brackets() {
    assert_eq!(
        parse_query("-word1 -\"word2\" -(word3 OR word4)"),
        Ok(ConditionTree::Operator(
            Operator::And,
            vec![
                not(keyword("word1")),
                not(phrase("word2")),
                not(ConditionTree::Operator(
                    Operator::Or,
                    vec![keyword("word3"), keyword("word4")]
                )),
            ]
        ))
    );
}

#[test]
fn query_without_a_term_is_the_empty_condition() {
    assert_eq!(parse_query(""), Ok(ConditionTree::Empty));
    assert_eq!(parse_query("   "), Ok(ConditionTree::Empty));
    assert_eq!(parse_query("(("), Ok(ConditionTree::Empty));
    assert_eq!(parse_query("\"\""), Ok(ConditionTree::Empty));
}

#[test]
fn the_word_not_is_a_keyword() {
    assert_eq!(
        parse_query("NOT spam"),
        Ok(ConditionTree::Operator(Operator::And, vec![keyword("NOT"), keyword("spam")]))
    );
}
