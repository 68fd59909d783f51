use condition_json::condition::{ConditionTree, Operator};
use condition_json::document::ConditionJson;
use condition_json::mapper::json;

fn keyword(value: &str) -> ConditionTree {
    ConditionTree::Keyword(value.to_string())
}

fn phrase(value: &str) -> ConditionTree {
    ConditionTree::PhraseKeyword(value.to_string())
}

fn fields(document: &ConditionJson) -> usize {
    let mut count = 0;
    if document.keyword.is_some() {
        count += 1;
    }
    if document.phrase_keyword.is_some() {
        count += 1;
    }
    if document.not.is_some() {
        count += 1;
    }
    if document.and.is_some() {
        count += 1;
    }
    if document.or.is_some() {
        count += 1;
    }
    count
}

fn every_node_has_one_field(document: &ConditionJson) -> bool {
    fields(document) == 1
        && document.not.iter().all(|inner| every_node_has_one_field(inner))
        && document.and.iter().flatten().all(every_node_has_one_field)
        && document.or.iter().flatten().all(every_node_has_one_field)
}

#[test]
fn keyword_maps_to_keyword() {
    assert_eq!(json(keyword("cat")), ConditionJson::keyword("cat".to_string()));
}

#[test]
fn phrase_keyword_maps_to_phrase_keyword() {
    assert_eq!(json(phrase("red fox")), ConditionJson::phrase_keyword("red fox".to_string()));
}

#[test]
fn not_maps_to_not_of_the_mapped_child() {
    assert_eq!(
        json(ConditionTree::Not(Box::new(keyword("spam")))),
        ConditionJson::not(ConditionJson::keyword("spam".to_string()))
    );
}

#[test]
fn and_maps_its_children_in_order() {
    let tree = ConditionTree::Operator(Operator::And, vec![keyword("a"), keyword("b"), keyword("c")]);
    let document = json(tree);
    let items = document.and.expect("the field and is present");
    assert_eq!(items.len(), 3);
    assert_eq!(items[0], ConditionJson::keyword("a".to_string()));
    assert_eq!(items[1], ConditionJson::keyword("b".to_string()));
    assert_eq!(items[2], ConditionJson::keyword("c".to_string()));
}

#[test]
fn or_maps_its_children_in_order() {
    let tree = ConditionTree::Operator(Operator::Or, vec![phrase("z"), keyword("y")]);
    assert_eq!(
        json(tree),
        ConditionJson::or(vec![
            ConditionJson::phrase_keyword("z".to_string()),
            ConditionJson::keyword("y".to_string()),
        ])
    );
}

#[test]
fn empty_condition_maps_to_none() {
    assert_eq!(json(ConditionTree::Empty), ConditionJson::none());
}

#[test]
fn operators_without_children_map_to_empty_lists() {
    assert_eq!(
        json(ConditionTree::Operator(Operator::And, Vec::new())),
        ConditionJson::and(Vec::new())
    );
    assert_eq!(
        json(ConditionTree::Operator(Operator::Or, Vec::new())),
        ConditionJson::or(Vec::new())
    );
}

#[test]
fn empty_condition_inside_a_tree_maps_to_none_in_place() {
    let tree = ConditionTree::Operator(
        Operator::And,
        vec![keyword("a"), ConditionTree::Empty, ConditionTree::Not(Box::new(ConditionTree::Empty))],
    );
    assert_eq!(
        json(tree),
        ConditionJson::and(vec![
            ConditionJson::keyword("a".to_string()),
            ConditionJson::none(),
            ConditionJson::not(ConditionJson::none()),
        ])
    );
}

#[test]
fn nested_tree_maps_node_by_node() {
    let tree = ConditionTree::Operator(
        Operator::Or,
        vec![
            ConditionTree::Operator(
                Operator::And,
                vec![keyword("word1"), ConditionTree::Not(Box::new(keyword("word2")))],
            ),
            ConditionTree::Not(Box::new(ConditionTree::Operator(
                Operator::Or,
                vec![phrase(" a long phrase word "), keyword("word3")],
            ))),
        ],
    );
    let document = json(tree);
    assert!(every_node_has_one_field(&document));
    assert_eq!(
        document,
        ConditionJson::or(vec![
            ConditionJson::and(vec![
                ConditionJson::keyword("word1".to_string()),
                ConditionJson::not(ConditionJson::keyword("word2".to_string())),
            ]),
            ConditionJson::not(ConditionJson::or(vec![
                ConditionJson::phrase_keyword(" a long phrase word ".to_string()),
                ConditionJson::keyword("word3".to_string()),
            ])),
        ])
    );
}

#[test]
fn tree_with_an_empty_node_has_a_node_without_field() {
    let document = json(ConditionTree::Not(Box::new(ConditionTree::Empty)));
    assert!(!every_node_has_one_field(&document));
    assert_eq!(fields(&document), 1);
}

#[test]
fn deep_negation_maps_to_the_same_depth() {
    let mut tree = keyword("x");
    let mut expected = ConditionJson::keyword("x".to_string());
    for _ in 0..200 {
        tree = ConditionTree::Not(Box::new(tree));
        expected = ConditionJson::not(expected);
    }
    assert_eq!(json(tree), expected);
}

#[test]
fn clone_of_a_tree_maps_to_the_same_document() {
    let tree = ConditionTree::Operator(
        Operator::Or,
        vec![
            keyword("a"),
            ConditionTree::Not(Box::new(phrase("b c"))),
            ConditionTree::Empty,
            ConditionTree::Operator(Operator::And, Vec::new()),
        ],
    );
    let copy = tree.clone();
    assert_eq!(copy, tree);
    assert_eq!(json(copy), json(tree));
}
