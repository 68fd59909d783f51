//! The mapping from a condition tree to its JSON document.

use vstd::prelude::*;
use crate::condition::{trees, ConditionTree, Operator, QueryTree};
use crate::document::{documents, ConditionJson, JsonDocument};

verus! {

/// The document of a condition tree, node by node: a term becomes the field
/// of its kind, a negation wraps the document of what it negates, an operator
/// lists the documents of its children in their order, and the empty
/// condition becomes the document with no field.
pub open spec fn document_of(tree: QueryTree) -> JsonDocument
    decreases tree,
{
    match tree {
        QueryTree::Keyword(text) => JsonDocument::keyword(text),
        QueryTree::PhraseKeyword(text) => JsonDocument::phrase_keyword(text),
        QueryTree::Not(inner) => JsonDocument::not(document_of(*inner)),
        QueryTree::Operator(Operator::And, children) => JsonDocument::and(
            documents_of(children),
        ),
        QueryTree::Operator(Operator::Or, children) => JsonDocument::or(
            documents_of(children),
        ),
        QueryTree::Empty => JsonDocument::none(),
    }
}

/// The documents of a sequence of trees, one for one and in the same order.
pub open spec fn documents_of(trees: Seq<QueryTree>) -> Seq<JsonDocument>
    decreases trees,
{
    Seq::new(
        trees.len(),
        |i: int|
            if 0 <= i < trees.len() {
                document_of(trees[i])
            } else {
                JsonDocument::none()
            },
    )
}

/// The document of a tree never has two fields at one node. Where no node of
/// the tree is the empty condition, every node of the document has exactly
/// one field.
pub proof fn lemma_document_well_formed(tree: QueryTree)
    ensures
        document_of(tree).well_formed(),
        tree.has_no_empty() ==> document_of(tree).one_field_per_node(),
    decreases tree,
{
    match tree {
        QueryTree::Not(inner) => {
            lemma_document_well_formed(*inner);
        },
        QueryTree::Operator(operator, children) => {
            let items = documents_of(children);
            assert forall|i: int| 0 <= i < items.len() implies (#[trigger] items[i]).well_formed()
                && (tree.has_no_empty() ==> items[i].one_field_per_node()) by {
                lemma_document_well_formed(children[i]);
            }
            match operator {
                Operator::And => assert(document_of(tree).and == Some(items)),
                Operator::Or => assert(document_of(tree).or == Some(items)),
            }
        },
        _ => {},
    }
}

/// An operator's document lists the documents of the operator's children:
/// as many as there are children, and each at its child's place.
pub proof fn lemma_operator_keeps_order(operator: Operator, children: Seq<QueryTree>)
    ensures
        document_of(QueryTree::Operator(operator, children)) == match operator {
            Operator::And => JsonDocument::and(documents_of(children)),
            Operator::Or => JsonDocument::or(documents_of(children)),
        },
        documents_of(children).len() == children.len(),
        forall|i: int|
            0 <= i < children.len() ==> #[trigger] documents_of(children)[i] == document_of(
                children[i],
            ),
{
}

/// The mapping loses nothing: trees with the same document are the same
/// tree.
pub proof fn lemma_document_determines_tree(first: QueryTree, second: QueryTree)
    requires
        document_of(first) == document_of(second),
    ensures
        first == second,
    decreases first,
{
    match (first, second) {
        (QueryTree::Not(inner1), QueryTree::Not(inner2)) => {
            lemma_document_determines_tree(*inner1, *inner2);
        },
        (QueryTree::Operator(_, children1), QueryTree::Operator(_, children2)) => {
            assert(documents_of(children1) == documents_of(children2));
            assert forall|i: int| 0 <= i < children1.len() implies children1[i] == children2[i] by {
                assert(documents_of(children1)[i] == documents_of(children2)[i]);
                lemma_document_determines_tree(children1[i], children2[i]);
            }
            assert(children1 =~= children2);
        },
        _ => {},
    }
}

/// Maps a condition onto its JSON document.
pub fn json(condition: ConditionTree) -> (document: ConditionJson)
    ensures
        document@ == document_of(condition@),
        document@.well_formed(),
        condition@.has_no_empty() ==> document@.one_field_per_node(),
    decreases condition,
{
    proof {
        lemma_document_well_formed(condition@);
    }
    match condition {
        ConditionTree::Keyword(value) => ConditionJson::keyword(value),
        ConditionTree::PhraseKeyword(value) => ConditionJson::phrase_keyword(value),
        ConditionTree::Not(value) => ConditionJson::not(json(*value)),
        ConditionTree::Operator(operator, value) => {
            let ghost children = value@;
            let mut mapped: Vec<ConditionJson> = Vec::new();
            for child in iter: value
                invariant
                    iter.seq() == children,
                    mapped@.len() == iter.index(),
                    forall|j: int|
                        0 <= j < iter.index() ==> (#[trigger] mapped@[j])@ == document_of(
                            children[j]@,
                        ),
                    forall|j: int|
                        0 <= j < children.len() ==> decreases_to!(condition => #[trigger] children[j]),
            {
                mapped.push(json(child));
            }
            assert(documents(mapped@) =~= documents_of(trees(children)));
            match operator {
                Operator::And => ConditionJson::and(mapped),
                Operator::Or => ConditionJson::or(mapped),
            }
        },
        ConditionTree::Empty => ConditionJson::none(),
    }
}

} // verus!
