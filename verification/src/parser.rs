//! Parsing a query text into a condition.
//!
//! The grammar of queries belongs to the `search_query_parser` crate. This
//! module calls it and brings what it returns into the library's own
//! [`ConditionTree`].

use vstd::prelude::*;
use crate::condition::{ConditionTree, QueryTree, Operator};

verus! {

/// `search_query_parser::Condition`, the parser's own tree. What it holds
/// is named by [`parsed_tree`].
#[verifier::external_type_specification]
#[verifier::external_body]
pub struct ExParsedCondition(search_query_parser::Condition);

/// What the parser makes of a query text: the tree that it parses the text
/// into, or `None` where it reports an error.
pub uninterp spec fn parsed_query(query: Seq<char>) -> Option<QueryTree>;

/// The tree that a condition of the parser's own type holds, variant for
/// variant, its `None` being [`QueryTree::Empty`].
pub uninterp spec fn parsed_tree(parsed: search_query_parser::Condition) -> QueryTree;

/// Why a query text could not be parsed.
#[derive(Debug, PartialEq, Eq)]
pub struct ParseError {
    /// The parser's own words.
    pub message: String,
}

/// `search_query_parser::parse_query_to_condition`. Taken on trust: the
/// parser works on the text alone, so the same text is always parsed into
/// the same tree or is always refused, and no text makes it panic. Which
/// tree a text is parsed into is the parser's matter and has a name only:
/// [`parsed_query`]. Nothing is said of the words of its error.
#[verifier::external_body]
fn parse_query_to_condition(query: &str) -> (outcome: Result<
    search_query_parser::Condition,
    String,
>)
    ensures
        match outcome {
            Ok(parsed) => parsed_query(query@) == Some(parsed_tree(parsed)),
            Err(_) => parsed_query(query@) is None,
        },
{
    match search_query_parser::parse_query_to_condition(query) {
        Ok(parsed) => Ok(parsed),
        Err(error) => Err(error.to_string()),
    }
}

/// Moves a `search_query_parser::Condition` into the library's type, variant
/// by variant and child by child. Taken on trust: the result stands for the
/// tree that the argument held.
#[verifier::external_body]
fn import_condition(parsed: search_query_parser::Condition) -> (condition: ConditionTree)
    ensures
        condition@ == parsed_tree(parsed),
{
    match parsed {
        search_query_parser::Condition::None => ConditionTree::Empty,
        search_query_parser::Condition::Keyword(text) => ConditionTree::Keyword(text),
        search_query_parser::Condition::PhraseKeyword(text) => ConditionTree::PhraseKeyword(text),
        search_query_parser::Condition::Not(inner) => ConditionTree::Not(
            Box::new(import_condition(*inner)),
        ),
        search_query_parser::Condition::Operator(search_query_parser::Operator::And, items) => {
            ConditionTree::Operator(Operator::And, items.into_iter().map(import_condition).collect())
        },
        search_query_parser::Condition::Operator(search_query_parser::Operator::Or, items) => {
            ConditionTree::Operator(Operator::Or, items.into_iter().map(import_condition).collect())
        },
    }
}

/// Parses a query text. The outcome is `Ok` with the tree that the parser
/// makes of the text, or `Err` where the parser refuses the text.
pub fn parse_query(query: &str) -> (outcome: Result<ConditionTree, ParseError>)
    ensures
        match outcome {
            Ok(condition) => parsed_query(query@) == Some(condition@),
            Err(_) => parsed_query(query@) is None,
        },
{
    match parse_query_to_condition(query) {
        Ok(parsed) => Ok(import_condition(parsed)),
        Err(message) => Err(ParseError { message }),
    }
}

} // verus!
