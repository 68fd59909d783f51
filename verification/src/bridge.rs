//! The answer to one query: the JSON text of its condition and, where the
//! query could not be parsed, a line that says so.

use vstd::prelude::*;
use crate::condition::{ConditionTree, Operator, QueryTree};
use crate::document::JsonDocument;
use crate::mapper::{
    document_of, documents_of, json, lemma_document_determines_tree, lemma_document_well_formed,
};
use crate::parser::{parse_query, parsed_query, ParseError};
use crate::readback::lemma_text_determines_document;
use crate::text::{
    array_text, document_text, document_texts, json_string_text, lemma_comma_joined_push,
    member_texts,
};

verus! {

/// What is handed back for one query.
#[derive(Debug, PartialEq, Eq)]
pub struct Reply {
    /// The JSON text of the query's condition.
    pub json: String,
    /// A line for the operator, present where the query could not be parsed.
    pub diagnostic: Option<String>,
}

/// The tree that a query is answered with: the tree that it was parsed into
/// or, where it could not be parsed, the whole query as one keyword.
pub open spec fn answered_tree(query: Seq<char>, parsed: Option<QueryTree>) -> QueryTree {
    match parsed {
        Some(tree) => tree,
        None => QueryTree::Keyword(query),
    }
}

/// The JSON text that a query is answered with.
pub open spec fn answer_text(query: Seq<char>, parsed: Option<QueryTree>) -> Seq<char> {
    document_text(document_of(answered_tree(query, parsed)))
}

/// The line that reports a query which could not be parsed: the parser's
/// words, then the query.
pub open spec fn diagnostic_text(message: Seq<char>, query: Seq<char>) -> Seq<char> {
    "ERROR: "@ + message + ": "@ + query
}

/// Writes the line that reports a query which could not be parsed.
pub fn diagnostic_line(message: &str, query: &str) -> (line: String)
    ensures
        line@ == diagnostic_text(message@, query@),
{
    let mut line = String::from_str("ERROR: ");
    line.append(message);
    line.append(": ");
    line.append(query);
    line
}

/// Answers `query`, given what the parser made of it. A parsed query is
/// answered with the document of its tree and no diagnostic. A query that
/// was refused is answered with the document of one keyword, the whole
/// query, and with the line that reports the refusal.
pub fn handle_outcome(query: String, outcome: Result<ConditionTree, ParseError>) -> (reply: Reply)
    ensures
        reply.json@ == answer_text(
            query@,
            match outcome {
                Ok(condition) => Some(condition@),
                Err(_) => None,
            },
        ),
        match outcome {
            Ok(_) => reply.diagnostic is None,
            Err(error) => reply.diagnostic matches Some(line) && line@ == diagnostic_text(
                error.message@,
                query@,
            ),
        },
{
    match outcome {
        Ok(condition) => Reply { json: json(condition).to_json_text(), diagnostic: None },
        Err(error) => {
            let line = diagnostic_line(error.message.as_str(), query.as_str());
            Reply {
                json: json(ConditionTree::Keyword(query)).to_json_text(),
                diagnostic: Some(line),
            }
        },
    }
}

/// Answers `query`: parses it and writes the JSON text of its condition. A
/// query that the parser refuses is not an error: it is answered as one
/// keyword, and the reply carries a diagnostic line.
pub fn handle(query: String) -> (reply: Reply)
    ensures
        reply.json@ == answer_text(query@, parsed_query(query@)),
        reply.diagnostic is Some <==> parsed_query(query@) is None,
        reply.diagnostic matches Some(line) ==> exists|message: Seq<char>|
            line@ == #[trigger] diagnostic_text(message, query@),
{
    let outcome = parse_query(query.as_str());
    handle_outcome(query, outcome)
}

/// A query that the parser refuses is answered with the JSON object whose
/// one member is `keyword`, and whose value is the whole query as a JSON
/// string.
pub proof fn lemma_refused_query_is_one_keyword(query: Seq<char>)
    ensures
        answer_text(query, None) == "{\"keyword\":"@ + json_string_text(query) + "}"@,
{
    reveal_strlit("{\"keyword\":");
    reveal_strlit("\"keyword\":");
    reveal_strlit("}");
}

/// The JSON array of three documents holds their three texts in their
/// order, with a comma between neighbours.
proof fn lemma_array_of_three(x: JsonDocument, y: JsonDocument, z: JsonDocument)
    ensures
        array_text(seq![x, y, z]) == seq!['['] + document_text(x) + seq![','] + document_text(y)
            + seq![','] + document_text(z) + seq![']'],
{
    let texts = seq![document_text(x)].push(document_text(y)).push(document_text(z));
    assert(document_texts(seq![x, y, z]) =~= texts);
    lemma_comma_joined_push(seq![document_text(x)], document_text(y));
    lemma_comma_joined_push(seq![document_text(x)].push(document_text(y)), document_text(z));
}

/// The JSON object of a node whose only field is `and`.
proof fn lemma_text_of_and(items: Seq<JsonDocument>)
    ensures
        document_text(JsonDocument::and(items)) == seq!['{'] + "\"and\":"@ + array_text(items)
            + seq!['}'],
{
    assert(member_texts(JsonDocument::and(items)) =~= seq!["\"and\":"@ + array_text(items)]);
}

/// The answer for a conjunction of three conditions is the JSON object whose
/// one member is `and`, and whose value is the array of the three answers in
/// the order of the conditions.
pub proof fn lemma_and_of_three_keeps_order(a: QueryTree, b: QueryTree, c: QueryTree)
    ensures
        document_text(document_of(QueryTree::Operator(Operator::And, seq![a, b, c])))
            == "{\"and\":["@ + document_text(document_of(a)) + ","@ + document_text(
            document_of(b),
        ) + ","@ + document_text(document_of(c)) + "]}"@,
{
    reveal_strlit("{\"and\":[");
    reveal_strlit("\"and\":");
    reveal_strlit(",");
    reveal_strlit("]}");
    let items = seq![document_of(a), document_of(b), document_of(c)];
    assert(documents_of(seq![a, b, c]) =~= items);
    lemma_array_of_three(document_of(a), document_of(b), document_of(c));
    lemma_text_of_and(items);
    assert(seq!['{'] + "\"and\":"@ + seq!['['] =~= "{\"and\":["@);
    assert(seq![']'] + seq!['}'] =~= "]}"@);
}

/// Two trees whose answers are the same text are the same tree: who reads
/// the text finds each node, each term and each list of children as the tree
/// had them.
pub proof fn lemma_answer_determines_tree(first: QueryTree, second: QueryTree)
    requires
        document_text(document_of(first)) == document_text(document_of(second)),
    ensures
        first == second,
{
    lemma_document_well_formed(first);
    lemma_document_well_formed(second);
    lemma_text_determines_document(document_of(first), document_of(second));
    lemma_document_determines_tree(first, second);
}

} // verus!
