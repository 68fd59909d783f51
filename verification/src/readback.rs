//! A document can be read back from its JSON text in one way only.
//!
//! The text of a well-formed document is a code without ambiguity: whatever
//! follows it, no other well-formed document has a text that fits the same
//! characters. So a reader that is given the text, even in the middle of a
//! longer one, finds the document that was written and no other.

use vstd::prelude::*;
use crate::document::JsonDocument;
use crate::text::{
    array_text, comma_joined, document_text, document_texts, escaped_char, escaped_text,
    hex_digit, json_string_text, lemma_comma_joined_push, separator,
};

verus! {

/// Two texts that begin alike and are equal end alike.
proof fn lemma_same_start(start: Seq<char>, x: Seq<char>, y: Seq<char>)
    requires
        start + x == start + y,
    ensures
        x == y,
{
    assert(y =~= (start + y).subrange(start.len() as int, (start + y).len() as int));
}

/// Different numbers below sixteen have different digits.
proof fn lemma_hex_digit_read_back(m: int, n: int)
    requires
        0 <= m < 16,
        0 <= n < 16,
        hex_digit(m) == hex_digit(n),
    ensures
        m == n,
{
}

/// The escape of a character tells which character it was made of, whatever
/// follows it.
proof fn lemma_escaped_char_read_back(c1: char, r1: Seq<char>, c2: char, r2: Seq<char>)
    requires
        escaped_char(c1) + r1 == escaped_char(c2) + r2,
    ensures
        c1 == c2,
        r1 == r2,
{
    let text = escaped_char(c1) + r1;
    let e1 = escaped_char(c1);
    let e2 = escaped_char(c2);
    assert(text[0] == e1[0] && text[0] == e2[0]);
    if e1[0] == '\\' {
        assert(text[1] == e1[1] && text[1] == e2[1]);
        if e1[1] == 'u' {
            assert(text[4] == e1[4] && text[4] == e2[4]);
            assert(text[5] == e1[5] && text[5] == e2[5]);
            let n1: int = c1 as u32 as int;
            let n2: int = c2 as u32 as int;
            lemma_hex_digit_read_back(n1 / 16, n2 / 16);
            lemma_hex_digit_read_back(n1 % 16, n2 % 16);
        }
    }
    lemma_same_start(e1, r1, r2);
}

/// The escaped text of a string, character by character from the front.
proof fn lemma_escaped_text_unfold(s: Seq<char>)
    ensures
        s.len() == 0 ==> escaped_text(s) == Seq::<char>::empty(),
        s.len() > 0 ==> escaped_text(s) == escaped_char(s[0]) + escaped_text(s.drop_first()),
{
    let escapes = s.map_values(|c: char| escaped_char(c));
    if s.len() > 0 {
        assert(escapes.drop_first() =~= s.drop_first().map_values(|c: char| escaped_char(c)));
    }
}

/// The escaped text of a string ends where the first quotation mark stands
/// that no backslash escapes, and it tells which string it was made of.
proof fn lemma_escaped_text_read_back(s1: Seq<char>, r1: Seq<char>, s2: Seq<char>, r2: Seq<char>)
    requires
        escaped_text(s1) + seq!['"'] + r1 == escaped_text(s2) + seq!['"'] + r2,
    ensures
        s1 == s2,
        r1 == r2,
    decreases s1.len(),
{
    lemma_escaped_text_unfold(s1);
    lemma_escaped_text_unfold(s2);
    let text = escaped_text(s1) + seq!['"'] + r1;
    if s1.len() == 0 {
        if s2.len() > 0 {
            assert(text[0] == escaped_char(s2[0])[0]);
        }
        lemma_same_start(seq!['"'], r1, r2);
    } else {
        if s2.len() == 0 {
            assert(text[0] == '"');
        }
        let rest1 = escaped_text(s1.drop_first()) + seq!['"'] + r1;
        let rest2 = escaped_text(s2.drop_first()) + seq!['"'] + r2;
        assert(escaped_char(s1[0]) + rest1 =~= text);
        assert(escaped_char(s2[0]) + rest2 =~= text);
        lemma_escaped_char_read_back(s1[0], rest1, s2[0], rest2);
        lemma_escaped_text_read_back(s1.drop_first(), r1, s2.drop_first(), r2);
        assert(s2 =~= seq![s2[0]] + s2.drop_first());
    }
}

/// A JSON string tells which string it was made of, whatever follows it.
pub proof fn lemma_json_string_read_back(
    s1: Seq<char>,
    r1: Seq<char>,
    s2: Seq<char>,
    r2: Seq<char>,
)
    requires
        json_string_text(s1) + r1 == json_string_text(s2) + r2,
    ensures
        s1 == s2,
        r1 == r2,
{
    let rest1 = escaped_text(s1) + seq!['"'] + r1;
    let rest2 = escaped_text(s2) + seq!['"'] + r2;
    assert(seq!['"'] + rest1 =~= json_string_text(s1) + r1);
    assert(seq!['"'] + rest2 =~= json_string_text(s2) + r2);
    lemma_same_start(seq!['"'], rest1, rest2);
    lemma_escaped_text_read_back(s1, r1, s2, r2);
}

/// What is left of the JSON array of `items` once the bracket that opens it
/// and the items before `from` have been read.
spec fn array_rest(items: Seq<JsonDocument>, from: int) -> Seq<char>
    decreases items.len() - from,
{
    if from >= items.len() {
        seq![']']
    } else {
        separator(from == 0) + document_text(items[from]) + array_rest(items, from + 1)
    }
}

/// The items up to `from`, joined, and what is left of the array behind them
/// make up the array without the bracket that opens it.
proof fn lemma_array_rest_joins(items: Seq<JsonDocument>, from: int)
    requires
        0 <= from <= items.len(),
    ensures
        comma_joined(document_texts(items).take(from)) + array_rest(items, from) == comma_joined(
            document_texts(items),
        ) + seq![']'],
    decreases items.len() - from,
{
    let texts = document_texts(items);
    if from == items.len() {
        assert(texts.take(from) =~= texts);
    } else {
        lemma_array_rest_joins(items, from + 1);
        lemma_comma_joined_push(texts.take(from), texts[from]);
        assert(texts.take(from).push(texts[from]) =~= texts.take(from + 1));
    }
}

/// A JSON array is its opening bracket and then its items from the first.
proof fn lemma_array_text_from_front(items: Seq<JsonDocument>)
    ensures
        array_text(items) == seq!['['] + array_rest(items, 0),
{
    lemma_array_rest_joins(items, 0);
}

/// The JSON name, with its colon, of the first field that a node has: empty
/// if it has none.
spec fn member_name(document: JsonDocument) -> Seq<char> {
    if document.keyword is Some {
        "\"keyword\":"@
    } else if document.phrase_keyword is Some {
        "\"phraseKeyword\":"@
    } else if document.not is Some {
        "\"not\":"@
    } else if document.and is Some {
        "\"and\":"@
    } else if document.or is Some {
        "\"or\":"@
    } else {
        seq![]
    }
}

/// The JSON value of the first field that a node has: empty if it has none.
spec fn member_value(document: JsonDocument) -> Seq<char> {
    if let Some(value) = document.keyword {
        json_string_text(value)
    } else if let Some(value) = document.phrase_keyword {
        json_string_text(value)
    } else if let Some(value) = document.not {
        document_text(*value)
    } else if let Some(value) = document.and {
        array_text(value)
    } else if let Some(value) = document.or {
        array_text(value)
    } else {
        seq![]
    }
}

/// The JSON object of a node with at most one field holds that field's
/// member and no comma.
proof fn lemma_text_of_single_field(document: JsonDocument)
    requires
        document.populated() <= 1,
    ensures
        document_text(document) == seq!['{'] + member_name(document) + member_value(document)
            + seq!['}'],
{
}

/// How the text of a node with at most one field begins: with a brace and,
/// unless the node is empty, with the name of its field, whose second
/// character is a letter that no other field's name has there.
proof fn lemma_text_start(document: JsonDocument, rest: Seq<char>)
    requires
        document.populated() <= 1,
    ensures
        ({
            let text = document_text(document) + rest;
            &&& text == seq!['{'] + member_name(document) + (member_value(document) + (seq!['}']
                + rest))
            &&& text.len() >= 2
            &&& text[0] == '{'
            &&& document.populated() == 0 ==> text[1] == '}'
            &&& document.populated() == 1 ==> text.len() >= 3 && text[1] == '"'
            &&& document.keyword is Some ==> text[2] == 'k'
            &&& document.phrase_keyword is Some ==> text[2] == 'p'
            &&& document.not is Some ==> text[2] == 'n'
            &&& document.and is Some ==> text[2] == 'a'
            &&& document.or is Some ==> text[2] == 'o'
        }),
{
    reveal_strlit("\"keyword\":");
    reveal_strlit("\"phraseKeyword\":");
    reveal_strlit("\"not\":");
    reveal_strlit("\"and\":");
    reveal_strlit("\"or\":");
    lemma_text_of_single_field(document);
}

/// The text of a well-formed document tells which document it was made of,
/// whatever follows it.
pub proof fn lemma_document_read_back(
    d1: JsonDocument,
    r1: Seq<char>,
    d2: JsonDocument,
    r2: Seq<char>,
)
    requires
        d1.well_formed(),
        d2.well_formed(),
        document_text(d1) + r1 == document_text(d2) + r2,
    ensures
        d1 == d2,
        r1 == r2,
    decreases d1, 0int,
{
    // The second and third characters tell which field the node has, so both
    // documents have the same one, or none.
    lemma_text_start(d1, r1);
    lemma_text_start(d2, r2);
    let end1 = seq!['}'] + r1;
    let end2 = seq!['}'] + r2;
    lemma_same_start(
        seq!['{'] + member_name(d1),
        member_value(d1) + end1,
        member_value(d2) + end2,
    );
    if d1.keyword is Some {
        lemma_json_string_read_back(d1.keyword->0, end1, d2.keyword->0, end2);
    } else if d1.phrase_keyword is Some {
        lemma_json_string_read_back(d1.phrase_keyword->0, end1, d2.phrase_keyword->0, end2);
    } else if d1.not is Some {
        lemma_document_read_back(*d1.not->0, end1, *d2.not->0, end2);
    } else if d1.and is Some {
        lemma_array_read_back(d1.and->0, end1, d2.and->0, end2);
    } else if d1.or is Some {
        lemma_array_read_back(d1.or->0, end1, d2.or->0, end2);
    }
    lemma_same_start(seq!['}'], r1, r2);
}

/// The JSON array of well-formed documents tells which documents it was made
/// of, whatever follows it.
pub proof fn lemma_array_read_back(
    x: Seq<JsonDocument>,
    r1: Seq<char>,
    y: Seq<JsonDocument>,
    r2: Seq<char>,
)
    requires
        forall|i: int| 0 <= i < x.len() ==> (#[trigger] x[i]).well_formed(),
        forall|i: int| 0 <= i < y.len() ==> (#[trigger] y[i]).well_formed(),
        array_text(x) + r1 == array_text(y) + r2,
    ensures
        x == y,
        r1 == r2,
    decreases x, x.len() + 1,
{
    lemma_array_text_from_front(x);
    lemma_array_text_from_front(y);
    assert(seq!['['] + (array_rest(x, 0) + r1) =~= array_text(x) + r1);
    assert(seq!['['] + (array_rest(y, 0) + r2) =~= array_text(y) + r2);
    lemma_same_start(seq!['['], array_rest(x, 0) + r1, array_rest(y, 0) + r2);
    lemma_array_rest_read_back(x, r1, y, r2, 0);
}

/// How the rest of a JSON array begins: with the closing bracket where no
/// item is left, else with the next item behind its separator.
proof fn lemma_array_rest_start(items: Seq<JsonDocument>, from: int, rest: Seq<char>)
    requires
        0 <= from <= items.len(),
    ensures
        ({
            let text = array_rest(items, from) + rest;
            &&& text.len() >= 1
            &&& from == items.len() ==> text[0] == ']' && text == seq![']'] + rest
            &&& from < items.len() ==> text[0] != ']' && text == separator(from == 0) + (
            document_text(items[from]) + (array_rest(items, from + 1) + rest))
        }),
{
}

/// What is left of a JSON array behind its first `from` items tells which
/// items are still to come.
proof fn lemma_array_rest_read_back(
    x: Seq<JsonDocument>,
    r1: Seq<char>,
    y: Seq<JsonDocument>,
    r2: Seq<char>,
    from: int,
)
    requires
        0 <= from <= x.len(),
        from <= y.len(),
        forall|i: int| 0 <= i < x.len() ==> (#[trigger] x[i]).well_formed(),
        forall|i: int| 0 <= i < y.len() ==> (#[trigger] y[i]).well_formed(),
        array_rest(x, from) + r1 == array_rest(y, from) + r2,
    ensures
        x.len() == y.len(),
        forall|i: int| from <= i < x.len() ==> x[i] == y[i],
        r1 == r2,
    decreases x, x.len() - from,
{
    lemma_array_rest_start(x, from, r1);
    lemma_array_rest_start(y, from, r2);
    if from < x.len() {
        let next1 = array_rest(x, from + 1) + r1;
        let next2 = array_rest(y, from + 1) + r2;
        lemma_same_start(
            separator(from == 0),
            document_text(x[from]) + next1,
            document_text(y[from]) + next2,
        );
        lemma_document_read_back(x[from], next1, y[from], next2);
        lemma_array_rest_read_back(x, r1, y, r2, from + 1);
    } else {
        lemma_same_start(seq![']'], r1, r2);
    }
}

/// Two well-formed documents with the same JSON text are the same document:
/// the text holds every field, every term character by character and every
/// list in its order.
pub proof fn lemma_text_determines_document(d1: JsonDocument, d2: JsonDocument)
    requires
        d1.well_formed(),
        d2.well_formed(),
        document_text(d1) == document_text(d2),
    ensures
        d1 == d2,
{
    lemma_document_read_back(d1, Seq::empty(), d2, Seq::empty());
}

/// The document that is read from a text: the well-formed document that the
/// text is the JSON text of. Where the text is that of no well-formed
/// document, nothing is said of what is read.
pub open spec fn document_read_from(text: Seq<char>) -> JsonDocument {
    choose|document: JsonDocument| document.well_formed() && document_text(document) == text
}

/// Reading the text of a well-formed document gives the document back.
pub proof fn lemma_document_reads_back(document: JsonDocument)
    requires
        document.well_formed(),
    ensures
        document_read_from(document_text(document)) == document,
{
    let read = document_read_from(document_text(document));
    lemma_text_determines_document(read, document);
}

} // verus!
