//! The JSON text of a document.
//!
//! A node is written as a JSON object that holds the fields which are
//! present, under their JSON names and in the order of their declaration; a
//! field that is absent leaves no trace. Terms are written as JSON strings,
//! lists of documents as JSON arrays in their order. Nothing is written
//! between the tokens.

use vstd::prelude::*;
use crate::document::{documents, ConditionJson, JsonDocument};

verus! {

/// The lower-case hexadecimal digit for `n`, for `0 <= n < 16`.
pub open spec fn hex_digit(n: int) -> char {
    seq!['0', '1', '2', '3', '4', '5', '6', '7', '8', '9', 'a', 'b', 'c', 'd', 'e', 'f'][n]
}

/// How one character stands inside a JSON string: the quotation mark and the
/// backslash behind a backslash, the control characters below U+0020 by their
/// short escape where JSON has one and as `\u00xx` otherwise, every other
/// character as itself.
pub open spec fn escaped_char(c: char) -> Seq<char> {
    let code: int = c as u32 as int;
    if c == '"' {
        seq!['\\', '"']
    } else if c == '\\' {
        seq!['\\', '\\']
    } else if c == '\u{8}' {
        seq!['\\', 'b']
    } else if c == '\t' {
        seq!['\\', 't']
    } else if c == '\n' {
        seq!['\\', 'n']
    } else if c == '\u{c}' {
        seq!['\\', 'f']
    } else if c == '\r' {
        seq!['\\', 'r']
    } else if code < 0x20 {
        seq!['\\', 'u', '0', '0', hex_digit(code / 16), hex_digit(code % 16)]
    } else {
        seq![c]
    }
}

/// The characters of `s`, each as it stands inside a JSON string.
pub open spec fn escaped_text(s: Seq<char>) -> Seq<char> {
    s.map_values(|c: char| escaped_char(c)).flatten()
}

/// The JSON string for `s`: its escaped characters between quotation marks.
pub open spec fn json_string_text(s: Seq<char>) -> Seq<char> {
    seq!['"'] + escaped_text(s) + seq!['"']
}

/// `parts` one after the other, with a comma between neighbours.
pub open spec fn comma_joined(parts: Seq<Seq<char>>) -> Seq<char>
    decreases parts.len(),
{
    if parts.len() == 0 {
        seq![]
    } else if parts.len() == 1 {
        parts[0]
    } else {
        comma_joined(parts.drop_last()) + seq![','] + parts.last()
    }
}

/// The JSON object of a node.
pub open spec fn document_text(document: JsonDocument) -> Seq<char>
    decreases document, 1int,
{
    seq!['{'] + comma_joined(member_texts(document)) + seq!['}']
}

/// The members of a node's JSON object: one for each field that is present,
/// under the field's JSON name.
pub open spec fn member_texts(document: JsonDocument) -> Seq<Seq<char>>
    decreases document, 0int,
{
    string_member("\"keyword\":"@, document.keyword) + string_member(
        "\"phraseKeyword\":"@,
        document.phrase_keyword,
    ) + document_member("\"not\":"@, document.not) + array_member("\"and\":"@, document.and)
        + array_member("\"or\":"@, document.or)
}

/// The member for a field that holds a term: none if the field is absent,
/// else `name` and the term as a JSON string.
pub open spec fn string_member(name: Seq<char>, value: Option<Seq<char>>) -> Seq<Seq<char>> {
    match value {
        Some(text) => seq![name + json_string_text(text)],
        None => seq![],
    }
}

/// The member for a field that holds a document: none if the field is
/// absent, else `name` and the document's JSON object.
pub open spec fn document_member(name: Seq<char>, value: Option<Box<JsonDocument>>) -> Seq<
    Seq<char>,
>
    decreases value,
{
    match value {
        Some(inner) => seq![name + document_text(*inner)],
        None => seq![],
    }
}

/// The member for a field that holds a list of documents: none if the field
/// is absent, else `name` and the list's JSON array.
pub open spec fn array_member(name: Seq<char>, value: Option<Seq<JsonDocument>>) -> Seq<
    Seq<char>,
>
    decreases value,
{
    match value {
        Some(items) => seq![name + array_text(items)],
        None => seq![],
    }
}

/// The JSON array of a list of documents.
pub open spec fn array_text(items: Seq<JsonDocument>) -> Seq<char>
    decreases items, 1int,
{
    seq!['['] + comma_joined(document_texts(items)) + seq![']']
}

/// The JSON objects of a list of documents, one for one.
pub open spec fn document_texts(items: Seq<JsonDocument>) -> Seq<Seq<char>>
    decreases items, 0int,
{
    Seq::new(
        items.len(),
        |i: int|
            if 0 <= i < items.len() {
                document_text(items[i])
            } else {
                seq![]
            },
    )
}

/// What separates a value from the one before it in its list.
pub open spec fn separator(first: bool) -> Seq<char> {
    if first {
        seq![]
    } else {
        seq![',']
    }
}

/// `serde_json::Error`, of which nothing is known here.
#[verifier::external_type_specification]
#[verifier::external_body]
pub struct ExJsonError(serde_json::Error);

/// `serde_json::to_string`, called on a string slice. Two things are taken
/// on trust. The call returns `Ok`: it writes into a buffer in memory, and
/// serializing a string has no other way to fail. And the text it returns is
/// [`json_string_text`] of the slice: a quotation mark, the contents, a
/// quotation mark, where the contents are the slice with each byte that the
/// crate's escape table marks (the quotation mark, the backslash and the
/// bytes below 0x20) replaced by its escape and every other byte copied.
#[verifier::external_body]
fn json_string(value: &str) -> (quoted: Result<String, serde_json::Error>)
    ensures
        quoted is Ok,
        quoted->Ok_0@ == json_string_text(value@),
{
    serde_json::to_string(value)
}

/// Appends the JSON string for `value`.
fn write_string(value: &String, out: &mut String)
    ensures
        final(out)@ == old(out)@ + json_string_text(value@),
{
    match json_string(value.as_str()) {
        Ok(text) => out.append(text.as_str()),
        Err(_) => unreached(),
    }
}

/// Joining one more part adds its separator and the part.
pub proof fn lemma_comma_joined_push(parts: Seq<Seq<char>>, part: Seq<char>)
    ensures
        comma_joined(parts.push(part)) == comma_joined(parts) + separator(parts.len() == 0)
            + part,
{
    let longer = parts.push(part);
    assert(longer.drop_last() =~= parts);
}

/// Writing one more part behind its separator gives the joined text of the
/// longer list.
proof fn lemma_part_written(
    start: Seq<char>,
    parts: Seq<Seq<char>>,
    name: Seq<char>,
    value: Seq<char>,
)
    ensures
        start + comma_joined(parts) + separator(parts.len() == 0) + name + value == start
            + comma_joined(parts.push(name + value)),
{
    lemma_comma_joined_push(parts, name + value);
}

/// Appends what separates a value from the one before it in its list.
fn write_separator(first: bool, out: &mut String)
    ensures
        final(out)@ == old(out)@ + separator(first),
{
    proof {
        reveal_strlit(",");
    }
    if !first {
        out.append(",");
    }
}

/// Appends what stands before the value of a member: the separator, then
/// the member's name with its colon.
fn write_member_start(name: &str, first: bool, out: &mut String)
    ensures
        final(out)@ == old(out)@ + separator(first) + name@,
{
    write_separator(first, out);
    out.append(name);
}

/// If `value` is present, appends its member to the members written so far.
fn write_string_member(
    name: &str,
    value: &Option<String>,
    Ghost(start): Ghost<Seq<char>>,
    Ghost(written): Ghost<Seq<Seq<char>>>,
    first: bool,
    out: &mut String,
) -> (still_first: bool)
    requires
        first <==> written.len() == 0,
        old(out)@ == start + comma_joined(written),
    ensures
        final(out)@ == start + comma_joined(
            written + string_member(
                name@,
                match value {
                    Some(text) => Some(text@),
                    None => None,
                },
            ),
        ),
        still_first <==> first && value is None,
{
    match value {
        Some(text) => {
            write_member_start(name, first, out);
            write_string(text, out);
            proof {
                lemma_part_written(start, written, name@, json_string_text(text@));
                assert(written + seq![name@ + json_string_text(text@)] =~= written.push(
                    name@ + json_string_text(text@),
                ));
            }
            false
        },
        None => first,
    }
}

/// If `value` is present, appends its member to the members written so far.
fn write_document_member(
    name: &str,
    value: &Option<Box<ConditionJson>>,
    Ghost(start): Ghost<Seq<char>>,
    Ghost(written): Ghost<Seq<Seq<char>>>,
    first: bool,
    out: &mut String,
) -> (still_first: bool)
    requires
        first <==> written.len() == 0,
        old(out)@ == start + comma_joined(written),
    ensures
        final(out)@ == start + comma_joined(
            written + document_member(
                name@,
                match value {
                    Some(inner) => Some(Box::new(inner@)),
                    None => None,
                },
            ),
        ),
        still_first <==> first && value is None,
    decreases value, 0int,
{
    match value {
        Some(inner) => {
            write_member_start(name, first, out);
            write_document(inner, out);
            proof {
                lemma_part_written(start, written, name@, document_text(inner@));
                assert(written + seq![name@ + document_text(inner@)] =~= written.push(
                    name@ + document_text(inner@),
                ));
            }
            false
        },
        None => first,
    }
}

/// If `value` is present, appends its member to the members written so far.
fn write_array_member(
    name: &str,
    value: &Option<Vec<ConditionJson>>,
    Ghost(start): Ghost<Seq<char>>,
    Ghost(written): Ghost<Seq<Seq<char>>>,
    first: bool,
    out: &mut String,
) -> (still_first: bool)
    requires
        first <==> written.len() == 0,
        old(out)@ == start + comma_joined(written),
    ensures
        final(out)@ == start + comma_joined(
            written + array_member(
                name@,
                match value {
                    Some(items) => Some(documents(items@)),
                    None => None,
                },
            ),
        ),
        still_first <==> first && value is None,
    decreases value, 1int,
{
    match value {
        Some(items) => {
            write_member_start(name, first, out);
            write_array(items, out);
            proof {
                lemma_part_written(start, written, name@, array_text(documents(items@)));
                assert(written + seq![name@ + array_text(documents(items@))] =~= written.push(
                    name@ + array_text(documents(items@)),
                ));
            }
            false
        },
        None => first,
    }
}

/// Appends the JSON array of `items`.
fn write_array(items: &Vec<ConditionJson>, out: &mut String)
    ensures
        final(out)@ == old(out)@ + array_text(documents(items@)),
    decreases items, 0int,
{
    proof {
        reveal_strlit("[");
        reveal_strlit("]");
    }
    out.append("[");
    let ghost start = out@;
    let ghost texts = document_texts(documents(items@));
    let mut i: usize = 0;
    while i < items.len()
        invariant
            i <= items.len(),
            start == old(out)@ + seq!['['],
            texts == document_texts(documents(items@)),
            out@ == start + comma_joined(texts.take(i as int)),
        decreases items.len() - i,
    {
        write_separator(i == 0, out);
        write_document(&items[i], out);
        proof {
            lemma_comma_joined_push(texts.take(i as int), texts[i as int]);
            assert(texts.take(i as int).push(texts[i as int]) =~= texts.take(i + 1));
        }
        i += 1;
    }
    out.append("]");
    proof {
        assert(texts.take(items.len() as int) =~= texts);
    }
}

/// Appends the JSON object of `document`.
fn write_document(document: &ConditionJson, out: &mut String)
    ensures
        final(out)@ == old(out)@ + document_text(document@),
    decreases document, 0int,
{
    proof {
        reveal_strlit("{");
        reveal_strlit("}");
    }
    out.append("{");
    let ghost start = out@;
    let ghost model = document@;
    let ghost keyword = string_member("\"keyword\":"@, model.keyword);
    let ghost phrase_keyword = keyword + string_member("\"phraseKeyword\":"@, model.phrase_keyword);
    let ghost not = phrase_keyword + document_member("\"not\":"@, model.not);
    let ghost and = not + array_member("\"and\":"@, model.and);
    let first = write_string_member(
        "\"keyword\":",
        &document.keyword,
        Ghost(start),
        Ghost(Seq::empty()),
        true,
        out,
    );
    let first = write_string_member(
        "\"phraseKeyword\":",
        &document.phrase_keyword,
        Ghost(start),
        Ghost(keyword),
        first,
        out,
    );
    let first = write_document_member(
        "\"not\":",
        &document.not,
        Ghost(start),
        Ghost(phrase_keyword),
        first,
        out,
    );
    let first = write_array_member(
        "\"and\":",
        &document.and,
        Ghost(start),
        Ghost(not),
        first,
        out,
    );
    let _ = write_array_member("\"or\":", &document.or, Ghost(start), Ghost(and), first, out);
    out.append("}");
}

impl ConditionJson {
    /// The JSON text of this document.
    pub fn to_json_text(&self) -> (text: String)
        ensures
            text@ == document_text(self@),
    {
        let mut text = String::new();
        write_document(self, &mut text);
        text
    }
}

} // verus!
