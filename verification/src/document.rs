//! The JSON document that a condition is written out as.

use vstd::prelude::*;

verus! {

/// One node of the JSON document. A field that is `None` is left out of the
/// JSON text; a node with no field at all stands for "no condition".
#[derive(Debug, PartialEq, Eq)]
pub struct ConditionJson {
    pub keyword: Option<String>,
    pub phrase_keyword: Option<String>,
    pub not: Option<Box<ConditionJson>>,
    pub and: Option<Vec<ConditionJson>>,
    pub or: Option<Vec<ConditionJson>>,
}

/// The mathematical value of a [`ConditionJson`].
#[verifier::ext_equal]
pub struct JsonDocument {
    pub keyword: Option<Seq<char>>,
    pub phrase_keyword: Option<Seq<char>>,
    pub not: Option<Box<JsonDocument>>,
    pub and: Option<Seq<JsonDocument>>,
    pub or: Option<Seq<JsonDocument>>,
}

impl JsonDocument {
    /// The document with no field.
    pub open spec fn none() -> JsonDocument {
        JsonDocument { keyword: None, phrase_keyword: None, not: None, and: None, or: None }
    }

    /// The document whose only field is `keyword`.
    pub open spec fn keyword(value: Seq<char>) -> JsonDocument {
        JsonDocument { keyword: Some(value), ..JsonDocument::none() }
    }

    /// The document whose only field is `phrase_keyword`.
    pub open spec fn phrase_keyword(value: Seq<char>) -> JsonDocument {
        JsonDocument { phrase_keyword: Some(value), ..JsonDocument::none() }
    }

    /// The document whose only field is `not`.
    pub open spec fn not(value: JsonDocument) -> JsonDocument {
        JsonDocument { not: Some(Box::new(value)), ..JsonDocument::none() }
    }

    /// The document whose only field is `and`.
    pub open spec fn and(value: Seq<JsonDocument>) -> JsonDocument {
        JsonDocument { and: Some(value), ..JsonDocument::none() }
    }

    /// The document whose only field is `or`.
    pub open spec fn or(value: Seq<JsonDocument>) -> JsonDocument {
        JsonDocument { or: Some(value), ..JsonDocument::none() }
    }

    /// How many of the five fields of this node are present.
    pub open spec fn populated(self) -> nat {
        let keyword: nat = if self.keyword is Some { 1 } else { 0 };
        let phrase_keyword: nat = if self.phrase_keyword is Some { 1 } else { 0 };
        let not: nat = if self.not is Some { 1 } else { 0 };
        let and: nat = if self.and is Some { 1 } else { 0 };
        let or: nat = if self.or is Some { 1 } else { 0 };
        keyword + phrase_keyword + not + and + or
    }

    /// The fields exclude each other: no node of the document has more than
    /// one of them.
    pub open spec fn well_formed(self) -> bool
        decreases self,
    {
        &&& self.populated() <= 1
        &&& match self.not {
            Some(inner) => inner.well_formed(),
            None => true,
        }
        &&& match self.and {
            Some(items) => forall|i: int| 0 <= i < items.len() ==> (#[trigger] items[i]).well_formed(),
            None => true,
        }
        &&& match self.or {
            Some(items) => forall|i: int| 0 <= i < items.len() ==> (#[trigger] items[i]).well_formed(),
            None => true,
        }
    }
}

impl JsonDocument {
    /// Every node of the document has exactly one field.
    pub open spec fn one_field_per_node(self) -> bool
        decreases self,
    {
        &&& self.populated() == 1
        &&& match self.not {
            Some(inner) => inner.one_field_per_node(),
            None => true,
        }
        &&& match self.and {
            Some(items) => forall|i: int|
                0 <= i < items.len() ==> (#[trigger] items[i]).one_field_per_node(),
            None => true,
        }
        &&& match self.or {
            Some(items) => forall|i: int|
                0 <= i < items.len() ==> (#[trigger] items[i]).one_field_per_node(),
            None => true,
        }
    }
}

impl ConditionJson {
    /// The document that this value stands for.
    pub open spec fn document(&self) -> JsonDocument
        decreases self,
    {
        JsonDocument {
            keyword: match self.keyword {
                Some(text) => Some(text@),
                None => None,
            },
            phrase_keyword: match self.phrase_keyword {
                Some(text) => Some(text@),
                None => None,
            },
            not: match self.not {
                Some(inner) => Some(Box::new(inner.document())),
                None => None,
            },
            and: match self.and {
                Some(items) => Some(documents(items@)),
                None => None,
            },
            or: match self.or {
                Some(items) => Some(documents(items@)),
                None => None,
            },
        }
    }
}

/// The documents that a sequence of values stands for, one for one.
pub open spec fn documents(items: Seq<ConditionJson>) -> Seq<JsonDocument>
    decreases items,
{
    Seq::new(
        items.len(),
        |i: int|
            if 0 <= i < items.len() {
                items[i].document()
            } else {
                JsonDocument::none()
            },
    )
}

impl View for ConditionJson {
    type V = JsonDocument;

    open spec fn view(&self) -> JsonDocument {
        self.document()
    }
}

impl ConditionJson {
    /// The document with no field: "no condition that can be written".
    pub fn none() -> (document: Self)
        ensures
            document@ == JsonDocument::none(),
    {
        Self { keyword: None, phrase_keyword: None, not: None, and: None, or: None }
    }

    /// A bare term.
    pub fn keyword(value: String) -> (document: Self)
        ensures
            document@ == JsonDocument::keyword(value@),
    {
        Self { keyword: Some(value), phrase_keyword: None, not: None, and: None, or: None }
    }

    /// A quoted term.
    pub fn phrase_keyword(value: String) -> (document: Self)
        ensures
            document@ == JsonDocument::phrase_keyword(value@),
    {
        Self { keyword: None, phrase_keyword: Some(value), not: None, and: None, or: None }
    }

    /// The negation of `value`.
    pub fn not(value: ConditionJson) -> (document: Self)
        ensures
            document@ == JsonDocument::not(value@),
    {
        Self { keyword: None, phrase_keyword: None, not: Some(Box::new(value)), and: None, or: None }
    }

    /// All of `value`, in the order given.
    pub fn and(value: Vec<ConditionJson>) -> (document: Self)
        ensures
            document@ == JsonDocument::and(documents(value@)),
    {
        Self { keyword: None, phrase_keyword: None, not: None, and: Some(value), or: None }
    }

    /// Any of `value`, in the order given.
    pub fn or(value: Vec<ConditionJson>) -> (document: Self)
        ensures
            document@ == JsonDocument::or(documents(value@)),
    {
        Self { keyword: None, phrase_keyword: None, not: None, and: None, or: Some(value) }
    }
}

impl Clone for ConditionJson {
    /// A copy that stands for the same document.
    fn clone(&self) -> (copy: Self)
        ensures
            copy@ == self@,
        decreases self,
    {
        let keyword = match &self.keyword {
            Some(text) => Some(text.clone()),
            None => None,
        };
        let phrase_keyword = match &self.phrase_keyword {
            Some(text) => Some(text.clone()),
            None => None,
        };
        let not = match &self.not {
            Some(inner) => Some(Box::new((**inner).clone())),
            None => None,
        };
        let and = match &self.and {
            Some(items) => Some(clone_all(items)),
            None => None,
        };
        let or = match &self.or {
            Some(items) => Some(clone_all(items)),
            None => None,
        };
        ConditionJson { keyword, phrase_keyword, not, and, or }
    }
}

/// Copies of `items`, one for one.
fn clone_all(items: &Vec<ConditionJson>) -> (copies: Vec<ConditionJson>)
    ensures
        documents(copies@) == documents(items@),
    decreases items,
{
    let mut copies: Vec<ConditionJson> = Vec::new();
    let mut i: usize = 0;
    while i < items.len()
        invariant
            i <= items.len(),
            copies@.len() == i,
            forall|j: int| 0 <= j < i ==> (#[trigger] copies@[j])@ == items@[j]@,
        decreases items.len() - i,
    {
        copies.push(items[i].clone());
        i += 1;
    }
    copies
}

} // verus!
