//! The boolean condition tree that a search query is parsed into.

use vstd::prelude::*;

verus! {

/// How the children of an operator node are combined.
#[derive(Debug, Clone, Copy, PartialEq, Eq, Structural)]
pub enum Operator {
    And,
    Or,
}

/// A parsed search condition.
#[derive(Debug, PartialEq, Eq)]
pub enum ConditionTree {
    /// No condition at all: what is left of a query that holds no term.
    Empty,
    /// A single bare term.
    Keyword(String),
    /// A quoted term, matched as a unit.
    PhraseKeyword(String),
    /// The negation of one condition.
    Not(Box<ConditionTree>),
    /// Several conditions, in order, combined by one operator.
    Operator(Operator, Vec<ConditionTree>),
}

/// The mathematical value of a [`ConditionTree`]: texts are sequences of
/// characters, children are a sequence of trees.
#[verifier::ext_equal]
pub enum QueryTree {
    Empty,
    Keyword(Seq<char>),
    PhraseKeyword(Seq<char>),
    Not(Box<QueryTree>),
    Operator(Operator, Seq<QueryTree>),
}

impl QueryTree {
    /// No node of the tree is the empty condition: the tree is made of
    /// terms, negations and operators alone.
    pub open spec fn has_no_empty(self) -> bool
        decreases self,
    {
        match self {
            QueryTree::Empty => false,
            QueryTree::Keyword(_) => true,
            QueryTree::PhraseKeyword(_) => true,
            QueryTree::Not(inner) => inner.has_no_empty(),
            QueryTree::Operator(_, children) => forall|i: int|
                0 <= i < children.len() ==> (#[trigger] children[i]).has_no_empty(),
        }
    }
}

impl ConditionTree {
    /// The tree that this condition stands for.
    pub open spec fn tree(&self) -> QueryTree
        decreases self,
    {
        match self {
            ConditionTree::Empty => QueryTree::Empty,
            ConditionTree::Keyword(text) => QueryTree::Keyword(text@),
            ConditionTree::PhraseKeyword(text) => QueryTree::PhraseKeyword(text@),
            ConditionTree::Not(inner) => QueryTree::Not(Box::new(inner.tree())),
            ConditionTree::Operator(operator, children) => QueryTree::Operator(
                *operator,
                trees(children@),
            ),
        }
    }
}

/// The trees that a sequence of conditions stands for, one for one.
pub open spec fn trees(conditions: Seq<ConditionTree>) -> Seq<QueryTree>
    decreases conditions,
{
    Seq::new(
        conditions.len(),
        |i: int|
            if 0 <= i < conditions.len() {
                conditions[i].tree()
            } else {
                QueryTree::Empty
            },
    )
}

impl View for ConditionTree {
    type V = QueryTree;

    open spec fn view(&self) -> QueryTree {
        self.tree()
    }
}

impl Clone for ConditionTree {
    /// A copy that stands for the same tree.
    fn clone(&self) -> (copy: Self)
        ensures
            copy@ == self@,
        decreases self,
    {
        match self {
            ConditionTree::Empty => ConditionTree::Empty,
            ConditionTree::Keyword(text) => ConditionTree::Keyword(text.clone()),
            ConditionTree::PhraseKeyword(text) => ConditionTree::PhraseKeyword(text.clone()),
            ConditionTree::Not(inner) => ConditionTree::Not(Box::new((**inner).clone())),
            ConditionTree::Operator(operator, children) => {
                let mut copies: Vec<ConditionTree> = Vec::new();
                let mut i: usize = 0;
                while i < children.len()
                    invariant
                        i <= children.len(),
                        copies@.len() == i,
                        forall|j: int| 0 <= j < i ==> (#[trigger] copies@[j])@ == children@[j]@,
                        forall|j: int|
                            0 <= j < children.len() ==> decreases_to!(self => #[trigger] children@[j]),
                    decreases children.len() - i,
                {
                    copies.push(children[i].clone());
                    i += 1;
                }
                let copy = ConditionTree::Operator(*operator, copies);
                assert(trees(copies@) =~= trees(children@));
                copy
            },
        }
    }
}

} // verus!
