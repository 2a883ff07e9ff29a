//! A sibling variant of the condition tree whose evaluator is an inherent
//! method rather than an implementation of the [`crate::Condition`] trait.

use crate::sexp::{head_of, Sexp, SexpTree, ToSexp};
use crate::{Expression, ExpressionError};
use vstd::prelude::*;

verus! {

/// A condition evaluates to either `true` or `false`.
///
/// An immutable tree of boolean literals, comparisons between two
/// expressions, and boolean connectives over sub-conditions. Every node owns
/// its children outright, so a tree is finite and acyclic by construction.
/// No validation happens at construction: a condition referencing an
/// out-of-range variable slot only fails when evaluated.
#[derive(Debug)]
pub enum Condition<E: Expression> {
    True,
    False,
    Not(Box<Condition<E>>),
    And(Box<Condition<E>>, Box<Condition<E>>),
    Or(Box<Condition<E>>, Box<Condition<E>>),
    /// If two expressions are equal
    Equal(Box<E>, Box<E>),
    Less(Box<E>, Box<E>),
    Greater(Box<E>, Box<E>),
    LessEqual(Box<E>, Box<E>),
    GreaterEqual(Box<E>, Box<E>),
}

impl<E: Expression + Clone> Clone for Condition<E> {
    /// Clones the tree node for node; what a cloned expression leaf holds is
    /// up to `E::clone`.
    fn clone(&self) -> Self
        decreases self,
    {
        match self {
            Condition::True => Condition::True,
            Condition::False => Condition::False,
            Condition::Not(c) => Condition::Not(Box::new((**c).clone())),
            Condition::And(c1, c2) => Condition::And(Box::new((**c1).clone()), Box::new((**c2).clone())),
            Condition::Or(c1, c2) => Condition::Or(Box::new((**c1).clone()), Box::new((**c2).clone())),
            Condition::Equal(e1, e2) => Condition::Equal(Box::new((**e1).clone()), Box::new((**e2).clone())),
            Condition::Less(e1, e2) => Condition::Less(Box::new((**e1).clone()), Box::new((**e2).clone())),
            Condition::Greater(e1, e2) => Condition::Greater(
                Box::new((**e1).clone()),
                Box::new((**e2).clone()),
            ),
            Condition::LessEqual(e1, e2) => Condition::LessEqual(
                Box::new((**e1).clone()),
                Box::new((**e2).clone()),
            ),
            Condition::GreaterEqual(e1, e2) => Condition::GreaterEqual(
                Box::new((**e1).clone()),
                Box::new((**e2).clone()),
            ),
        }
    }
}

impl<E: Expression> Condition<E> {
    /// The result of evaluating the condition under a binding: the boolean
    /// value of the formula, or the first error met in left-to-right,
    /// depth-first order. Both operands of a connective or comparison are
    /// always evaluated; only errors cut evaluation short, never a boolean
    /// value, and the left operand's error wins over the right one's.
    pub open spec fn spec_evaluate(&self, variables: Seq<E::Element>) -> Result<
        bool,
        ExpressionError,
    >
        decreases self,
    {
        match self {
            Condition::True => Ok(true),
            Condition::False => Ok(false),
            Condition::Not(c) => match c.spec_evaluate(variables) {
                Ok(b) => Ok(!b),
                Err(e) => Err(e),
            },
            Condition::And(c1, c2) => match (c1.spec_evaluate(variables), c2.spec_evaluate(variables)) {
                (Err(e), _) => Err(e),
                (_, Err(e)) => Err(e),
                (Ok(b1), Ok(b2)) => Ok(b1 && b2),
            },
            Condition::Or(c1, c2) => match (c1.spec_evaluate(variables), c2.spec_evaluate(variables)) {
                (Err(e), _) => Err(e),
                (_, Err(e)) => Err(e),
                (Ok(b1), Ok(b2)) => Ok(b1 || b2),
            },
            Condition::Equal(e1, e2) => match (e1.spec_evaluate(variables), e2.spec_evaluate(variables)) {
                (Err(e), _) => Err(e),
                (_, Err(e)) => Err(e),
                (Ok(a), Ok(b)) => Ok(E::elem_eq(a, b)),
            },
            Condition::Less(e1, e2) => match (e1.spec_evaluate(variables), e2.spec_evaluate(variables)) {
                (Err(e), _) => Err(e),
                (_, Err(e)) => Err(e),
                (Ok(a), Ok(b)) => Ok(E::elem_lt(a, b)),
            },
            Condition::Greater(e1, e2) => match (
                e1.spec_evaluate(variables),
                e2.spec_evaluate(variables),
            ) {
                (Err(e), _) => Err(e),
                (_, Err(e)) => Err(e),
                (Ok(a), Ok(b)) => Ok(E::elem_gt(a, b)),
            },
            Condition::LessEqual(e1, e2) => match (
                e1.spec_evaluate(variables),
                e2.spec_evaluate(variables),
            ) {
                (Err(e), _) => Err(e),
                (_, Err(e)) => Err(e),
                (Ok(a), Ok(b)) => Ok(E::elem_le(a, b)),
            },
            Condition::GreaterEqual(e1, e2) => match (
                e1.spec_evaluate(variables),
                e2.spec_evaluate(variables),
            ) {
                (Err(e), _) => Err(e),
                (_, Err(e)) => Err(e),
                (Ok(a), Ok(b)) => Ok(E::elem_ge(a, b)),
            },
        }
    }

    /// Evaluate the condition with the given variables bound.
    pub fn evaluate(&self, variables: &[E::Element]) -> (r: Result<bool, ExpressionError>)
        ensures
            r == self.spec_evaluate(variables@),
        decreases self,
    {
        match self {
            Condition::True => Ok(true),
            Condition::False => Ok(false),
            Condition::Not(c) => match c.evaluate(variables) {
                Ok(b) => Ok(!b),
                Err(e) => Err(e),
            },
            Condition::And(c1, c2) => {
                let r1 = c1.evaluate(variables);
                let r2 = c2.evaluate(variables);
                match r1 {
                    Err(e) => Err(e),
                    Ok(b1) => match r2 {
                        Err(e) => Err(e),
                        Ok(b2) => Ok(b1 && b2),
                    },
                }
            },
            Condition::Or(c1, c2) => {
                let r1 = c1.evaluate(variables);
                let r2 = c2.evaluate(variables);
                match r1 {
                    Err(e) => Err(e),
                    Ok(b1) => match r2 {
                        Err(e) => Err(e),
                        Ok(b2) => Ok(b1 || b2),
                    },
                }
            },
            Condition::Equal(e1, e2) => {
                let r1 = e1.evaluate(variables);
                let r2 = e2.evaluate(variables);
                match r1 {
                    Err(e) => Err(e),
                    Ok(a) => match r2 {
                        Err(e) => Err(e),
                        Ok(b) => Ok(E::cmp_eq(a, b)),
                    },
                }
            },
            Condition::Less(e1, e2) => {
                let r1 = e1.evaluate(variables);
                let r2 = e2.evaluate(variables);
                match r1 {
                    Err(e) => Err(e),
                    Ok(a) => match r2 {
                        Err(e) => Err(e),
                        Ok(b) => Ok(E::cmp_lt(a, b)),
                    },
                }
            },
            Condition::Greater(e1, e2) => {
                let r1 = e1.evaluate(variables);
                let r2 = e2.evaluate(variables);
                match r1 {
                    Err(e) => Err(e),
                    Ok(a) => match r2 {
                        Err(e) => Err(e),
                        Ok(b) => Ok(E::cmp_gt(a, b)),
                    },
                }
            },
            Condition::LessEqual(e1, e2) => {
                let r1 = e1.evaluate(variables);
                let r2 = e2.evaluate(variables);
                match r1 {
                    Err(e) => Err(e),
                    Ok(a) => match r2 {
                        Err(e) => Err(e),
                        Ok(b) => Ok(E::cmp_le(a, b)),
                    },
                }
            },
            Condition::GreaterEqual(e1, e2) => {
                let r1 = e1.evaluate(variables);
                let r2 = e2.evaluate(variables);
                match r1 {
                    Err(e) => Err(e),
                    Ok(a) => match r2 {
                        Err(e) => Err(e),
                        Ok(b) => Ok(E::cmp_ge(a, b)),
                    },
                }
            },
        }
    }
}

impl<E: Expression + ToSexp> ToSexp for Condition<E> {
    /// The projection of a condition: `True` and `False` are bare atoms;
    /// every other node is a list headed by its operator token (`not`, `and`,
    /// `or`, `==`, `<`, `>`, `<=`, `>=`), followed by the projections of its
    /// children.
    open spec fn spec_to_sexp(&self) -> SexpTree
        decreases self,
    {
        match self {
            Condition::True => SexpTree::Atom("true"@),
            Condition::False => SexpTree::Atom("false"@),
            Condition::Not(a) => SexpTree::List(seq![SexpTree::Atom("not"@), a.spec_to_sexp()]),
            Condition::And(a, b) => SexpTree::List(
                seq![SexpTree::Atom("and"@), a.spec_to_sexp(), b.spec_to_sexp()],
            ),
            Condition::Or(a, b) => SexpTree::List(
                seq![SexpTree::Atom("or"@), a.spec_to_sexp(), b.spec_to_sexp()],
            ),
            Condition::Equal(a, b) => SexpTree::List(
                seq![SexpTree::Atom("=="@), a.spec_to_sexp(), b.spec_to_sexp()],
            ),
            Condition::Less(a, b) => SexpTree::List(
                seq![SexpTree::Atom("<"@), a.spec_to_sexp(), b.spec_to_sexp()],
            ),
            Condition::Greater(a, b) => SexpTree::List(
                seq![SexpTree::Atom(">"@), a.spec_to_sexp(), b.spec_to_sexp()],
            ),
            Condition::LessEqual(a, b) => SexpTree::List(
                seq![SexpTree::Atom("<="@), a.spec_to_sexp(), b.spec_to_sexp()],
            ),
            Condition::GreaterEqual(a, b) => SexpTree::List(
                seq![SexpTree::Atom(">="@), a.spec_to_sexp(), b.spec_to_sexp()],
            ),
        }
    }

    /// Projects the condition into an S-expression.
    fn to_sexp(&self) -> (r: Sexp)
        decreases self,
    {
        match self {
            Condition::True => Sexp::atom("true"),
            Condition::False => Sexp::atom("false"),
            Condition::Not(a) => Sexp::list2(Sexp::atom("not"), a.to_sexp()),
            Condition::And(a, b) => Sexp::list3(Sexp::atom("and"), a.to_sexp(), b.to_sexp()),
            Condition::Or(a, b) => Sexp::list3(Sexp::atom("or"), a.to_sexp(), b.to_sexp()),
            Condition::Equal(a, b) => Sexp::list3(Sexp::atom("=="), a.to_sexp(), b.to_sexp()),
            Condition::Less(a, b) => Sexp::list3(Sexp::atom("<"), a.to_sexp(), b.to_sexp()),
            Condition::Greater(a, b) => Sexp::list3(Sexp::atom(">"), a.to_sexp(), b.to_sexp()),
            Condition::LessEqual(a, b) => Sexp::list3(Sexp::atom("<="), a.to_sexp(), b.to_sexp()),
            Condition::GreaterEqual(a, b) => Sexp::list3(Sexp::atom(">="), a.to_sexp(), b.to_sexp()),
        }
    }
}

/// A boolean literal evaluates to its value under every binding, the empty
/// one included; it performs no sub-evaluation and never fails.
pub proof fn lemma_literal<E: Expression>(variables: Seq<E::Element>)
    ensures
        Condition::<E>::True.spec_evaluate(variables) == Ok::<bool, ExpressionError>(true),
        Condition::<E>::False.spec_evaluate(variables) == Ok::<bool, ExpressionError>(false),
{
}

/// Negation returns the logical negation of the inner condition's result
/// whenever the inner evaluation succeeds, and propagates the identical error
/// when it fails.
pub proof fn lemma_not<E: Expression>(c: Condition<E>, variables: Seq<E::Element>)
    ensures
        (match c.spec_evaluate(variables) {
            Ok(b) => Condition::Not(Box::new(c)).spec_evaluate(variables) == Ok::<
                bool,
                ExpressionError,
            >(!b),
            Err(e) => Condition::Not(Box::new(c)).spec_evaluate(variables) == Err::<
                bool,
                ExpressionError,
            >(e),
        }),
{
}

/// A comparison applies the element type's native comparison operator to the
/// two operand values when both operands evaluate successfully.
pub proof fn lemma_comparison<E: Expression>(
    e1: E,
    e2: E,
    variables: Seq<E::Element>,
    a: E::Element,
    b: E::Element,
)
    requires
        e1.spec_evaluate(variables) == Ok::<E::Element, ExpressionError>(a),
        e2.spec_evaluate(variables) == Ok::<E::Element, ExpressionError>(b),
    ensures
        Condition::Equal(Box::new(e1), Box::new(e2)).spec_evaluate(variables) == Ok::<
            bool,
            ExpressionError,
        >(E::elem_eq(a, b)),
        Condition::Less(Box::new(e1), Box::new(e2)).spec_evaluate(variables) == Ok::<
            bool,
            ExpressionError,
        >(E::elem_lt(a, b)),
        Condition::Greater(Box::new(e1), Box::new(e2)).spec_evaluate(variables) == Ok::<
            bool,
            ExpressionError,
        >(E::elem_gt(a, b)),
        Condition::LessEqual(Box::new(e1), Box::new(e2)).spec_evaluate(variables) == Ok::<
            bool,
            ExpressionError,
        >(E::elem_le(a, b)),
        Condition::GreaterEqual(Box::new(e1), Box::new(e2)).spec_evaluate(variables) == Ok::<
            bool,
            ExpressionError,
        >(E::elem_ge(a, b)),
{
}

/// Whether `c` is a comparison node whose operands are `e1` and `e2`.
pub open spec fn is_comparison<E: Expression>(c: Condition<E>, e1: E, e2: E) -> bool {
    ||| c == Condition::Equal(Box::new(e1), Box::new(e2))
    ||| c == Condition::Less(Box::new(e1), Box::new(e2))
    ||| c == Condition::Greater(Box::new(e1), Box::new(e2))
    ||| c == Condition::LessEqual(Box::new(e1), Box::new(e2))
    ||| c == Condition::GreaterEqual(Box::new(e1), Box::new(e2))
}

/// If evaluating either operand of a comparison fails, the comparison fails
/// with that exact error value, neither wrapped nor altered; the left
/// operand's error wins when both fail.
pub proof fn lemma_comparison_error<E: Expression>(
    c: Condition<E>,
    e1: E,
    e2: E,
    variables: Seq<E::Element>,
)
    requires
        is_comparison(c, e1, e2),
    ensures
        (e1.spec_evaluate(variables) matches Err(e) ==> c.spec_evaluate(variables) == Err::<
            bool,
            ExpressionError,
        >(e)),
        (e1.spec_evaluate(variables) is Ok ==> (e2.spec_evaluate(variables) matches Err(e)
            ==> c.spec_evaluate(variables) == Err::<bool, ExpressionError>(e))),
{
}

/// If evaluating either operand of a conjunction or disjunction fails, the
/// whole condition fails with that exact error value, neither wrapped nor
/// altered; the left operand's error wins when both fail.
pub proof fn lemma_connective_error<E: Expression>(
    c1: Condition<E>,
    c2: Condition<E>,
    variables: Seq<E::Element>,
)
    ensures
        (c1.spec_evaluate(variables) matches Err(e) ==> Condition::And(
            Box::new(c1),
            Box::new(c2),
        ).spec_evaluate(variables) == Err::<bool, ExpressionError>(e)),
        (c1.spec_evaluate(variables) matches Err(e) ==> Condition::Or(
            Box::new(c1),
            Box::new(c2),
        ).spec_evaluate(variables) == Err::<bool, ExpressionError>(e)),
        (c1.spec_evaluate(variables) is Ok ==> (c2.spec_evaluate(variables) matches Err(e)
            ==> Condition::And(Box::new(c1), Box::new(c2)).spec_evaluate(variables) == Err::<
            bool,
            ExpressionError,
        >(e))),
        (c1.spec_evaluate(variables) is Ok ==> (c2.spec_evaluate(variables) matches Err(e)
            ==> Condition::Or(Box::new(c1), Box::new(c2)).spec_evaluate(variables) == Err::<
            bool,
            ExpressionError,
        >(e))),
{
}

/// Serialization is a pure function of the tree: equal conditions have equal
/// projections.
pub proof fn lemma_to_sexp_deterministic<E: Expression + ToSexp>(c1: Condition<E>, c2: Condition<E>)
    requires
        c1 == c2,
    ensures
        c1.spec_to_sexp() == c2.spec_to_sexp(),
{
}

/// The operator token that the projection writes for each node tag.
pub open spec fn tag_token<E: Expression>(c: Condition<E>) -> Seq<char> {
    match c {
        Condition::True => "true"@,
        Condition::False => "false"@,
        Condition::Not(_) => "not"@,
        Condition::And(_, _) => "and"@,
        Condition::Or(_, _) => "or"@,
        Condition::Equal(_, _) => "=="@,
        Condition::Less(_, _) => "<"@,
        Condition::Greater(_, _) => ">"@,
        Condition::LessEqual(_, _) => "<="@,
        Condition::GreaterEqual(_, _) => ">="@,
    }
}

/// Whether two conditions carry the same tag, whatever their children.
pub open spec fn same_tag<E: Expression>(c1: Condition<E>, c2: Condition<E>) -> bool {
    match (c1, c2) {
        (Condition::True, Condition::True) => true,
        (Condition::False, Condition::False) => true,
        (Condition::Not(_), Condition::Not(_)) => true,
        (Condition::And(_, _), Condition::And(_, _)) => true,
        (Condition::Or(_, _), Condition::Or(_, _)) => true,
        (Condition::Equal(_, _), Condition::Equal(_, _)) => true,
        (Condition::Less(_, _), Condition::Less(_, _)) => true,
        (Condition::Greater(_, _), Condition::Greater(_, _)) => true,
        (Condition::LessEqual(_, _), Condition::LessEqual(_, _)) => true,
        (Condition::GreaterEqual(_, _), Condition::GreaterEqual(_, _)) => true,
        _ => false,
    }
}

/// The projection puts each node's operator token at its head.
pub proof fn lemma_to_sexp_head<E: Expression + ToSexp>(c: Condition<E>)
    ensures
        head_of(c.spec_to_sexp()) == tag_token(c),
{
    match c {
        Condition::True => {},
        Condition::False => {},
        Condition::Not(a) => {
            let items = seq![SexpTree::Atom("not"@), a.spec_to_sexp()];
            assert(c.spec_to_sexp() == SexpTree::List(items));
            assert(items.len() == 2 && items[0] == SexpTree::Atom("not"@));
        },
        Condition::And(a, b) => {
            let items = seq![SexpTree::Atom("and"@), a.spec_to_sexp(), b.spec_to_sexp()];
            assert(c.spec_to_sexp() == SexpTree::List(items));
            assert(items.len() == 3 && items[0] == SexpTree::Atom("and"@));
        },
        Condition::Or(a, b) => {
            let items = seq![SexpTree::Atom("or"@), a.spec_to_sexp(), b.spec_to_sexp()];
            assert(c.spec_to_sexp() == SexpTree::List(items));
            assert(items.len() == 3 && items[0] == SexpTree::Atom("or"@));
        },
        Condition::Equal(a, b) => {
            let items = seq![SexpTree::Atom("=="@), a.spec_to_sexp(), b.spec_to_sexp()];
            assert(c.spec_to_sexp() == SexpTree::List(items));
            assert(items.len() == 3 && items[0] == SexpTree::Atom("=="@));
        },
        Condition::Less(a, b) => {
            let items = seq![SexpTree::Atom("<"@), a.spec_to_sexp(), b.spec_to_sexp()];
            assert(c.spec_to_sexp() == SexpTree::List(items));
            assert(items.len() == 3 && items[0] == SexpTree::Atom("<"@));
        },
        Condition::Greater(a, b) => {
            let items = seq![SexpTree::Atom(">"@), a.spec_to_sexp(), b.spec_to_sexp()];
            assert(c.spec_to_sexp() == SexpTree::List(items));
            assert(items.len() == 3 && items[0] == SexpTree::Atom(">"@));
        },
        Condition::LessEqual(a, b) => {
            let items = seq![SexpTree::Atom("<="@), a.spec_to_sexp(), b.spec_to_sexp()];
            assert(c.spec_to_sexp() == SexpTree::List(items));
            assert(items.len() == 3 && items[0] == SexpTree::Atom("<="@));
        },
        Condition::GreaterEqual(a, b) => {
            let items = seq![SexpTree::Atom(">="@), a.spec_to_sexp(), b.spec_to_sexp()];
            assert(c.spec_to_sexp() == SexpTree::List(items));
            assert(items.len() == 3 && items[0] == SexpTree::Atom(">="@));
        },
    }
}

/// Every node tag projects to its own distinct operator token, so conditions
/// with different tags have different head tokens and different projections,
/// whatever their children: the mapping is unambiguous at every node.
pub proof fn lemma_to_sexp_distinct_tags<E: Expression + ToSexp>(c1: Condition<E>, c2: Condition<E>)
    requires
        !same_tag(c1, c2),
    ensures
        tag_token(c1) != tag_token(c2),
        c1.spec_to_sexp() != c2.spec_to_sexp(),
{
    reveal_strlit("true");
    reveal_strlit("false");
    reveal_strlit("not");
    reveal_strlit("and");
    reveal_strlit("or");
    reveal_strlit("==");
    reveal_strlit("<");
    reveal_strlit(">");
    reveal_strlit("<=");
    reveal_strlit(">=");
    assert("true"@.len() == 4 && "true"@[0] == 't');
    assert("false"@.len() == 5 && "false"@[0] == 'f');
    assert("not"@.len() == 3 && "not"@[0] == 'n');
    assert("and"@.len() == 3 && "and"@[0] == 'a');
    assert("or"@.len() == 2 && "or"@[0] == 'o');
    assert("=="@.len() == 2 && "=="@[0] == '=');
    assert("<"@.len() == 1 && "<"@[0] == '<');
    assert(">"@.len() == 1 && ">"@[0] == '>');
    assert("<="@.len() == 2 && "<="@[0] == '<');
    assert(">="@.len() == 2 && ">="@[0] == '>');
    lemma_to_sexp_head(c1);
    lemma_to_sexp_head(c2);
    if c1.spec_to_sexp() == c2.spec_to_sexp() {
        assert(head_of(c1.spec_to_sexp()) == head_of(c2.spec_to_sexp()));
    }
}

} // verus!
