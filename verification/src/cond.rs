//! The condition tree and its evaluator.

use crate::sexp::{head_of, Sexp, SexpTree, ToSexp};
use crate::{Condition, Expression, ExpressionError};
use vstd::prelude::*;

verus! {

/// A boolean condition evaluates to either `true` or `false`.
///
/// A condition is an immutable tree: its leaves are boolean literals or
/// comparisons between two expressions, its internal nodes are boolean
/// connectives over sub-conditions. Every node owns its children outright, so
/// a tree is finite and acyclic by construction. Two conditions are equal iff
/// they have identical tags and recursively equal children; no validation
/// happens at construction, a condition referencing an out-of-range variable
/// slot only fails when evaluated.
#[derive(Debug, PartialEq)]
pub enum Cond<E: Expression> {
    True,
    False,
    Not(Box<Cond<E>>),
    And(Box<Cond<E>>, Box<Cond<E>>),
    Or(Box<Cond<E>>, Box<Cond<E>>),
    /// If two expressions are equal
    Equal(Box<E>, Box<E>),
    Less(Box<E>, Box<E>),
    Greater(Box<E>, Box<E>),
    LessEqual(Box<E>, Box<E>),
    GreaterEqual(Box<E>, Box<E>),
}

impl<E: Expression + Clone> Clone for Cond<E> {
    /// Clones the tree node for node; what a cloned expression leaf holds is
    /// up to `E::clone`.
    fn clone(&self) -> Self
        decreases self,
    {
        match self {
            Cond::True => Cond::True,
            Cond::False => Cond::False,
            Cond::Not(c) => Cond::Not(Box::new((**c).clone())),
            Cond::And(c1, c2) => Cond::And(Box::new((**c1).clone()), Box::new((**c2).clone())),
            Cond::Or(c1, c2) => Cond::Or(Box::new((**c1).clone()), Box::new((**c2).clone())),
            Cond::Equal(e1, e2) => Cond::Equal(Box::new((**e1).clone()), Box::new((**e2).clone())),
            Cond::Less(e1, e2) => Cond::Less(Box::new((**e1).clone()), Box::new((**e2).clone())),
            Cond::Greater(e1, e2) => Cond::Greater(
                Box::new((**e1).clone()),
                Box::new((**e2).clone()),
            ),
            Cond::LessEqual(e1, e2) => Cond::LessEqual(
                Box::new((**e1).clone()),
                Box::new((**e2).clone()),
            ),
            Cond::GreaterEqual(e1, e2) => Cond::GreaterEqual(
                Box::new((**e1).clone()),
                Box::new((**e2).clone()),
            ),
        }
    }
}

impl<E: Expression> Condition for Cond<E> {
    type Expr = E;

    /// The result of evaluating the condition under a binding: the boolean
    /// value of the formula, or the first error met in left-to-right,
    /// depth-first order. Both operands of a connective or comparison are
    /// always evaluated; only errors cut evaluation short, never a boolean
    /// value, and the left operand's error wins over the right one's.
    open spec fn spec_evaluate(&self, variables: Seq<E::Element>) -> Result<
        bool,
        ExpressionError,
    >
        decreases self,
    {
        match self {
            Cond::True => Ok(true),
            Cond::False => Ok(false),
            Cond::Not(c) => match c.spec_evaluate(variables) {
                Ok(b) => Ok(!b),
                Err(e) => Err(e),
            },
            Cond::And(c1, c2) => match (c1.spec_evaluate(variables), c2.spec_evaluate(variables)) {
                (Err(e), _) => Err(e),
                (_, Err(e)) => Err(e),
                (Ok(b1), Ok(b2)) => Ok(b1 && b2),
            },
            Cond::Or(c1, c2) => match (c1.spec_evaluate(variables), c2.spec_evaluate(variables)) {
                (Err(e), _) => Err(e),
                (_, Err(e)) => Err(e),
                (Ok(b1), Ok(b2)) => Ok(b1 || b2),
            },
            Cond::Equal(e1, e2) => match (e1.spec_evaluate(variables), e2.spec_evaluate(variables)) {
                (Err(e), _) => Err(e),
                (_, Err(e)) => Err(e),
                (Ok(a), Ok(b)) => Ok(E::elem_eq(a, b)),
            },
            Cond::Less(e1, e2) => match (e1.spec_evaluate(variables), e2.spec_evaluate(variables)) {
                (Err(e), _) => Err(e),
                (_, Err(e)) => Err(e),
                (Ok(a), Ok(b)) => Ok(E::elem_lt(a, b)),
            },
            Cond::Greater(e1, e2) => match (
                e1.spec_evaluate(variables),
                e2.spec_evaluate(variables),
            ) {
                (Err(e), _) => Err(e),
                (_, Err(e)) => Err(e),
                (Ok(a), Ok(b)) => Ok(E::elem_gt(a, b)),
            },
            Cond::LessEqual(e1, e2) => match (
                e1.spec_evaluate(variables),
                e2.spec_evaluate(variables),
            ) {
                (Err(e), _) => Err(e),
                (_, Err(e)) => Err(e),
                (Ok(a), Ok(b)) => Ok(E::elem_le(a, b)),
            },
            Cond::GreaterEqual(e1, e2) => match (
                e1.spec_evaluate(variables),
                e2.spec_evaluate(variables),
            ) {
                (Err(e), _) => Err(e),
                (_, Err(e)) => Err(e),
                (Ok(a), Ok(b)) => Ok(E::elem_ge(a, b)),
            },
        }
    }

    /// Evaluate the condition with the given variables bound.
    fn evaluate(&self, variables: &[E::Element]) -> (r: Result<bool, ExpressionError>)
        decreases self,
    {
        match self {
            Cond::True => Ok(true),
            Cond::False => Ok(false),
            Cond::Not(c) => match c.evaluate(variables) {
                Ok(b) => Ok(!b),
                Err(e) => Err(e),
            },
            Cond::And(c1, c2) => {
                let r1 = c1.evaluate(variables);
                let r2 = c2.evaluate(variables);
                match r1 {
                    Err(e) => Err(e),
                    Ok(b1) => match r2 {
                        Err(e) => Err(e),
                        Ok(b2) => Ok(b1 && b2),
                    },
                }
            },
            Cond::Or(c1, c2) => {
                let r1 = c1.evaluate(variables);
                let r2 = c2.evaluate(variables);
                match r1 {
                    Err(e) => Err(e),
                    Ok(b1) => match r2 {
                        Err(e) => Err(e),
                        Ok(b2) => Ok(b1 || b2),
                    },
                }
            },
            Cond::Equal(e1, e2) => {
                let r1 = e1.evaluate(variables);
                let r2 = e2.evaluate(variables);
                match r1 {
                    Err(e) => Err(e),
                    Ok(a) => match r2 {
                        Err(e) => Err(e),
                        Ok(b) => Ok(E::cmp_eq(a, b)),
                    },
                }
            },
            Cond::Less(e1, e2) => {
                let r1 = e1.evaluate(variables);
                let r2 = e2.evaluate(variables);
                match r1 {
                    Err(e) => Err(e),
                    Ok(a) => match r2 {
                        Err(e) => Err(e),
                        Ok(b) => Ok(E::cmp_lt(a, b)),
                    },
                }
            },
            Cond::Greater(e1, e2) => {
                let r1 = e1.evaluate(variables);
                let r2 = e2.evaluate(variables);
                match r1 {
                    Err(e) => Err(e),
                    Ok(a) => match r2 {
                        Err(e) => Err(e),
                        Ok(b) => Ok(E::cmp_gt(a, b)),
                    },
                }
            },
            Cond::LessEqual(e1, e2) => {
                let r1 = e1.evaluate(variables);
                let r2 = e2.evaluate(variables);
                match r1 {
                    Err(e) => Err(e),
                    Ok(a) => match r2 {
                        Err(e) => Err(e),
                        Ok(b) => Ok(E::cmp_le(a, b)),
                    },
                }
            },
            Cond::GreaterEqual(e1, e2) => {
                let r1 = e1.evaluate(variables);
                let r2 = e2.evaluate(variables);
                match r1 {
                    Err(e) => Err(e),
                    Ok(a) => match r2 {
                        Err(e) => Err(e),
                        Ok(b) => Ok(E::cmp_ge(a, b)),
                    },
                }
            },
        }
    }
}

impl<E: Expression> Cond<E> {
    /// Decides structural equality: two conditions are equal iff they carry
    /// identical tags and recursively equal children. Equality is not
    /// semantic: `And(True, False)` and `False` are distinct values even
    /// though they evaluate identically.
    pub fn eq_cond(&self, other: &Self) -> (r: bool)
        ensures
            r == (self == other),
        decreases self,
    {
        match (self, other) {
            (Cond::True, Cond::True) => true,
            (Cond::False, Cond::False) => true,
            (Cond::Not(a), Cond::Not(x)) => a.eq_cond(x),
            (Cond::And(a, b), Cond::And(x, y)) => a.eq_cond(x) && b.eq_cond(y),
            (Cond::Or(a, b), Cond::Or(x, y)) => a.eq_cond(x) && b.eq_cond(y),
            (Cond::Equal(a, b), Cond::Equal(x, y)) => a.eq_expr(x) && b.eq_expr(y),
            (Cond::Less(a, b), Cond::Less(x, y)) => a.eq_expr(x) && b.eq_expr(y),
            (Cond::Greater(a, b), Cond::Greater(x, y)) => a.eq_expr(x) && b.eq_expr(y),
            (Cond::LessEqual(a, b), Cond::LessEqual(x, y)) => a.eq_expr(x) && b.eq_expr(y),
            (Cond::GreaterEqual(a, b), Cond::GreaterEqual(x, y)) => a.eq_expr(x) && b.eq_expr(y),
            _ => false,
        }
    }
}

impl<E: Expression + ToSexp> ToSexp for Cond<E> {
    /// The projection of a condition: `True` and `False` are bare atoms;
    /// every other node is a list headed by its operator token (`not`, `and`,
    /// `or`, `==`, `<`, `>`, `<=`, `>=`), followed by the projections of its
    /// children.
    open spec fn spec_to_sexp(&self) -> SexpTree
        decreases self,
    {
        match self {
            Cond::True => SexpTree::Atom("true"@),
            Cond::False => SexpTree::Atom("false"@),
            Cond::Not(a) => SexpTree::List(seq![SexpTree::Atom("not"@), a.spec_to_sexp()]),
            Cond::And(a, b) => SexpTree::List(
                seq![SexpTree::Atom("and"@), a.spec_to_sexp(), b.spec_to_sexp()],
            ),
            Cond::Or(a, b) => SexpTree::List(
                seq![SexpTree::Atom("or"@), a.spec_to_sexp(), b.spec_to_sexp()],
            ),
            Cond::Equal(a, b) => SexpTree::List(
                seq![SexpTree::Atom("=="@), a.spec_to_sexp(), b.spec_to_sexp()],
            ),
            Cond::Less(a, b) => SexpTree::List(
                seq![SexpTree::Atom("<"@), a.spec_to_sexp(), b.spec_to_sexp()],
            ),
            Cond::Greater(a, b) => SexpTree::List(
                seq![SexpTree::Atom(">"@), a.spec_to_sexp(), b.spec_to_sexp()],
            ),
            Cond::LessEqual(a, b) => SexpTree::List(
                seq![SexpTree::Atom("<="@), a.spec_to_sexp(), b.spec_to_sexp()],
            ),
            Cond::GreaterEqual(a, b) => SexpTree::List(
                seq![SexpTree::Atom(">="@), a.spec_to_sexp(), b.spec_to_sexp()],
            ),
        }
    }

    /// Projects the condition into an S-expression.
    fn to_sexp(&self) -> (r: Sexp)
        decreases self,
    {
        match self {
            Cond::True => Sexp::atom("true"),
            Cond::False => Sexp::atom("false"),
            Cond::Not(a) => Sexp::list2(Sexp::atom("not"), a.to_sexp()),
            Cond::And(a, b) => Sexp::list3(Sexp::atom("and"), a.to_sexp(), b.to_sexp()),
            Cond::Or(a, b) => Sexp::list3(Sexp::atom("or"), a.to_sexp(), b.to_sexp()),
            Cond::Equal(a, b) => Sexp::list3(Sexp::atom("=="), a.to_sexp(), b.to_sexp()),
            Cond::Less(a, b) => Sexp::list3(Sexp::atom("<"), a.to_sexp(), b.to_sexp()),
            Cond::Greater(a, b) => Sexp::list3(Sexp::atom(">"), a.to_sexp(), b.to_sexp()),
            Cond::LessEqual(a, b) => Sexp::list3(Sexp::atom("<="), a.to_sexp(), b.to_sexp()),
            Cond::GreaterEqual(a, b) => Sexp::list3(Sexp::atom(">="), a.to_sexp(), b.to_sexp()),
        }
    }
}

/// A boolean literal evaluates to its value under every binding, the empty
/// one included; it performs no sub-evaluation and never fails.
pub proof fn lemma_literal<E: Expression>(variables: Seq<E::Element>)
    ensures
        Cond::<E>::True.spec_evaluate(variables) == Ok::<bool, ExpressionError>(true),
        Cond::<E>::False.spec_evaluate(variables) == Ok::<bool, ExpressionError>(false),
{
}

/// Negation returns the logical negation of the inner condition's result
/// whenever the inner evaluation succeeds, and propagates the identical error
/// when it fails.
pub proof fn lemma_not<E: Expression>(c: Cond<E>, variables: Seq<E::Element>)
    ensures
        (match c.spec_evaluate(variables) {
            Ok(b) => Cond::Not(Box::new(c)).spec_evaluate(variables) == Ok::<
                bool,
                ExpressionError,
            >(!b),
            Err(e) => Cond::Not(Box::new(c)).spec_evaluate(variables) == Err::<
                bool,
                ExpressionError,
            >(e),
        }),
{
}

/// A comparison applies the element type's native comparison operator to the
/// two operand values when both operands evaluate successfully.
pub proof fn lemma_comparison<E: Expression>(
    e1: E,
    e2: E,
    variables: Seq<E::Element>,
    a: E::Element,
    b: E::Element,
)
    requires
        e1.spec_evaluate(variables) == Ok::<E::Element, ExpressionError>(a),
        e2.spec_evaluate(variables) == Ok::<E::Element, ExpressionError>(b),
    ensures
        Cond::Equal(Box::new(e1), Box::new(e2)).spec_evaluate(variables) == Ok::<
            bool,
            ExpressionError,
        >(E::elem_eq(a, b)),
        Cond::Less(Box::new(e1), Box::new(e2)).spec_evaluate(variables) == Ok::<
            bool,
            ExpressionError,
        >(E::elem_lt(a, b)),
        Cond::Greater(Box::new(e1), Box::new(e2)).spec_evaluate(variables) == Ok::<
            bool,
            ExpressionError,
        >(E::elem_gt(a, b)),
        Cond::LessEqual(Box::new(e1), Box::new(e2)).spec_evaluate(variables) == Ok::<
            bool,
            ExpressionError,
        >(E::elem_le(a, b)),
        Cond::GreaterEqual(Box::new(e1), Box::new(e2)).spec_evaluate(variables) == Ok::<
            bool,
            ExpressionError,
        >(E::elem_ge(a, b)),
{
}

/// Whether `c` is a comparison node whose operands are `e1` and `e2`.
pub open spec fn is_comparison<E: Expression>(c: Cond<E>, e1: E, e2: E) -> bool {
    ||| c == Cond::Equal(Box::new(e1), Box::new(e2))
    ||| c == Cond::Less(Box::new(e1), Box::new(e2))
    ||| c == Cond::Greater(Box::new(e1), Box::new(e2))
    ||| c == Cond::LessEqual(Box::new(e1), Box::new(e2))
    ||| c == Cond::GreaterEqual(Box::new(e1), Box::new(e2))
}

/// If evaluating either operand of a comparison fails, the comparison fails
/// with that exact error value, neither wrapped nor altered; the left
/// operand's error wins when both fail.
pub proof fn lemma_comparison_error<E: Expression>(
    c: Cond<E>,
    e1: E,
    e2: E,
    variables: Seq<E::Element>,
)
    requires
        is_comparison(c, e1, e2),
    ensures
        (e1.spec_evaluate(variables) matches Err(e) ==> c.spec_evaluate(variables) == Err::<
            bool,
            ExpressionError,
        >(e)),
        (e1.spec_evaluate(variables) is Ok ==> (e2.spec_evaluate(variables) matches Err(e)
            ==> c.spec_evaluate(variables) == Err::<bool, ExpressionError>(e))),
{
}

/// If evaluating either operand of a conjunction or disjunction fails, the
/// whole condition fails with that exact error value, neither wrapped nor
/// altered; the left operand's error wins when both fail.
pub proof fn lemma_connective_error<E: Expression>(
    c1: Cond<E>,
    c2: Cond<E>,
    variables: Seq<E::Element>,
)
    ensures
        (c1.spec_evaluate(variables) matches Err(e) ==> Cond::And(
            Box::new(c1),
            Box::new(c2),
        ).spec_evaluate(variables) == Err::<bool, ExpressionError>(e)),
        (c1.spec_evaluate(variables) matches Err(e) ==> Cond::Or(
            Box::new(c1),
            Box::new(c2),
        ).spec_evaluate(variables) == Err::<bool, ExpressionError>(e)),
        (c1.spec_evaluate(variables) is Ok ==> (c2.spec_evaluate(variables) matches Err(e)
            ==> Cond::And(Box::new(c1), Box::new(c2)).spec_evaluate(variables) == Err::<
            bool,
            ExpressionError,
        >(e))),
        (c1.spec_evaluate(variables) is Ok ==> (c2.spec_evaluate(variables) matches Err(e)
            ==> Cond::Or(Box::new(c1), Box::new(c2)).spec_evaluate(variables) == Err::<
            bool,
            ExpressionError,
        >(e))),
{
}

/// Serialization is a pure function of the tree: equal conditions have equal
/// projections.
pub proof fn lemma_to_sexp_deterministic<E: Expression + ToSexp>(c1: Cond<E>, c2: Cond<E>)
    requires
        c1 == c2,
    ensures
        c1.spec_to_sexp() == c2.spec_to_sexp(),
{
}

/// The operator token that the projection writes for each node tag.
pub open spec fn tag_token<E: Expression>(c: Cond<E>) -> Seq<char> {
    match c {
        Cond::True => "true"@,
        Cond::False => "false"@,
        Cond::Not(_) => "not"@,
        Cond::And(_, _) => "and"@,
        Cond::Or(_, _) => "or"@,
        Cond::Equal(_, _) => "=="@,
        Cond::Less(_, _) => "<"@,
        Cond::Greater(_, _) => ">"@,
        Cond::LessEqual(_, _) => "<="@,
        Cond::GreaterEqual(_, _) => ">="@,
    }
}

/// Whether two conditions carry the same tag, whatever their children.
pub open spec fn same_tag<E: Expression>(c1: Cond<E>, c2: Cond<E>) -> bool {
    match (c1, c2) {
        (Cond::True, Cond::True) => true,
        (Cond::False, Cond::False) => true,
        (Cond::Not(_), Cond::Not(_)) => true,
        (Cond::And(_, _), Cond::And(_, _)) => true,
        (Cond::Or(_, _), Cond::Or(_, _)) => true,
        (Cond::Equal(_, _), Cond::Equal(_, _)) => true,
        (Cond::Less(_, _), Cond::Less(_, _)) => true,
        (Cond::Greater(_, _), Cond::Greater(_, _)) => true,
        (Cond::LessEqual(_, _), Cond::LessEqual(_, _)) => true,
        (Cond::GreaterEqual(_, _), Cond::GreaterEqual(_, _)) => true,
        _ => false,
    }
}

/// The projection puts each node's operator token at its head.
pub proof fn lemma_to_sexp_head<E: Expression + ToSexp>(c: Cond<E>)
    ensures
        head_of(c.spec_to_sexp()) == tag_token(c),
{
    match c {
        Cond::True => {},
        Cond::False => {},
        Cond::Not(a) => {
            let items = seq![SexpTree::Atom("not"@), a.spec_to_sexp()];
            assert(c.spec_to_sexp() == SexpTree::List(items));
            assert(items.len() == 2 && items[0] == SexpTree::Atom("not"@));
        },
        Cond::And(a, b) => {
            let items = seq![SexpTree::Atom("and"@), a.spec_to_sexp(), b.spec_to_sexp()];
            assert(c.spec_to_sexp() == SexpTree::List(items));
            assert(items.len() == 3 && items[0] == SexpTree::Atom("and"@));
        },
        Cond::Or(a, b) => {
            let items = seq![SexpTree::Atom("or"@), a.spec_to_sexp(), b.spec_to_sexp()];
            assert(c.spec_to_sexp() == SexpTree::List(items));
            assert(items.len() == 3 && items[0] == SexpTree::Atom("or"@));
        },
        Cond::Equal(a, b) => {
            let items = seq![SexpTree::Atom("=="@), a.spec_to_sexp(), b.spec_to_sexp()];
            assert(c.spec_to_sexp() == SexpTree::List(items));
            assert(items.len() == 3 && items[0] == SexpTree::Atom("=="@));
        },
        Cond::Less(a, b) => {
            let items = seq![SexpTree::Atom("<"@), a.spec_to_sexp(), b.spec_to_sexp()];
            assert(c.spec_to_sexp() == SexpTree::List(items));
            assert(items.len() == 3 && items[0] == SexpTree::Atom("<"@));
        },
        Cond::Greater(a, b) => {
            let items = seq![SexpTree::Atom(">"@), a.spec_to_sexp(), b.spec_to_sexp()];
            assert(c.spec_to_sexp() == SexpTree::List(items));
            assert(items.len() == 3 && items[0] == SexpTree::Atom(">"@));
        },
        Cond::LessEqual(a, b) => {
            let items = seq![SexpTree::Atom("<="@), a.spec_to_sexp(), b.spec_to_sexp()];
            assert(c.spec_to_sexp() == SexpTree::List(items));
            assert(items.len() == 3 && items[0] == SexpTree::Atom("<="@));
        },
        Cond::GreaterEqual(a, b) => {
            let items = seq![SexpTree::Atom(">="@), a.spec_to_sexp(), b.spec_to_sexp()];
            assert(c.spec_to_sexp() == SexpTree::List(items));
            assert(items.len() == 3 && items[0] == SexpTree::Atom(">="@));
        },
    }
}

/// Every node tag projects to its own distinct operator token, so conditions
/// with different tags have different head tokens and different projections,
/// whatever their children: the mapping is unambiguous at every node.
pub proof fn lemma_to_sexp_distinct_tags<E: Expression + ToSexp>(c1: Cond<E>, c2: Cond<E>)
    requires
        !same_tag(c1, c2),
    ensures
        tag_token(c1) != tag_token(c2),
        c1.spec_to_sexp() != c2.spec_to_sexp(),
{
    reveal_strlit("true");
    reveal_strlit("false");
    reveal_strlit("not");
    reveal_strlit("and");
    reveal_strlit("or");
    reveal_strlit("==");
    reveal_strlit("<");
    reveal_strlit(">");
    reveal_strlit("<=");
    reveal_strlit(">=");
    assert("true"@.len() == 4 && "true"@[0] == 't');
    assert("false"@.len() == 5 && "false"@[0] == 'f');
    assert("not"@.len() == 3 && "not"@[0] == 'n');
    assert("and"@.len() == 3 && "and"@[0] == 'a');
    assert("or"@.len() == 2 && "or"@[0] == 'o');
    assert("=="@.len() == 2 && "=="@[0] == '=');
    assert("<"@.len() == 1 && "<"@[0] == '<');
    assert(">"@.len() == 1 && ">"@[0] == '>');
    assert("<="@.len() == 2 && "<="@[0] == '<');
    assert(">="@.len() == 2 && ">="@[0] == '>');
    lemma_to_sexp_head(c1);
    lemma_to_sexp_head(c2);
    if c1.spec_to_sexp() == c2.spec_to_sexp() {
        assert(head_of(c1.spec_to_sexp()) == head_of(c2.spec_to_sexp()));
    }
}

} // verus!
