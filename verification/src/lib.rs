//! A small embeddable engine for boolean conditions over numeric expressions.
//!
//! A host builds an immutable [`cond::Cond`] (or [`condition::Condition`]) tree
//! whose leaves are either boolean literals or comparisons between two
//! expression sub-trees, then evaluates it against a runtime-supplied variable
//! binding. Evaluation is a pure recursive descent: it either returns the
//! boolean value of the formula or propagates the first expression error
//! encountered in left-to-right order. A condition tree can also be projected
//! into a textual S-expression form (see [`sexp`]) for debugging and
//! persistence; no parser is provided.

use vstd::prelude::*;

pub mod cond;
pub mod condition;
pub mod sexp;

verus! {

/// An error produced while evaluating an expression.
///
/// All variants originate in the expression layer; condition evaluation never
/// introduces new error kinds, it only propagates the ones produced while
/// evaluating its embedded expressions.
#[derive(Debug, Eq, PartialEq)]
pub enum ExpressionError {
    /// In case of division by zero.
    DivByZero,
    /// In case an invalid variable is referenced from the expression.
    InvalidVariable,
    /// In case of an invalid operation.
    InvalidOperation,
}

/// An evaluable expression over a scalar element type.
///
/// The condition layer treats expressions as opaque evaluable leaves: it never
/// constructs or inspects them beyond calling [`Expression::evaluate`]. An
/// implementor states what its evaluation returns through
/// [`Expression::spec_evaluate`], and supplies the native equality and
/// ordering of its element type through the `elem_*` relations and their
/// executable `cmp_*` counterparts. The ordering may be partial: for a pair of
/// incomparable elements all four ordering relations may be false at once.
pub trait Expression: Sized {
    /// The scalar type expressions evaluate to.
    type Element;

    /// What [`Expression::evaluate`] returns, as a function of the expression
    /// and the binding.
    spec fn spec_evaluate(&self, variables: Seq<Self::Element>) -> Result<
        Self::Element,
        ExpressionError,
    >;

    /// The element type's native equality.
    spec fn elem_eq(a: Self::Element, b: Self::Element) -> bool;

    /// The element type's native strict order (`<`).
    spec fn elem_lt(a: Self::Element, b: Self::Element) -> bool;

    /// The element type's native strict reverse order (`>`).
    spec fn elem_gt(a: Self::Element, b: Self::Element) -> bool;

    /// The element type's native non-strict order (`<=`).
    spec fn elem_le(a: Self::Element, b: Self::Element) -> bool;

    /// The element type's native non-strict reverse order (`>=`).
    spec fn elem_ge(a: Self::Element, b: Self::Element) -> bool;

    /// Evaluates the expression with the given variables bound.
    fn evaluate(&self, variables: &[Self::Element]) -> (r: Result<
        Self::Element,
        ExpressionError,
    >)
        ensures
            r == self.spec_evaluate(variables@),
    ;

    /// Decides structural equality of two expressions.
    fn eq_expr(&self, other: &Self) -> (r: bool)
        ensures
            r == (self == other),
    ;

    /// Decides `a == b` in the element type's native semantics.
    fn cmp_eq(a: Self::Element, b: Self::Element) -> (r: bool)
        ensures
            r == Self::elem_eq(a, b),
    ;

    /// Decides `a < b` in the element type's native semantics.
    fn cmp_lt(a: Self::Element, b: Self::Element) -> (r: bool)
        ensures
            r == Self::elem_lt(a, b),
    ;

    /// Decides `a > b` in the element type's native semantics.
    fn cmp_gt(a: Self::Element, b: Self::Element) -> (r: bool)
        ensures
            r == Self::elem_gt(a, b),
    ;

    /// Decides `a <= b` in the element type's native semantics.
    fn cmp_le(a: Self::Element, b: Self::Element) -> (r: bool)
        ensures
            r == Self::elem_le(a, b),
    ;

    /// Decides `a >= b` in the element type's native semantics.
    fn cmp_ge(a: Self::Element, b: Self::Element) -> (r: bool)
        ensures
            r == Self::elem_ge(a, b),
    ;
}

/// A boolean formula that can be evaluated against a variable binding.
///
/// Evaluation either returns the boolean value of the formula or propagates
/// an error produced while evaluating an embedded expression.
pub trait Condition: Sized {
    /// The expression type embedded in the formula's comparison leaves.
    type Expr: Expression;

    /// What [`Condition::evaluate`] returns, as a function of the condition
    /// and the binding.
    spec fn spec_evaluate(
        &self,
        variables: Seq<<Self::Expr as Expression>::Element>,
    ) -> Result<bool, ExpressionError>;

    /// Evaluates the condition with the given variables bound.
    fn evaluate(&self, variables: &[<Self::Expr as Expression>::Element]) -> (r: Result<
        bool,
        ExpressionError,
    >)
        ensures
            r == self.spec_evaluate(variables@),
    ;
}

} // verus!
