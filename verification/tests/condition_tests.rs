use expression::condition::Condition;
use expression::{Expression, ExpressionError};
use vstd::prelude::Seq;

/// An expression over `f32` with constants and variable slots.
#[derive(Debug, Clone, PartialEq)]
enum NumExpr {
    Const(f32),
    Var(usize),
}

impl Expression for NumExpr {
    type Element = f32;

    fn spec_evaluate(&self, _variables: Seq<f32>) -> Result<f32, ExpressionError> {
        unreachable!()
    }

    fn elem_eq(_a: f32, _b: f32) -> bool {
        unreachable!()
    }

    fn elem_lt(_a: f32, _b: f32) -> bool {
        unreachable!()
    }

    fn elem_gt(_a: f32, _b: f32) -> bool {
        unreachable!()
    }

    fn elem_le(_a: f32, _b: f32) -> bool {
        unreachable!()
    }

    fn elem_ge(_a: f32, _b: f32) -> bool {
        unreachable!()
    }

    fn evaluate(&self, variables: &[f32]) -> Result<f32, ExpressionError> {
        match self {
            NumExpr::Const(x) => Ok(*x),
            NumExpr::Var(i) => variables
                .get(*i)
                .copied()
                .ok_or(ExpressionError::InvalidVariable),
        }
    }

    fn eq_expr(&self, other: &Self) -> bool {
        self == other
    }

    fn cmp_eq(a: f32, b: f32) -> bool {
        a == b
    }

    fn cmp_lt(a: f32, b: f32) -> bool {
        a < b
    }

    fn cmp_gt(a: f32, b: f32) -> bool {
        a > b
    }

    fn cmp_le(a: f32, b: f32) -> bool {
        a <= b
    }

    fn cmp_ge(a: f32, b: f32) -> bool {
        a >= b
    }
}

fn fun(a: f32) -> bool {
    a > 0.0
}

fn check(cond: &Condition<NumExpr>, a: f32) {
    assert_eq!(Ok(fun(a)), cond.evaluate(&[a]))
}

#[test]
fn condition_test_condition() {
    let cond = Condition::Greater(Box::new(NumExpr::Var(0)), Box::new(NumExpr::Const(0.0)));

    check(&cond, 123.0);
    check(&cond, 0.0);
    check(&cond, -1.4);

    let no_vars: &[f32] = &[];
    assert_eq!(Ok(true), Condition::<NumExpr>::True.evaluate(no_vars));
}

#[test]
fn condition_comparisons_use_native_operators() {
    let no_vars: &[f32] = &[];
    let c = |x: f32| Box::new(NumExpr::Const(x));
    assert_eq!(Ok(true), Condition::Equal(c(5.0), c(5.0)).evaluate(no_vars));
    assert_eq!(Ok(true), Condition::Less(c(0.1), c(0.2)).evaluate(no_vars));
    assert_eq!(Ok(false), Condition::Greater(c(0.1), c(0.2)).evaluate(no_vars));
    assert_eq!(Ok(true), Condition::LessEqual(c(0.2), c(0.2)).evaluate(no_vars));
    assert_eq!(Ok(true), Condition::GreaterEqual(c(0.2), c(0.2)).evaluate(no_vars));
}

#[test]
fn condition_propagates_expression_errors() {
    let cond = Condition::Not(Box::new(Condition::Greater(
        Box::new(NumExpr::Var(3)),
        Box::new(NumExpr::Const(0.0)),
    )));
    assert_eq!(Err(ExpressionError::InvalidVariable), cond.evaluate(&[1.0]));
}

#[test]
fn condition_clone_copies_the_tree() {
    let a = Condition::Or(
        Box::new(Condition::<NumExpr>::True),
        Box::new(Condition::Less(
            Box::new(NumExpr::Var(0)),
            Box::new(NumExpr::Const(1.5)),
        )),
    );
    let b = a.clone();
    assert_eq!(Ok(true), b.evaluate(&[0.5]));
    assert_eq!(a.evaluate(&[2.5]), b.evaluate(&[2.5]));
}
