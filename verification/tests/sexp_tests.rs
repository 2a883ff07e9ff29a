use expression::cond::Cond;
use expression::condition::Condition;
use expression::sexp::{Sexp, SexpTree, ToSexp};
use expression::{Expression, ExpressionError};
use vstd::prelude::Seq;

/// A constant expression over `f32` that projects to its printed value.
#[derive(Debug, Clone, PartialEq)]
struct ConstNum(f32);

impl Expression for ConstNum {
    type Element = f32;

    fn spec_evaluate(&self, _variables: Seq<f32>) -> Result<f32, ExpressionError> {
        unreachable!()
    }

    fn elem_eq(_a: f32, _b: f32) -> bool {
        unreachable!()
    }

    fn elem_lt(_a: f32, _b: f32) -> bool {
        unreachable!()
    }

    fn elem_gt(_a: f32, _b: f32) -> bool {
        unreachable!()
    }

    fn elem_le(_a: f32, _b: f32) -> bool {
        unreachable!()
    }

    fn elem_ge(_a: f32, _b: f32) -> bool {
        unreachable!()
    }

    fn evaluate(&self, _variables: &[f32]) -> Result<f32, ExpressionError> {
        Ok(self.0)
    }

    fn eq_expr(&self, other: &Self) -> bool {
        self == other
    }

    fn cmp_eq(a: f32, b: f32) -> bool {
        a == b
    }

    fn cmp_lt(a: f32, b: f32) -> bool {
        a < b
    }

    fn cmp_gt(a: f32, b: f32) -> bool {
        a > b
    }

    fn cmp_le(a: f32, b: f32) -> bool {
        a <= b
    }

    fn cmp_ge(a: f32, b: f32) -> bool {
        a >= b
    }
}

impl ToSexp for ConstNum {
    fn spec_to_sexp(&self) -> SexpTree {
        unreachable!()
    }

    fn to_sexp(&self) -> Sexp {
        Sexp::atom(&format!("{}", self.0))
    }
}

fn t() -> Box<Cond<ConstNum>> {
    Box::new(Cond::True)
}

fn f() -> Box<Cond<ConstNum>> {
    Box::new(Cond::False)
}

fn c(x: f32) -> Box<ConstNum> {
    Box::new(ConstNum(x))
}

#[test]
fn atoms_render_as_bare_tokens() {
    assert_eq!("true", Sexp::atom("true").to_text());
    assert_eq!("", Sexp::atom("").to_text());
}

#[test]
fn lists_render_parenthesized_and_space_separated() {
    assert_eq!(
        "(not true)",
        Sexp::list2(Sexp::atom("not"), Sexp::atom("true")).to_text()
    );
    assert_eq!(
        "(and true false)",
        Sexp::list3(Sexp::atom("and"), Sexp::atom("true"), Sexp::atom("false")).to_text()
    );
    let nested = Sexp::list2(
        Sexp::atom("not"),
        Sexp::list3(Sexp::atom("or"), Sexp::atom("true"), Sexp::atom("false")),
    );
    assert_eq!("(not (or true false))", nested.to_text());
}

#[test]
fn and_of_literals_projects_to_documented_form() {
    let cond = Cond::And(t(), f());
    assert_eq!("(and true false)", cond.to_sexp().to_text());
}

#[test]
fn every_tag_projects_to_its_own_token() {
    assert_eq!("true", Cond::<ConstNum>::True.to_sexp().to_text());
    assert_eq!("false", Cond::<ConstNum>::False.to_sexp().to_text());
    assert_eq!("(not true)", Cond::Not(t()).to_sexp().to_text());
    assert_eq!("(and true false)", Cond::And(t(), f()).to_sexp().to_text());
    assert_eq!("(or true false)", Cond::Or(t(), f()).to_sexp().to_text());
    assert_eq!("(== 0.5 1.5)", Cond::Equal(c(0.5), c(1.5)).to_sexp().to_text());
    assert_eq!("(< 0.5 1.5)", Cond::Less(c(0.5), c(1.5)).to_sexp().to_text());
    assert_eq!("(> 0.5 1.5)", Cond::Greater(c(0.5), c(1.5)).to_sexp().to_text());
    assert_eq!(
        "(<= 0.5 1.5)",
        Cond::LessEqual(c(0.5), c(1.5)).to_sexp().to_text()
    );
    assert_eq!(
        "(>= 0.5 1.5)",
        Cond::GreaterEqual(c(0.5), c(1.5)).to_sexp().to_text()
    );
}

#[test]
fn projection_is_deterministic() {
    let first = Cond::Not(Box::new(Cond::Equal(c(0.5), c(1.5))));
    let second = Cond::Not(Box::new(Cond::Equal(c(0.5), c(1.5))));
    assert_eq!(first.to_sexp(), second.to_sexp());
    assert_eq!(first.to_sexp().to_text(), second.to_sexp().to_text());
    // Projecting the same tree twice yields the same output both times.
    assert_eq!(first.to_sexp(), first.to_sexp());
}

#[test]
fn condition_variant_projects_the_same_way() {
    let cond = Condition::And(
        Box::new(Condition::<ConstNum>::True),
        Box::new(Condition::<ConstNum>::False),
    );
    assert_eq!("(and true false)", cond.to_sexp().to_text());
    let cmp = Condition::LessEqual(c(0.5), c(1.5));
    assert_eq!("(<= 0.5 1.5)", cmp.to_sexp().to_text());
}
