//! A generic tagged textual tree for serialization output: an atom is a bare
//! token, a list is a parenthesized, space-separated sequence of sub-values.

use vstd::prelude::*;
use vstd::string::StringExecFns;

verus! {

/// The mathematical model of an S-expression value: an atom holding a token,
/// or a list of sub-values.
#[verifier::ext_equal]
pub enum SexpTree {
    Atom(Seq<char>),
    List(Seq<SexpTree>),
}

/// An S-expression value: an atom holding a token, or a list of sub-values.
///
/// Its textual form (see [`Sexp::to_text`]) renders an atom as its bare token
/// and a list as a parenthesized, space-separated sequence.
#[derive(Debug, PartialEq)]
pub enum Sexp {
    Atom(String),
    List(Vec<Sexp>),
}

impl View for Sexp {
    type V = SexpTree;

    open spec fn view(&self) -> SexpTree
        decreases self,
    {
        match self {
            Sexp::Atom(token) => SexpTree::Atom(token@),
            Sexp::List(items) => SexpTree::List(views_of_items(items@)),
        }
    }
}

/// The views of a sequence of S-expression values, element for element.
pub open spec fn views_of_items(items: Seq<Sexp>) -> Seq<SexpTree>
    decreases items,
{
    if items.len() == 0 {
        Seq::<SexpTree>::empty()
    } else {
        views_of_items(items.drop_last()).push(items.last()@)
    }
}

/// The view of a list of S-expression values keeps its length and views each
/// element in place.
pub proof fn lemma_views_of_items(items: Seq<Sexp>)
    ensures
        views_of_items(items).len() == items.len(),
        forall|i: int| 0 <= i < items.len() ==> views_of_items(items)[i] == #[trigger] items[i]@,
    decreases items,
{
    if items.len() == 0 {
        assert(views_of_items(items) == Seq::<SexpTree>::empty());
    } else {
        let rest = items.drop_last();
        lemma_views_of_items(rest);
        assert(views_of_items(items) == views_of_items(rest).push(items.last()@));
        assert forall|i: int| 0 <= i < items.len() implies views_of_items(items)[i] == #[trigger] items[i]@ by {
            if i < items.len() - 1 {
                assert(items[i] == rest[i]);
                assert(views_of_items(items)[i] == views_of_items(rest)[i]);
            } else {
                assert(items[i] == items.last());
            }
        }
    }
}

/// The textual form of an S-expression: an atom is its bare token, a list is
/// a parenthesized, space-separated sequence of the forms of its items.
pub open spec fn text_of(t: SexpTree) -> Seq<char>
    decreases t,
{
    match t {
        SexpTree::Atom(token) => token,
        SexpTree::List(items) => "("@ + text_of_items(items) + ")"@,
    }
}

/// The textual forms of the items of a list, separated by single spaces.
pub open spec fn text_of_items(items: Seq<SexpTree>) -> Seq<char>
    decreases items,
{
    if items.len() == 0 {
        Seq::<char>::empty()
    } else if items.len() == 1 {
        text_of(items[0])
    } else {
        text_of_items(items.drop_last()) + " "@ + text_of(items.last())
    }
}

/// Extending a list by one item appends a space (except before the first
/// item) and the item's textual form.
proof fn lemma_text_of_items_take(vs: Seq<SexpTree>, i: int)
    requires
        0 <= i < vs.len(),
    ensures
        text_of_items(vs.take(i + 1)) == (if i == 0 {
            text_of(vs[0])
        } else {
            text_of_items(vs.take(i)) + " "@ + text_of(vs[i])
        }),
{
    let cur = vs.take(i + 1);
    assert(cur.drop_last() =~= vs.take(i));
    assert(cur.last() == vs[i]);
    if i == 0 {
        assert(cur[0] == vs[0]);
    }
}

impl Sexp {
    /// Builds an atom holding the given token.
    pub fn atom(token: &str) -> (r: Sexp)
        ensures
            r@ == SexpTree::Atom(token@),
    {
        Sexp::Atom(String::from_str(token))
    }

    /// Builds a two-item list, most often an operator token and its operand.
    pub fn list2(a: Sexp, b: Sexp) -> (r: Sexp)
        ensures
            r@ == SexpTree::List(seq![a@, b@]),
    {
        let ghost va = a@;
        let ghost vb = b@;
        let mut items: Vec<Sexp> = Vec::new();
        items.push(a);
        items.push(b);
        let r = Sexp::List(items);
        proof {
            lemma_views_of_items(items@);
            assert(items@[0]@ == va);
            assert(items@[1]@ == vb);
            assert(views_of_items(items@) =~= seq![va, vb]);
        }
        r
    }

    /// Builds a three-item list, most often an operator token and its two
    /// operands.
    pub fn list3(a: Sexp, b: Sexp, c: Sexp) -> (r: Sexp)
        ensures
            r@ == SexpTree::List(seq![a@, b@, c@]),
    {
        let ghost va = a@;
        let ghost vb = b@;
        let ghost vc = c@;
        let mut items: Vec<Sexp> = Vec::new();
        items.push(a);
        items.push(b);
        items.push(c);
        let r = Sexp::List(items);
        proof {
            lemma_views_of_items(items@);
            assert(items@[0]@ == va);
            assert(items@[1]@ == vb);
            assert(items@[2]@ == vc);
            assert(views_of_items(items@) =~= seq![va, vb, vc]);
        }
        r
    }

    /// Renders the S-expression as text.
    #[verifier::loop_isolation(false)]
    pub fn to_text(&self) -> (r: String)
        ensures
            r@ == text_of(self@),
        decreases self,
    {
        match self {
            Sexp::Atom(token) => token.clone(),
            Sexp::List(items) => {
                let ghost vs = views_of_items(items@);
                proof {
                    lemma_views_of_items(items@);
                }
                let mut out = String::from_str("(");
                let n = items.len();
                let mut i: usize = 0;
                while i < n
                    invariant
                        n == items@.len(),
                        vs == views_of_items(items@),
                        vs.len() == n,
                        forall|j: int| 0 <= j < n ==> vs[j] == #[trigger] items@[j]@,
                        i <= n,
                        out@ == "("@ + text_of_items(vs.take(i as int)),
                    decreases n - i,
                {
                    if i > 0 {
                        out.append(" ");
                    }
                    let t = items[i].to_text();
                    out.append(t.as_str());
                    proof {
                        lemma_text_of_items_take(vs, i as int);
                        assert(out@ =~= "("@ + text_of_items(vs.take(i + 1 as int)));
                    }
                    i = i + 1;
                }
                out.append(")");
                proof {
                    assert(vs.take(n as int) =~= vs);
                    assert(out@ =~= text_of(self@));
                }
                out
            },
        }
    }
}

/// The head token of an S-expression: an atom's own token, or the token of
/// the atom heading a list.
pub open spec fn head_of(t: SexpTree) -> Seq<char> {
    match t {
        SexpTree::Atom(token) => token,
        SexpTree::List(items) => if items.len() > 0 && items[0] is Atom {
            items[0]->Atom_0
        } else {
            Seq::<char>::empty()
        },
    }
}

/// A value that can be projected into the shared S-expression tree form.
///
/// The projection is a pure function of the value: what [`ToSexp::to_sexp`]
/// builds is stated, node for node, by [`ToSexp::spec_to_sexp`].
pub trait ToSexp: Sized {
    /// The S-expression that [`ToSexp::to_sexp`] builds, as a function of the
    /// value alone.
    spec fn spec_to_sexp(&self) -> SexpTree;

    /// Projects the value into an S-expression.
    fn to_sexp(&self) -> (r: Sexp)
        ensures
            r@ == self.spec_to_sexp(),
    ;
}

} // verus!
