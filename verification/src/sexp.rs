//! The symbolic-expression tree and its mathematical model.

use vstd::prelude::*;
use vstd::slice::slice_to_vec;

verus! {

/// Mathematical model of a symbolic-expression tree: an atom is a sequence of
/// raw bytes, a list is an ordered sequence of subtree models.
pub enum SexpView {
    Atom(Seq<u8>),
    List(Seq<SexpView>),
}

/// A symbolic-expression tree node: an atom owns its raw bytes, a list owns
/// its child nodes in order.
#[derive(Debug, PartialEq, Eq)]
pub enum Sexp {
    Atom(Vec<u8>),
    List(Vec<Sexp>),
}

/// The model of an executable tree node: atoms keep their bytes, lists keep
/// the models of their children in order.
pub open spec fn sexp_view(s: Sexp) -> SexpView
    decreases s,
{
    match s {
        Sexp::Atom(bytes) => SexpView::Atom(bytes@),
        Sexp::List(children) => SexpView::List(views_of(children@)),
    }
}

impl View for Sexp {
    type V = SexpView;

    open spec fn view(&self) -> SexpView {
        sexp_view(*self)
    }
}

/// The models of a sequence of tree nodes, element by element.  The range
/// test inside the closure bounds the index for the termination check and
/// does not affect the sequence, whose elements all lie in range.
pub open spec fn views_of(nodes: Seq<Sexp>) -> Seq<SexpView>
    decreases nodes,
{
    Seq::new(
        nodes.len(),
        |i: int|
            if 0 <= i < nodes.len() {
                sexp_view(nodes[i])
            } else {
                SexpView::Atom(Seq::empty())
            },
    )
}

/// A borrowed slice of raw bytes to be converted into an atom unchanged,
/// rather than character by character as text would be.
pub struct BytesSlice<'a>(pub &'a [u8]);

/// Builds an atom node holding exactly the given bytes.
pub fn atom(bytes: &[u8]) -> (s: Sexp)
    ensures
        s@ == SexpView::Atom(bytes@),
{
    Sexp::Atom(slice_to_vec(bytes))
}

/// Builds a list node holding exactly the given children, in order.
pub fn list(children: Vec<Sexp>) -> (s: Sexp)
    ensures
        s@ == SexpView::List(views_of(children@)),
{
    Sexp::List(children)
}

} // verus!
