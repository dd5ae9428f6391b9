//! General properties of the conversion, stated and proved once for all
//! inputs.

use crate::dec::{dec_digits, dec_int, lemma_dec_digits_canonical};
use crate::sexp::{Sexp, SexpView};
use crate::sexp_of::{btree_map_entries, entry_views, SexpOf};
use std::collections::BTreeMap;
use vstd::prelude::*;

verus! {

/// Conversion is deterministic: any two trees whose models are the tree of
/// the same value are identical as trees.
pub proof fn lemma_conversion_deterministic<T: SexpOf>(x: &T, s1: Sexp, s2: Sexp)
    requires
        s1@ == x.to_sexp(),
        s2@ == x.to_sexp(),
    ensures
        s1@ == s2@,
{
}

/// An unsigned integer converts to an atom holding its canonical decimal
/// rendering: at least one byte, every byte an ASCII digit, no leading zero
/// except for zero itself.
pub proof fn lemma_uint_atom_canonical(n: u64)
    ensures
        n.to_sexp() == SexpView::Atom(dec_digits(n as nat)),
        dec_digits(n as nat).len() >= 1,
        forall|i: int|
            0 <= i < dec_digits(n as nat).len() ==> 48 <= #[trigger] dec_digits(n as nat)[i]
                <= 57,
        dec_digits(n as nat)[0] == 48 <==> n == 0,
{
    lemma_dec_digits_canonical(n as nat);
}

/// A signed integer converts to an atom holding its canonical decimal
/// rendering: a minus sign exactly when the integer is negative, followed by
/// the canonical digits of its absolute value.
pub proof fn lemma_sint_atom_canonical(n: i64)
    ensures
        n.to_sexp() == SexpView::Atom(dec_int(n as int)),
        n < 0 ==> dec_int(n as int) == seq![45u8] + dec_digits((-(n as int)) as nat),
        n >= 0 ==> dec_int(n as int) == dec_digits(n as nat),
        dec_int(n as int)[0] == 45 <==> n < 0,
{
    if n < 0 {
        lemma_dec_digits_canonical((-(n as int)) as nat);
    } else {
        lemma_dec_digits_canonical(n as nat);
    }
}

/// A sequence converts to a list with exactly one child per element, in the
/// original order, each child the element's own tree.
pub proof fn lemma_seq_children<T: SexpOf>(v: &Vec<T>)
    ensures
        v.to_sexp() matches SexpView::List(cs) && cs.len() == v@.len() && forall|i: int|
            0 <= i < v@.len() ==> cs[i] == #[trigger] v@[i].to_sexp(),
{
}

/// A borrowed text reference converts to an atom holding exactly the text's
/// bytes; for ASCII text those are the characters themselves, one byte each.
pub proof fn lemma_ascii_text_bytes(s: &str)
    requires
        vstd::string::is_ascii(s),
    ensures
        s.to_sexp() == SexpView::Atom(Seq::new(s@.len(), |i: int| s@[i] as u8)),
{
    vstd::string::is_ascii_spec_bytes(s);
    assert(Seq::new(s@.len(), |i: int| s@[i] as u8) =~= vstd::utf8::encode_utf8(s@));
}

/// A present optional value converts to a one-child list holding the wrapped
/// value's tree; an absent one converts to a childless list.  The two trees
/// differ for every wrapped value.
pub proof fn lemma_option_distinguishable<T: SexpOf>(x: T)
    ensures
        Some(x).to_sexp() == SexpView::List(seq![x.to_sexp()]),
        None::<T>.to_sexp() == SexpView::List(Seq::empty()),
        Some(x).to_sexp() != None::<T>.to_sexp(),
{
    assert(seq![x.to_sexp()].len() == 1);
}

/// The unit value converts to the same childless list as an absent optional
/// value of any type: an intentional, documented collision of tree shapes.
pub proof fn lemma_unit_matches_absent<T: SexpOf>()
    ensures
        ().to_sexp() == None::<T>.to_sexp(),
{
}

/// Repeated conversion of the same sort-ordered map yields identical trees:
/// the model of the result is a function of the map alone.
pub proof fn lemma_btree_conversion_deterministic<K: SexpOf + Ord, V: SexpOf>(
    m: &BTreeMap<K, V>,
    s1: Sexp,
    s2: Sexp,
)
    requires
        s1@ == SexpView::List(entry_views(btree_map_entries(m))),
        s2@ == SexpView::List(entry_views(btree_map_entries(m))),
    ensures
        s1@ == s2@,
{
}

} // verus!
