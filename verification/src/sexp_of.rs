//! Conversion of values into symbolic-expression trees, shape by shape.

use crate::dec::{dec_int, i64_dec_bytes, u64_dec_bytes};
use crate::sexp::{atom, list, views_of, BytesSlice, Sexp, SexpView};
use std::collections::BTreeMap;
use std::collections::HashMap;
use vstd::laws_cmp::obeys_cmp;
use vstd::prelude::*;
use vstd::std_specs::btree::{increasing_seq, spec_btree_map_iter};
use vstd::std_specs::cmp::OrdSpec;
use vstd::std_specs::hash::{obeys_key_model, spec_hash_map_iter};
use vstd::std_specs::iter::IteratorSpec;
use vstd::string::StringSliceAdditionalSpecFns;
use vstd::utf8::encode_utf8;

verus! {

/// A value that converts into a symbolic-expression tree.  The conversion is
/// total, never mutates its input, and returns a freshly owned tree whose
/// model is exactly `to_sexp`.
pub trait SexpOf {
    /// The model of the tree this value converts to.
    spec fn to_sexp(&self) -> SexpView;

    /// Converts the value into a symbolic-expression tree.
    fn sexp_of(&self) -> (s: Sexp)
        ensures
            s@ == self.to_sexp(),
    ;
}

impl SexpOf for u8 {
    open spec fn to_sexp(&self) -> SexpView {
        SexpView::Atom(dec_int(*self as int))
    }

    fn sexp_of(&self) -> (s: Sexp) {
        Sexp::Atom(u64_dec_bytes(*self as u64))
    }
}

impl SexpOf for u16 {
    open spec fn to_sexp(&self) -> SexpView {
        SexpView::Atom(dec_int(*self as int))
    }

    fn sexp_of(&self) -> (s: Sexp) {
        Sexp::Atom(u64_dec_bytes(*self as u64))
    }
}

impl SexpOf for u32 {
    open spec fn to_sexp(&self) -> SexpView {
        SexpView::Atom(dec_int(*self as int))
    }

    fn sexp_of(&self) -> (s: Sexp) {
        Sexp::Atom(u64_dec_bytes(*self as u64))
    }
}

impl SexpOf for u64 {
    open spec fn to_sexp(&self) -> SexpView {
        SexpView::Atom(dec_int(*self as int))
    }

    fn sexp_of(&self) -> (s: Sexp) {
        Sexp::Atom(u64_dec_bytes(*self))
    }
}

impl SexpOf for usize {
    open spec fn to_sexp(&self) -> SexpView {
        SexpView::Atom(dec_int(*self as int))
    }

    fn sexp_of(&self) -> (s: Sexp) {
        Sexp::Atom(u64_dec_bytes(*self as u64))
    }
}

impl SexpOf for i8 {
    open spec fn to_sexp(&self) -> SexpView {
        SexpView::Atom(dec_int(*self as int))
    }

    fn sexp_of(&self) -> (s: Sexp) {
        Sexp::Atom(i64_dec_bytes(*self as i64))
    }
}

impl SexpOf for i16 {
    open spec fn to_sexp(&self) -> SexpView {
        SexpView::Atom(dec_int(*self as int))
    }

    fn sexp_of(&self) -> (s: Sexp) {
        Sexp::Atom(i64_dec_bytes(*self as i64))
    }
}

impl SexpOf for i32 {
    open spec fn to_sexp(&self) -> SexpView {
        SexpView::Atom(dec_int(*self as int))
    }

    fn sexp_of(&self) -> (s: Sexp) {
        Sexp::Atom(i64_dec_bytes(*self as i64))
    }
}

impl SexpOf for i64 {
    open spec fn to_sexp(&self) -> SexpView {
        SexpView::Atom(dec_int(*self as int))
    }

    fn sexp_of(&self) -> (s: Sexp) {
        Sexp::Atom(i64_dec_bytes(*self))
    }
}

impl SexpOf for isize {
    open spec fn to_sexp(&self) -> SexpView {
        SexpView::Atom(dec_int(*self as int))
    }

    fn sexp_of(&self) -> (s: Sexp) {
        Sexp::Atom(i64_dec_bytes(*self as i64))
    }
}

impl SexpOf for String {
    open spec fn to_sexp(&self) -> SexpView {
        SexpView::Atom(encode_utf8(self@))
    }

    fn sexp_of(&self) -> (s: Sexp) {
        atom(self.as_str().as_bytes())
    }
}

impl<'s> SexpOf for &'s str {
    open spec fn to_sexp(&self) -> SexpView {
        SexpView::Atom(encode_utf8(self@))
    }

    fn sexp_of(&self) -> (s: Sexp) {
        atom(self.as_bytes())
    }
}

impl<'a> SexpOf for BytesSlice<'a> {
    open spec fn to_sexp(&self) -> SexpView {
        SexpView::Atom(self.0@)
    }

    fn sexp_of(&self) -> (s: Sexp) {
        atom(self.0)
    }
}

/// The unit value converts to a childless list, the same tree shape as an
/// absent optional value: an intentional collision, so tree shape alone does
/// not distinguish the two.
impl SexpOf for () {
    open spec fn to_sexp(&self) -> SexpView {
        SexpView::List(Seq::empty())
    }

    fn sexp_of(&self) -> (s: Sexp) {
        let children: Vec<Sexp> = Vec::new();
        let ghost cs = children@;
        let s = list(children);
        proof {
            assert(views_of(cs) =~= Seq::<SexpView>::empty());
        }
        s
    }
}

impl<T: SexpOf> SexpOf for Option<T> {
    open spec fn to_sexp(&self) -> SexpView {
        match *self {
            Option::None => SexpView::List(Seq::empty()),
            Option::Some(v) => SexpView::List(seq![v.to_sexp()]),
        }
    }

    fn sexp_of(&self) -> (s: Sexp) {
        match self {
            Option::None => {
                let children: Vec<Sexp> = Vec::new();
                let ghost cs = children@;
                let s = list(children);
                proof {
                    assert(views_of(cs) =~= Seq::<SexpView>::empty());
                }
                s
            },
            Option::Some(v) => {
                let mut children: Vec<Sexp> = Vec::new();
                children.push(v.sexp_of());
                let ghost cs = children@;
                let s = list(children);
                proof {
                    assert(views_of(cs) =~= seq![v.to_sexp()]);
                }
                s
            },
        }
    }
}

impl<T: SexpOf> SexpOf for Box<T> {
    open spec fn to_sexp(&self) -> SexpView {
        (**self).to_sexp()
    }

    fn sexp_of(&self) -> (s: Sexp) {
        (**self).sexp_of()
    }
}

impl<T: SexpOf> SexpOf for Vec<T> {
    open spec fn to_sexp(&self) -> SexpView {
        SexpView::List(Seq::new(self@.len(), |i: int| self@[i].to_sexp()))
    }

    fn sexp_of(&self) -> (s: Sexp) {
        let mut children: Vec<Sexp> = Vec::new();
        let n = self.len();
        let mut i: usize = 0;
        while i < n
            invariant
                n == self@.len(),
                i <= n,
                children@.len() == i as int,
                forall|j: int| 0 <= j < i as int ==> children@[j]@ == self@[j].to_sexp(),
            decreases n - i,
        {
            children.push(self[i].sexp_of());
            i += 1;
        }
        let ghost cs = children@;
        let s = list(children);
        proof {
            assert(views_of(cs) =~= Seq::new(self@.len(), |k: int| self@[k].to_sexp()));
        }
        s
    }
}

impl<T: SexpOf> SexpOf for [T] {
    open spec fn to_sexp(&self) -> SexpView {
        SexpView::List(Seq::new(self@.len(), |i: int| self@[i].to_sexp()))
    }

    fn sexp_of(&self) -> (s: Sexp) {
        let mut children: Vec<Sexp> = Vec::new();
        let n = self.len();
        let mut i: usize = 0;
        while i < n
            invariant
                n == self@.len(),
                i <= n,
                children@.len() == i as int,
                forall|j: int| 0 <= j < i as int ==> children@[j]@ == self@[j].to_sexp(),
            decreases n - i,
        {
            children.push(vstd::slice::slice_index_get(self, i).sexp_of());
            i += 1;
        }
        let ghost cs = children@;
        let s = list(children);
        proof {
            assert(views_of(cs) =~= Seq::new(self@.len(), |k: int| self@[k].to_sexp()));
        }
        s
    }
}

impl<A: SexpOf> SexpOf for (A,) {
    open spec fn to_sexp(&self) -> SexpView {
        SexpView::List(seq![self.0.to_sexp()])
    }

    fn sexp_of(&self) -> (s: Sexp) {
        let mut children: Vec<Sexp> = Vec::new();
        children.push(self.0.sexp_of());
        let ghost cs = children@;
        let s = list(children);
        proof {
            assert(views_of(cs) =~= seq![self.0.to_sexp()]);
        }
        s
    }
}

impl<A: SexpOf, B: SexpOf> SexpOf for (A, B) {
    open spec fn to_sexp(&self) -> SexpView {
        SexpView::List(seq![self.0.to_sexp(), self.1.to_sexp()])
    }

    fn sexp_of(&self) -> (s: Sexp) {
        let mut children: Vec<Sexp> = Vec::new();
        children.push(self.0.sexp_of());
        children.push(self.1.sexp_of());
        let ghost cs = children@;
        let s = list(children);
        proof {
            assert(views_of(cs) =~= seq![self.0.to_sexp(), self.1.to_sexp()]);
        }
        s
    }
}

impl<A: SexpOf, B: SexpOf, C: SexpOf> SexpOf for (A, B, C) {
    open spec fn to_sexp(&self) -> SexpView {
        SexpView::List(seq![self.0.to_sexp(), self.1.to_sexp(), self.2.to_sexp()])
    }

    fn sexp_of(&self) -> (s: Sexp) {
        let mut children: Vec<Sexp> = Vec::new();
        children.push(self.0.sexp_of());
        children.push(self.1.sexp_of());
        children.push(self.2.sexp_of());
        let ghost cs = children@;
        let s = list(children);
        proof {
            assert(views_of(cs) =~= seq![self.0.to_sexp(), self.1.to_sexp(), self.2.to_sexp()]);
        }
        s
    }
}

impl<A: SexpOf, B: SexpOf, C: SexpOf, D: SexpOf> SexpOf for (A, B, C, D) {
    open spec fn to_sexp(&self) -> SexpView {
        SexpView::List(seq![self.0.to_sexp(), self.1.to_sexp(), self.2.to_sexp(), self.3.to_sexp()])
    }

    fn sexp_of(&self) -> (s: Sexp) {
        let mut children: Vec<Sexp> = Vec::new();
        children.push(self.0.sexp_of());
        children.push(self.1.sexp_of());
        children.push(self.2.sexp_of());
        children.push(self.3.sexp_of());
        let ghost cs = children@;
        let s = list(children);
        proof {
            assert(views_of(cs) =~= seq![self.0.to_sexp(), self.1.to_sexp(), self.2.to_sexp(), self.3.to_sexp()]);
        }
        s
    }
}

impl<A: SexpOf, B: SexpOf, C: SexpOf, D: SexpOf, E: SexpOf> SexpOf for (A, B, C, D, E) {
    open spec fn to_sexp(&self) -> SexpView {
        SexpView::List(seq![self.0.to_sexp(), self.1.to_sexp(), self.2.to_sexp(), self.3.to_sexp(), self.4.to_sexp()])
    }

    fn sexp_of(&self) -> (s: Sexp) {
        let mut children: Vec<Sexp> = Vec::new();
        children.push(self.0.sexp_of());
        children.push(self.1.sexp_of());
        children.push(self.2.sexp_of());
        children.push(self.3.sexp_of());
        children.push(self.4.sexp_of());
        let ghost cs = children@;
        let s = list(children);
        proof {
            assert(views_of(cs) =~= seq![self.0.to_sexp(), self.1.to_sexp(), self.2.to_sexp(), self.3.to_sexp(), self.4.to_sexp()]);
        }
        s
    }
}

impl<A: SexpOf, B: SexpOf, C: SexpOf, D: SexpOf, E: SexpOf, F: SexpOf> SexpOf for (A, B, C, D, E, F) {
    open spec fn to_sexp(&self) -> SexpView {
        SexpView::List(seq![self.0.to_sexp(), self.1.to_sexp(), self.2.to_sexp(), self.3.to_sexp(), self.4.to_sexp(), self.5.to_sexp()])
    }

    fn sexp_of(&self) -> (s: Sexp) {
        let mut children: Vec<Sexp> = Vec::new();
        children.push(self.0.sexp_of());
        children.push(self.1.sexp_of());
        children.push(self.2.sexp_of());
        children.push(self.3.sexp_of());
        children.push(self.4.sexp_of());
        children.push(self.5.sexp_of());
        let ghost cs = children@;
        let s = list(children);
        proof {
            assert(views_of(cs) =~= seq![self.0.to_sexp(), self.1.to_sexp(), self.2.to_sexp(), self.3.to_sexp(), self.4.to_sexp(), self.5.to_sexp()]);
        }
        s
    }
}

impl<A: SexpOf, B: SexpOf, C: SexpOf, D: SexpOf, E: SexpOf, F: SexpOf, G: SexpOf> SexpOf for (A, B, C, D, E, F, G) {
    open spec fn to_sexp(&self) -> SexpView {
        SexpView::List(seq![self.0.to_sexp(), self.1.to_sexp(), self.2.to_sexp(), self.3.to_sexp(), self.4.to_sexp(), self.5.to_sexp(), self.6.to_sexp()])
    }

    fn sexp_of(&self) -> (s: Sexp) {
        let mut children: Vec<Sexp> = Vec::new();
        children.push(self.0.sexp_of());
        children.push(self.1.sexp_of());
        children.push(self.2.sexp_of());
        children.push(self.3.sexp_of());
        children.push(self.4.sexp_of());
        children.push(self.5.sexp_of());
        children.push(self.6.sexp_of());
        let ghost cs = children@;
        let s = list(children);
        proof {
            assert(views_of(cs) =~= seq![self.0.to_sexp(), self.1.to_sexp(), self.2.to_sexp(), self.3.to_sexp(), self.4.to_sexp(), self.5.to_sexp(), self.6.to_sexp()]);
        }
        s
    }
}

impl<A: SexpOf, B: SexpOf, C: SexpOf, D: SexpOf, E: SexpOf, F: SexpOf, G: SexpOf, H: SexpOf> SexpOf for (A, B, C, D, E, F, G, H) {
    open spec fn to_sexp(&self) -> SexpView {
        SexpView::List(seq![self.0.to_sexp(), self.1.to_sexp(), self.2.to_sexp(), self.3.to_sexp(), self.4.to_sexp(), self.5.to_sexp(), self.6.to_sexp(), self.7.to_sexp()])
    }

    fn sexp_of(&self) -> (s: Sexp) {
        let mut children: Vec<Sexp> = Vec::new();
        children.push(self.0.sexp_of());
        children.push(self.1.sexp_of());
        children.push(self.2.sexp_of());
        children.push(self.3.sexp_of());
        children.push(self.4.sexp_of());
        children.push(self.5.sexp_of());
        children.push(self.6.sexp_of());
        children.push(self.7.sexp_of());
        let ghost cs = children@;
        let s = list(children);
        proof {
            assert(views_of(cs) =~= seq![self.0.to_sexp(), self.1.to_sexp(), self.2.to_sexp(), self.3.to_sexp(), self.4.to_sexp(), self.5.to_sexp(), self.6.to_sexp(), self.7.to_sexp()]);
        }
        s
    }
}

impl<A: SexpOf, B: SexpOf, C: SexpOf, D: SexpOf, E: SexpOf, F: SexpOf, G: SexpOf, H: SexpOf, I: SexpOf> SexpOf for (A, B, C, D, E, F, G, H, I) {
    open spec fn to_sexp(&self) -> SexpView {
        SexpView::List(seq![self.0.to_sexp(), self.1.to_sexp(), self.2.to_sexp(), self.3.to_sexp(), self.4.to_sexp(), self.5.to_sexp(), self.6.to_sexp(), self.7.to_sexp(), self.8.to_sexp()])
    }

    fn sexp_of(&self) -> (s: Sexp) {
        let mut children: Vec<Sexp> = Vec::new();
        children.push(self.0.sexp_of());
        children.push(self.1.sexp_of());
        children.push(self.2.sexp_of());
        children.push(self.3.sexp_of());
        children.push(self.4.sexp_of());
        children.push(self.5.sexp_of());
        children.push(self.6.sexp_of());
        children.push(self.7.sexp_of());
        children.push(self.8.sexp_of());
        let ghost cs = children@;
        let s = list(children);
        proof {
            assert(views_of(cs) =~= seq![self.0.to_sexp(), self.1.to_sexp(), self.2.to_sexp(), self.3.to_sexp(), self.4.to_sexp(), self.5.to_sexp(), self.6.to_sexp(), self.7.to_sexp(), self.8.to_sexp()]);
        }
        s
    }
}

impl<A: SexpOf, B: SexpOf, C: SexpOf, D: SexpOf, E: SexpOf, F: SexpOf, G: SexpOf, H: SexpOf, I: SexpOf, J: SexpOf> SexpOf for (A, B, C, D, E, F, G, H, I, J) {
    open spec fn to_sexp(&self) -> SexpView {
        SexpView::List(seq![self.0.to_sexp(), self.1.to_sexp(), self.2.to_sexp(), self.3.to_sexp(), self.4.to_sexp(), self.5.to_sexp(), self.6.to_sexp(), self.7.to_sexp(), self.8.to_sexp(), self.9.to_sexp()])
    }

    fn sexp_of(&self) -> (s: Sexp) {
        let mut children: Vec<Sexp> = Vec::new();
        children.push(self.0.sexp_of());
        children.push(self.1.sexp_of());
        children.push(self.2.sexp_of());
        children.push(self.3.sexp_of());
        children.push(self.4.sexp_of());
        children.push(self.5.sexp_of());
        children.push(self.6.sexp_of());
        children.push(self.7.sexp_of());
        children.push(self.8.sexp_of());
        children.push(self.9.sexp_of());
        let ghost cs = children@;
        let s = list(children);
        proof {
            assert(views_of(cs) =~= seq![self.0.to_sexp(), self.1.to_sexp(), self.2.to_sexp(), self.3.to_sexp(), self.4.to_sexp(), self.5.to_sexp(), self.6.to_sexp(), self.7.to_sexp(), self.8.to_sexp(), self.9.to_sexp()]);
        }
        s
    }
}


/// The key/value entries of a hash map, in the order its iterator yields
/// them: an order the map may choose freely, fixed for a given map.
pub open spec fn hash_map_entries<K, V>(m: &HashMap<K, V>) -> Seq<(K, V)> {
    vstd::std_specs::hash::into_iter(spec_hash_map_iter(m))
}

/// The key/value entries of a sort-ordered map, in the order its iterator
/// yields them: ascending key order.
pub open spec fn btree_map_entries<K, V>(m: &BTreeMap<K, V>) -> Seq<(K, V)> {
    vstd::std_specs::btree::into_iter(spec_btree_map_iter(m))
}

/// The model of each entry in turn as a two-child list: the key's tree, then
/// the value's tree.
pub open spec fn entry_views<K: SexpOf, V: SexpOf>(kvs: Seq<(K, V)>) -> Seq<SexpView> {
    Seq::new(kvs.len(), |i: int| SexpView::List(seq![kvs[i].0.to_sexp(), kvs[i].1.to_sexp()]))
}

/// Converts a hash map into a list node with one two-child list per entry,
/// `[key, value]`, in the map's own iteration order.  The order is
/// implementation-defined; callers that need a reproducible rendering should
/// convert a sort-ordered map instead.
pub fn hash_map_sexp_of<K: SexpOf, V: SexpOf>(m: &HashMap<K, V>) -> (s: Sexp)
    requires
        obeys_key_model::<K>(),
    ensures
        s@ == SexpView::List(entry_views(hash_map_entries(m))),
        hash_map_entries(m).len() == m@.dom().len(),
        forall|i: int|
            0 <= i < hash_map_entries(m).len() ==> m@.contains_key(
                #[trigger] hash_map_entries(m)[i].0,
            ) && m@[hash_map_entries(m)[i].0] == hash_map_entries(m)[i].1,
{
    let mut children: Vec<Sexp> = Vec::new();
    for kv in it: m.iter()
        invariant
            obeys_key_model::<K>(),
            it.seq().unref() == hash_map_entries(m),
            children@.len() == it.index(),
            forall|j: int|
                0 <= j < it.index() ==> children@[j]@ == SexpView::List(
                    seq![it.seq()[j].0.to_sexp(), it.seq()[j].1.to_sexp()],
                ),
    {
        let mut pair: Vec<Sexp> = Vec::new();
        pair.push(kv.0.sexp_of());
        pair.push(kv.1.sexp_of());
        let ghost ps = pair@;
        let entry = list(pair);
        proof {
            assert(views_of(ps) =~= seq![kv.0.to_sexp(), kv.1.to_sexp()]);
        }
        children.push(entry);
    }
    let ghost cs = children@;
    let s = list(children);
    proof {
        assert(views_of(cs) =~= entry_views(hash_map_entries(m)));
    }
    s
}

/// Converts a sort-ordered map into a list node with one two-child list per
/// entry, `[key, value]`, in ascending key order.
pub fn btree_map_sexp_of<K: SexpOf + Ord, V: SexpOf>(m: &BTreeMap<K, V>) -> (s: Sexp)
    requires
        obeys_cmp::<K>(),
    ensures
        s@ == SexpView::List(entry_views(btree_map_entries(m))),
        btree_map_entries(m).len() == m@.dom().len(),
        forall|i: int|
            0 <= i < btree_map_entries(m).len() ==> m@.contains_key(
                #[trigger] btree_map_entries(m)[i].0,
            ) && m@[btree_map_entries(m)[i].0] == btree_map_entries(m)[i].1,
        forall|i: int, j: int|
            0 <= i < j < btree_map_entries(m).len() ==> (#[trigger] btree_map_entries(
                m,
            )[i].0.cmp_spec(&btree_map_entries(m)[j].0)) is Less,
{
    // The first iterator is consumed purely for its contract: it pins the
    // entry sequence to the map and carries the ascending-key fact, which the
    // proof below turns into the pairwise form the postcondition states.
    let probe = m.iter();
    proof {
        let rem = IteratorSpec::remaining(&probe);
        let ks = rem.map_values(|kv: (&K, &V)| *kv.0);
        assert(increasing_seq(ks));
        assert(rem.unref() == btree_map_entries(m));
        assert forall|i: int, j: int|
            0 <= i < j < btree_map_entries(m).len() implies (#[trigger] btree_map_entries(
            m,
        )[i].0.cmp_spec(&btree_map_entries(m)[j].0)) is Less by {
            assert(ks[i] == btree_map_entries(m)[i].0);
            assert(ks[j] == btree_map_entries(m)[j].0);
        }
    }
    let mut children: Vec<Sexp> = Vec::new();
    for kv in it: m.iter()
        invariant
            obeys_cmp::<K>(),
            it.seq().unref() == btree_map_entries(m),
            forall|i: int, j: int|
                0 <= i < j < btree_map_entries(m).len() ==> (#[trigger] btree_map_entries(
                    m,
                )[i].0.cmp_spec(&btree_map_entries(m)[j].0)) is Less,
            children@.len() == it.index(),
            forall|j: int|
                0 <= j < it.index() ==> children@[j]@ == SexpView::List(
                    seq![it.seq()[j].0.to_sexp(), it.seq()[j].1.to_sexp()],
                ),
    {
        let mut pair: Vec<Sexp> = Vec::new();
        pair.push(kv.0.sexp_of());
        pair.push(kv.1.sexp_of());
        let ghost ps = pair@;
        let entry = list(pair);
        proof {
            assert(views_of(ps) =~= seq![kv.0.to_sexp(), kv.1.to_sexp()]);
        }
        children.push(entry);
    }
    let ghost cs = children@;
    let s = list(children);
    proof {
        assert(views_of(cs) =~= entry_views(btree_map_entries(m)));
    }
    s
}

// Maps take part in the polymorphic conversion for every key type whose
// comparison and hashing behaviour the verifier's standard library models:
// the integer types below.  Maps with other key types convert through
// `btree_map_sexp_of` and `hash_map_sexp_of` directly.

impl<V: SexpOf> SexpOf for BTreeMap<u8, V> {
    open spec fn to_sexp(&self) -> SexpView {
        SexpView::List(entry_views(btree_map_entries(self)))
    }

    fn sexp_of(&self) -> (s: Sexp) {
        btree_map_sexp_of(self)
    }
}

impl<V: SexpOf> SexpOf for BTreeMap<u16, V> {
    open spec fn to_sexp(&self) -> SexpView {
        SexpView::List(entry_views(btree_map_entries(self)))
    }

    fn sexp_of(&self) -> (s: Sexp) {
        btree_map_sexp_of(self)
    }
}

impl<V: SexpOf> SexpOf for BTreeMap<u32, V> {
    open spec fn to_sexp(&self) -> SexpView {
        SexpView::List(entry_views(btree_map_entries(self)))
    }

    fn sexp_of(&self) -> (s: Sexp) {
        btree_map_sexp_of(self)
    }
}

impl<V: SexpOf> SexpOf for BTreeMap<u64, V> {
    open spec fn to_sexp(&self) -> SexpView {
        SexpView::List(entry_views(btree_map_entries(self)))
    }

    fn sexp_of(&self) -> (s: Sexp) {
        btree_map_sexp_of(self)
    }
}

impl<V: SexpOf> SexpOf for BTreeMap<usize, V> {
    open spec fn to_sexp(&self) -> SexpView {
        SexpView::List(entry_views(btree_map_entries(self)))
    }

    fn sexp_of(&self) -> (s: Sexp) {
        btree_map_sexp_of(self)
    }
}

impl<V: SexpOf> SexpOf for BTreeMap<i8, V> {
    open spec fn to_sexp(&self) -> SexpView {
        SexpView::List(entry_views(btree_map_entries(self)))
    }

    fn sexp_of(&self) -> (s: Sexp) {
        btree_map_sexp_of(self)
    }
}

impl<V: SexpOf> SexpOf for BTreeMap<i16, V> {
    open spec fn to_sexp(&self) -> SexpView {
        SexpView::List(entry_views(btree_map_entries(self)))
    }

    fn sexp_of(&self) -> (s: Sexp) {
        btree_map_sexp_of(self)
    }
}

impl<V: SexpOf> SexpOf for BTreeMap<i32, V> {
    open spec fn to_sexp(&self) -> SexpView {
        SexpView::List(entry_views(btree_map_entries(self)))
    }

    fn sexp_of(&self) -> (s: Sexp) {
        btree_map_sexp_of(self)
    }
}

impl<V: SexpOf> SexpOf for BTreeMap<i64, V> {
    open spec fn to_sexp(&self) -> SexpView {
        SexpView::List(entry_views(btree_map_entries(self)))
    }

    fn sexp_of(&self) -> (s: Sexp) {
        btree_map_sexp_of(self)
    }
}

impl<V: SexpOf> SexpOf for BTreeMap<isize, V> {
    open spec fn to_sexp(&self) -> SexpView {
        SexpView::List(entry_views(btree_map_entries(self)))
    }

    fn sexp_of(&self) -> (s: Sexp) {
        btree_map_sexp_of(self)
    }
}

impl<V: SexpOf> SexpOf for HashMap<u8, V> {
    open spec fn to_sexp(&self) -> SexpView {
        SexpView::List(entry_views(hash_map_entries(self)))
    }

    fn sexp_of(&self) -> (s: Sexp) {
        hash_map_sexp_of(self)
    }
}

impl<V: SexpOf> SexpOf for HashMap<u16, V> {
    open spec fn to_sexp(&self) -> SexpView {
        SexpView::List(entry_views(hash_map_entries(self)))
    }

    fn sexp_of(&self) -> (s: Sexp) {
        hash_map_sexp_of(self)
    }
}

impl<V: SexpOf> SexpOf for HashMap<u32, V> {
    open spec fn to_sexp(&self) -> SexpView {
        SexpView::List(entry_views(hash_map_entries(self)))
    }

    fn sexp_of(&self) -> (s: Sexp) {
        hash_map_sexp_of(self)
    }
}

impl<V: SexpOf> SexpOf for HashMap<u64, V> {
    open spec fn to_sexp(&self) -> SexpView {
        SexpView::List(entry_views(hash_map_entries(self)))
    }

    fn sexp_of(&self) -> (s: Sexp) {
        hash_map_sexp_of(self)
    }
}

impl<V: SexpOf> SexpOf for HashMap<usize, V> {
    open spec fn to_sexp(&self) -> SexpView {
        SexpView::List(entry_views(hash_map_entries(self)))
    }

    fn sexp_of(&self) -> (s: Sexp) {
        hash_map_sexp_of(self)
    }
}

impl<V: SexpOf> SexpOf for HashMap<i8, V> {
    open spec fn to_sexp(&self) -> SexpView {
        SexpView::List(entry_views(hash_map_entries(self)))
    }

    fn sexp_of(&self) -> (s: Sexp) {
        hash_map_sexp_of(self)
    }
}

impl<V: SexpOf> SexpOf for HashMap<i16, V> {
    open spec fn to_sexp(&self) -> SexpView {
        SexpView::List(entry_views(hash_map_entries(self)))
    }

    fn sexp_of(&self) -> (s: Sexp) {
        hash_map_sexp_of(self)
    }
}

impl<V: SexpOf> SexpOf for HashMap<i32, V> {
    open spec fn to_sexp(&self) -> SexpView {
        SexpView::List(entry_views(hash_map_entries(self)))
    }

    fn sexp_of(&self) -> (s: Sexp) {
        hash_map_sexp_of(self)
    }
}

impl<V: SexpOf> SexpOf for HashMap<i64, V> {
    open spec fn to_sexp(&self) -> SexpView {
        SexpView::List(entry_views(hash_map_entries(self)))
    }

    fn sexp_of(&self) -> (s: Sexp) {
        hash_map_sexp_of(self)
    }
}

impl<V: SexpOf> SexpOf for HashMap<isize, V> {
    open spec fn to_sexp(&self) -> SexpView {
        SexpView::List(entry_views(hash_map_entries(self)))
    }

    fn sexp_of(&self) -> (s: Sexp) {
        hash_map_sexp_of(self)
    }
}

} // verus!
