use rsexp::sexp::Sexp;
use rsexp::sexp_of::{btree_map_sexp_of, hash_map_sexp_of, SexpOf};
use std::collections::{BTreeMap, HashMap};

fn atom(bytes: &[u8]) -> Sexp {
    Sexp::Atom(bytes.to_vec())
}

fn list(children: Vec<Sexp>) -> Sexp {
    Sexp::List(children)
}

#[test]
fn empty_maps_become_empty_lists() {
    let b: BTreeMap<u64, String> = BTreeMap::new();
    assert_eq!(btree_map_sexp_of(&b), list(vec![]));
    let h: HashMap<u64, String> = HashMap::new();
    assert_eq!(hash_map_sexp_of(&h), list(vec![]));
}

#[test]
fn sorted_map_entries_come_in_ascending_key_order() {
    let mut m: BTreeMap<u64, String> = BTreeMap::new();
    m.insert(30, String::from("c"));
    m.insert(10, String::from("a"));
    m.insert(20, String::from("b"));
    assert_eq!(
        btree_map_sexp_of(&m),
        list(vec![
            list(vec![atom(b"10"), atom(b"a")]),
            list(vec![atom(b"20"), atom(b"b")]),
            list(vec![atom(b"30"), atom(b"c")]),
        ])
    );
}

#[test]
fn sorted_map_conversion_is_reproducible() {
    let mut m: BTreeMap<i32, u8> = BTreeMap::new();
    m.insert(-5, 1);
    m.insert(0, 2);
    m.insert(9, 3);
    assert_eq!(btree_map_sexp_of(&m), btree_map_sexp_of(&m));
}

#[test]
fn hash_map_yields_one_pair_per_entry() {
    let mut m: HashMap<u32, String> = HashMap::new();
    m.insert(1, String::from("one"));
    m.insert(2, String::from("two"));
    let s = hash_map_sexp_of(&m);
    match s {
        Sexp::List(children) => {
            assert_eq!(children.len(), 2);
            let one = list(vec![atom(b"1"), atom(b"one")]);
            let two = list(vec![atom(b"2"), atom(b"two")]);
            assert!(children.contains(&one));
            assert!(children.contains(&two));
        }
        Sexp::Atom(_) => panic!("a map must convert to a list"),
    }
}

#[test]
fn hash_map_conversion_of_one_value_is_stable() {
    let mut m: HashMap<u8, u8> = HashMap::new();
    for k in 0..20u8 {
        m.insert(k, k);
    }
    assert_eq!(hash_map_sexp_of(&m), hash_map_sexp_of(&m));
}

#[test]
fn maps_convert_through_the_trait_and_nest() {
    let mut a: BTreeMap<u8, u8> = BTreeMap::new();
    a.insert(2, 20);
    a.insert(1, 10);
    assert_eq!(a.sexp_of(), btree_map_sexp_of(&a));
    let b: BTreeMap<u8, u8> = BTreeMap::new();
    let v = vec![a, b];
    assert_eq!(
        v.sexp_of(),
        list(vec![
            list(vec![
                list(vec![atom(b"1"), atom(b"10")]),
                list(vec![atom(b"2"), atom(b"20")]),
            ]),
            list(vec![]),
        ])
    );
    let mut h: HashMap<i32, String> = HashMap::new();
    h.insert(-1, String::from("x"));
    assert_eq!(h.sexp_of(), hash_map_sexp_of(&h));
    assert_eq!(
        Some(h).sexp_of(),
        list(vec![list(vec![list(vec![atom(b"-1"), atom(b"x")])])])
    );
}
