use rsexp::sexp::{BytesSlice, Sexp};
use rsexp::sexp_of::SexpOf;

fn atom(bytes: &[u8]) -> Sexp {
    Sexp::Atom(bytes.to_vec())
}

fn list(children: Vec<Sexp>) -> Sexp {
    Sexp::List(children)
}

#[test]
fn unsigned_integers_render_canonically() {
    assert_eq!(0u8.sexp_of(), atom(b"0"));
    assert_eq!(7u8.sexp_of(), atom(b"7"));
    assert_eq!(255u8.sexp_of(), atom(b"255"));
    assert_eq!(65535u16.sexp_of(), atom(b"65535"));
    assert_eq!(42u32.sexp_of(), atom(b"42"));
    assert_eq!(1000000u64.sexp_of(), atom(b"1000000"));
    assert_eq!(u64::MAX.sexp_of(), atom(b"18446744073709551615"));
    assert_eq!(123usize.sexp_of(), atom(b"123"));
}

#[test]
fn signed_integers_render_canonically() {
    assert_eq!(0i8.sexp_of(), atom(b"0"));
    assert_eq!((-1i8).sexp_of(), atom(b"-1"));
    assert_eq!(i8::MIN.sexp_of(), atom(b"-128"));
    assert_eq!((-32768i16).sexp_of(), atom(b"-32768"));
    assert_eq!(100i32.sexp_of(), atom(b"100"));
    assert_eq!((-100i32).sexp_of(), atom(b"-100"));
    assert_eq!(i64::MIN.sexp_of(), atom(b"-9223372036854775808"));
    assert_eq!(i64::MAX.sexp_of(), atom(b"9223372036854775807"));
    assert_eq!((-5isize).sexp_of(), atom(b"-5"));
}

#[test]
fn integer_rendering_matches_display() {
    let samples: Vec<i64> = vec![0, 1, -1, 9, 10, -10, 99, 100, 12345, -987654321];
    for n in samples {
        assert_eq!(n.sexp_of(), atom(n.to_string().as_bytes()));
    }
}

#[test]
fn strings_keep_their_bytes() {
    assert_eq!(String::new().sexp_of(), atom(b""));
    assert_eq!("abc".sexp_of(), atom(b"abc"));
    assert_eq!(String::from("hello world").sexp_of(), atom(b"hello world"));
    let accented = String::from("h\u{e9}llo");
    assert_eq!(accented.sexp_of(), atom("h\u{e9}llo".as_bytes()));
}

#[test]
fn byte_slices_pass_through_unchanged() {
    let raw: [u8; 4] = [0, 255, 10, 40];
    assert_eq!(BytesSlice(&raw).sexp_of(), atom(&[0, 255, 10, 40]));
    assert_eq!(BytesSlice(&[]).sexp_of(), atom(b""));
}

#[test]
fn sequences_become_lists_in_order() {
    let empty: Vec<i32> = vec![];
    assert_eq!(empty.sexp_of(), list(vec![]));
    let v = vec![2i32, 3i32];
    assert_eq!(v.sexp_of(), list(vec![atom(b"2"), atom(b"3")]));
    let s: &[u8] = &[1, 2, 3];
    assert_eq!(
        s.sexp_of(),
        list(vec![atom(b"1"), atom(b"2"), atom(b"3")])
    );
    let arr = [7u16, 8u16];
    assert_eq!(arr.sexp_of(), list(vec![atom(b"7"), atom(b"8")]));
}

#[test]
fn nested_sequences_nest_lists() {
    let v = vec![vec![1u8], vec![], vec![2u8, 3u8]];
    assert_eq!(
        v.sexp_of(),
        list(vec![
            list(vec![atom(b"1")]),
            list(vec![]),
            list(vec![atom(b"2"), atom(b"3")]),
        ])
    );
}

#[test]
fn boxes_are_transparent() {
    assert_eq!(Box::new(5u32).sexp_of(), 5u32.sexp_of());
    assert_eq!(
        Box::new(vec![1i16, 2i16]).sexp_of(),
        vec![1i16, 2i16].sexp_of()
    );
}

#[test]
fn tuples_become_lists_in_slot_order() {
    assert_eq!((9u8,).sexp_of(), list(vec![atom(b"9")]));
    assert_eq!(
        (1u8, 2u8, 3u8).sexp_of(),
        list(vec![atom(b"1"), atom(b"2"), atom(b"3")])
    );
    let wide = (1u8, 2u8, 3u8, 4u8, 5u8, 6u8, 7u8, 8u8, 9u8, 10u8);
    assert_eq!(
        wide.sexp_of(),
        list(vec![
            atom(b"1"),
            atom(b"2"),
            atom(b"3"),
            atom(b"4"),
            atom(b"5"),
            atom(b"6"),
            atom(b"7"),
            atom(b"8"),
            atom(b"9"),
            atom(b"10"),
        ])
    );
}

#[test]
fn mixed_tuple_example() {
    let value = (1u32, "abc", vec![2i32, 3i32]);
    assert_eq!(
        value.sexp_of(),
        list(vec![
            atom(b"1"),
            atom(b"abc"),
            list(vec![atom(b"2"), atom(b"3")]),
        ])
    );
}

#[test]
fn options_keep_the_present_absent_asymmetry() {
    assert_eq!(None::<u32>.sexp_of(), list(vec![]));
    assert_eq!(Some(5u32).sexp_of(), list(vec![atom(b"5")]));
    assert_ne!(Some(5u32).sexp_of(), None::<u32>.sexp_of());
}

#[test]
fn present_empty_list_differs_from_absent() {
    let present: Option<Vec<i32>> = Some(vec![]);
    assert_eq!(present.sexp_of(), list(vec![list(vec![])]));
    let absent: Option<Vec<i32>> = None;
    assert_eq!(absent.sexp_of(), list(vec![]));
    assert_ne!(present.sexp_of(), absent.sexp_of());
}

#[test]
fn unit_renders_like_an_absent_option() {
    assert_eq!(().sexp_of(), list(vec![]));
    assert_eq!(().sexp_of(), None::<String>.sexp_of());
}
