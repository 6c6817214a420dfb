use runtime_core::algebraic;
use runtime_core::algebraic::Bits;
use runtime_core::closure::{list_entry, number_entry, Closure, Identity, List, Number};

fn number(x: f64) -> Number {
    Number::from(Bits(x.to_bits()))
}

fn double(n: &Number) -> f64 {
    f64::from_bits(Bits::from(n.payload).0)
}

fn walk(list: &List<Number>) -> Vec<f64> {
    let mut seen: Vec<f64> = Vec::new();
    let mut node: &algebraic::List<Number> = &list.payload;
    while let algebraic::List::Cons(head, tail) = node {
        seen.push(double(head));
        node = &tail.payload;
    }
    seen
}

#[test]
fn closure_new_pairs_entry_and_payload() {
    let c: Closure<u8, &str> = Closure::new(7u8, "payload");
    assert_eq!(c.entry, 7u8);
    assert_eq!(c.payload, "payload");
}

#[test]
fn closure_new_validates_nothing() {
    let c: Closure<(), Vec<u32>> = Closure::new((), Vec::new());
    assert!(c.payload.is_empty());
}

#[test]
fn closure_clone_keeps_both_fields() {
    let c: Closure<u16, String> = Closure::new(3u16, String::from("kept"));
    let d: Closure<u16, String> = c.clone();
    assert_eq!(d.entry, 3u16);
    assert_eq!(d.payload, "kept");
    assert_eq!(c.payload, "kept");
    let n: Number = number(12.25);
    let m: Number = n;
    assert_eq!(double(&n), 12.25);
    assert_eq!(double(&m.clone()), 12.25);
}

#[test]
fn number_round_trip_ordinary() {
    assert_eq!(double(&number(1.5)), 1.5);
    assert_eq!(double(&number(-42.0)), -42.0);
    assert_eq!(Bits::from(algebraic::Number::from(Bits(1.5f64.to_bits()))).0, 0x3ff8_0000_0000_0000u64);
}

#[test]
fn number_round_trip_zeros() {
    assert_eq!(double(&number(0.0)).to_bits(), 0u64);
    assert_eq!(double(&number(-0.0)).to_bits(), 0x8000_0000_0000_0000u64);
    assert!(double(&number(-0.0)).is_sign_negative());
}

#[test]
fn number_round_trip_infinities() {
    assert_eq!(double(&number(f64::INFINITY)), f64::INFINITY);
    assert_eq!(double(&number(f64::NEG_INFINITY)), f64::NEG_INFINITY);
}

#[test]
fn number_round_trip_keeps_nan_payload() {
    let quiet: u64 = f64::NAN.to_bits();
    let odd: u64 = 0x7ff0_0000_dead_beefu64;
    assert!(f64::from_bits(odd).is_nan());
    assert_eq!(Bits::from(algebraic::Number::from(Bits(quiet))), Bits(quiet));
    assert_eq!(Bits::from(algebraic::Number::from(Bits(odd))), Bits(odd));
    assert_eq!(Bits::from(Number::from(Bits(odd)).payload).0, odd);
}

#[test]
fn number_round_trip_every_kind_of_pattern() {
    let patterns: Vec<u64> = vec![0, 1, u64::MAX, 0x7ff0_0000_0000_0000, 0xfff8_0000_0000_0001, 0x000f_ffff_ffff_ffff];
    for p in patterns {
        assert_eq!(Bits::from(algebraic::Number::from(Bits(p))).0, p);
    }
}

#[test]
fn list_of_three_numbers_in_order() {
    let xs: Vec<Number> = vec![number(1.0), number(2.0), number(3.0)];
    let list: List<Number> = List::from(&xs[..]);
    assert_eq!(list.entry, Identity);
    assert_eq!(walk(&list), vec![1.0, 2.0, 3.0]);
    match &list.payload {
        algebraic::List::Cons(a, rest) => {
            assert_eq!(double(a), 1.0);
            match &rest.payload {
                algebraic::List::Cons(b, rest) => {
                    assert_eq!(double(b), 2.0);
                    match &rest.payload {
                        algebraic::List::Cons(c, rest) => {
                            assert_eq!(double(c), 3.0);
                            assert!(matches!(rest.payload, algebraic::List::Nil));
                        }
                        algebraic::List::Nil => panic!("third node missing"),
                    }
                }
                algebraic::List::Nil => panic!("second node missing"),
            }
        }
        algebraic::List::Nil => panic!("first node missing"),
    }
}

#[test]
fn list_of_empty_slice_is_nil() {
    let xs: Vec<Number> = Vec::new();
    let list: List<Number> = List::from(&xs[..]);
    assert!(matches!(list.payload, algebraic::List::Nil));
    assert_eq!(walk(&list), Vec::<f64>::new());
    let bare: algebraic::List<Number> = algebraic::List::from(&xs[..]);
    assert!(matches!(bare, algebraic::List::Nil));
}

#[test]
fn list_of_one_element() {
    let xs: Vec<Number> = vec![number(-0.0)];
    let list: List<Number> = List::from(&xs[..]);
    let seen: Vec<f64> = walk(&list);
    assert_eq!(seen.len(), 1);
    assert_eq!(seen[0].to_bits(), 0x8000_0000_0000_0000u64);
}

#[test]
fn list_keeps_order_of_many() {
    let values: Vec<f64> = (0..100).map(|i| f64::from(i) * 0.5 - 7.0).collect();
    let xs: Vec<Number> = values.iter().map(|v| number(*v)).collect();
    let list: List<Number> = List::from(&xs[..]);
    assert_eq!(walk(&list), values);
}

#[test]
fn list_converts_each_element() {
    let patterns: Vec<Bits> = vec![Bits(4.0f64.to_bits()), Bits(5.0f64.to_bits())];
    let list: algebraic::List<algebraic::Number> = algebraic::List::from(&patterns[..]);
    match list {
        algebraic::List::Cons(head, tail) => {
            assert_eq!(Bits::from(*head), patterns[0]);
            match tail.payload {
                algebraic::List::Cons(head, tail) => {
                    assert_eq!(Bits::from(*head), patterns[1]);
                    assert!(matches!(tail.payload, algebraic::List::Nil));
                }
                algebraic::List::Nil => panic!("second node missing"),
            }
        }
        algebraic::List::Nil => panic!("first node missing"),
    }
}

#[test]
fn list_widens_integers() {
    let xs: Vec<u8> = vec![3, 1, 2];
    let list: algebraic::List<u32> = algebraic::List::from(&xs[..]);
    let mut seen: Vec<u32> = Vec::new();
    let mut node: &algebraic::List<u32> = &list;
    while let algebraic::List::Cons(head, tail) = node {
        seen.push(**head);
        node = &tail.payload;
    }
    assert_eq!(seen, vec![3u32, 1, 2]);
}

#[test]
fn list_leaves_the_slice_alone() {
    let xs: Vec<Number> = vec![number(9.0), number(8.0)];
    let _list: List<Number> = List::from(&xs[..]);
    assert_eq!(double(&xs[0]), 9.0);
    assert_eq!(double(&xs[1]), 8.0);
}

#[test]
fn forcing_a_number_is_idempotent() {
    let mut n: Number = number(2.5);
    let first: u64 = Bits::from(*n.eval()).0;
    let second: u64 = Bits::from(*n.eval()).0;
    let third: u64 = Bits::from(*n.eval()).0;
    assert_eq!(first, 2.5f64.to_bits());
    assert_eq!(first, second);
    assert_eq!(second, third);
    assert_eq!(double(&n), 2.5);
}

#[test]
fn forcing_a_list_is_idempotent() {
    let xs: Vec<Number> = vec![number(1.0), number(2.0)];
    let mut list: List<Number> = List::from(&xs[..]);
    assert!(matches!(list.eval(), algebraic::List::Cons(_, _)));
    assert!(matches!(list.eval(), algebraic::List::Cons(_, _)));
    assert_eq!(walk(&list), vec![1.0, 2.0]);
    let empty: Vec<Number> = Vec::new();
    let mut nil: List<Number> = List::from(&empty[..]);
    assert!(matches!(nil.eval(), algebraic::List::Nil));
    assert!(matches!(nil.eval(), algebraic::List::Nil));
}

#[test]
fn forcing_hands_out_the_payload_itself() {
    let mut n: Number = number(1.0);
    *n.eval() = algebraic::Number::from(Bits(7.0f64.to_bits()));
    assert_eq!(double(&n), 7.0);
    let mut payload: algebraic::Number = algebraic::Number::from(Bits(3.0f64.to_bits()));
    *number_entry(&mut payload) = algebraic::Number::from(Bits(4.0f64.to_bits()));
    assert_eq!(Bits::from(payload).0, 4.0f64.to_bits());
}

#[test]
fn entries_are_the_identity() {
    let mut payload: algebraic::Number = algebraic::Number::from(Bits(6.0f64.to_bits()));
    assert_eq!(Bits::from(*number_entry(&mut payload)).0, 6.0f64.to_bits());
    assert_eq!(Bits::from(*number_entry(number_entry(&mut payload))).0, 6.0f64.to_bits());
    let mut nil: algebraic::List<u8> = algebraic::List::Nil;
    assert!(matches!(list_entry(&mut nil), algebraic::List::Nil));
    let xs: Vec<u8> = vec![5];
    let mut one: algebraic::List<u8> = algebraic::List::from(&xs[..]);
    match list_entry(list_entry(&mut one)) {
        algebraic::List::Cons(head, tail) => {
            assert_eq!(**head, 5u8);
            assert!(matches!(tail.payload, algebraic::List::Nil));
        }
        algebraic::List::Nil => panic!("node missing"),
    }
}
