use sqlwrap::cbox::{from_cstr as box_from_cstr, to_cstr as box_to_cstr, CBox};
use sqlwrap::cstr::{from_cstr, to_cstr};

#[test]
fn test_on_indexmut() {
    let mut var = box_to_cstr("Blah");
    assert!(var.index(0) == b'B');
    var.set(0, b'c');
    assert!(var.index(0) != b'B');
}

#[test]
fn decode_blah() {
    assert_eq!(from_cstr(&[66, 108, 97, 104, 0]), "Blah");
}

#[test]
fn decode_stops_at_first_nul() {
    assert_eq!(from_cstr(&[65, 0, 66, 0]), "A");
    assert_eq!(from_cstr(&[0]), "");
}

#[test]
fn encode_blah() {
    let v = to_cstr("Blah");
    assert_eq!(v.len(), 5);
    assert_eq!(v, vec![66, 108, 97, 104, 0]);
    assert_eq!(*v.last().unwrap(), 0);
}

#[test]
fn encode_empty() {
    assert_eq!(to_cstr(""), vec![0]);
}

#[test]
fn round_trip_text() {
    for s in ["", "Blah", "select * from t;", "a b\tc~"] {
        assert_eq!(from_cstr(&to_cstr(s)), s);
        assert_eq!(box_from_cstr(&box_to_cstr(s)), s);
    }
}

#[test]
fn box_round_trip_blah() {
    let b = box_to_cstr("Blah");
    assert_eq!(b.get_raw(), &[66u8, 108, 97, 104, 0][..]);
    assert_eq!(box_from_cstr(&b), "Blah");
}

#[test]
fn box_construction() {
    let b = CBox::new(3, 7u8);
    assert_eq!(b.get_raw(), &[7u8, 7, 7][..]);
    let c = CBox::from_raw(&[1i32, 2, 3][..]);
    assert_eq!(c.index(2), 3);
    let d = CBox::from_raw_mut(vec![9u8, 0]);
    assert_eq!(box_from_cstr(&d), "\u{9}");
    assert_eq!(d.get_raw_mut(), vec![9u8, 0]);
}
