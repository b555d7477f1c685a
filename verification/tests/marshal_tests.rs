use puzzle_sampler::domain::{Owner, Payload, PortType};
use puzzle_sampler::marshal::{
    owner_from_guest, port_type_from_guest, value_from_guest, value_to_guest, ConversionError,
    ExpectedShape, Guest, RangeTarget,
};

#[test]
fn simple_in_range_round_trips() {
    for x in [0i64, 1, 42, 99, 100] {
        let v = value_from_guest(&Guest::Int(x)).unwrap();
        match &v {
            Payload::Simple(got) => assert_eq!(*got as i64, x),
            other => panic!("expected a simple payload, got {:?}", other),
        }
        assert_eq!(value_to_guest(&v), Guest::Int(x));
    }
}

#[test]
fn simple_out_of_range_is_range_error() {
    for x in [-1i64, 101, 1000, i64::MIN, i64::MAX] {
        let r = value_from_guest(&Guest::Int(x));
        assert_eq!(
            r,
            Err(ConversionError::Range { target: RangeTarget::SimpleValue, lo: 0, hi: 100 })
        );
    }
}

#[test]
fn xbus_in_range_round_trips() {
    let xs = vec![-999i64, -1, 0, 1, 500, 999];
    let v = value_from_guest(&Guest::IntArray(xs.clone())).unwrap();
    match &v {
        Payload::Xbus(ys) => {
            assert_eq!(ys.len(), xs.len());
            for (y, x) in ys.iter().zip(xs.iter()) {
                assert_eq!(*y as i64, *x);
            }
        }
        other => panic!("expected an xbus payload, got {:?}", other),
    }
    assert_eq!(value_to_guest(&v), Guest::IntArray(xs));
}

#[test]
fn xbus_one_bad_element_fails_whole_sequence() {
    for xs in [vec![1000i64, -5], vec![0, -1000], vec![999, 1000, 0]] {
        let r = value_from_guest(&Guest::IntArray(xs));
        assert_eq!(
            r,
            Err(ConversionError::Range { target: RangeTarget::XbusValue, lo: -999, hi: 999 })
        );
    }
}

#[test]
fn empty_xbus_sequence_is_accepted() {
    let v = value_from_guest(&Guest::IntArray(Vec::new())).unwrap();
    match v {
        Payload::Xbus(ys) => assert!(ys.is_empty()),
        other => panic!("expected an xbus payload, got {:?}", other),
    }
}

#[test]
fn wrong_shapes_are_type_mismatches() {
    for g in [Guest::Bool(true), Guest::Text(String::from("7")), Guest::Other] {
        let r = value_from_guest(&g);
        assert_eq!(
            r,
            Err(ConversionError::TypeMismatch { expected: ExpectedShape::IntOrIntArray })
        );
    }
}

#[test]
fn port_type_and_owner_convert_only_from_booleans() {
    assert_eq!(port_type_from_guest(&Guest::Bool(true)), Ok(PortType::Simple));
    assert_eq!(port_type_from_guest(&Guest::Bool(false)), Ok(PortType::Xbus));
    assert_eq!(
        port_type_from_guest(&Guest::Int(1)),
        Err(ConversionError::TypeMismatch { expected: ExpectedShape::BoolPortType })
    );
    assert_eq!(owner_from_guest(&Guest::Bool(true)), Ok(Owner::Environment));
    assert_eq!(owner_from_guest(&Guest::Bool(false)), Ok(Owner::Agent));
    assert_eq!(
        owner_from_guest(&Guest::Text(String::from("ENVIRONMENT"))),
        Err(ConversionError::TypeMismatch { expected: ExpectedShape::BoolOwner })
    );
}
