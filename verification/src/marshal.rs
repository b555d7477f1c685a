//! The value marshaller: validating, bidirectional conversion between guest
//! values and host domain types.  Guest output is never trusted unchecked —
//! every conversion either succeeds with a value that satisfies the domain
//! invariants or fails with a typed error naming the violated bound or the
//! expected shape.

use vstd::prelude::*;

use crate::domain::{
    simple_in_range, value_wf, xbus_elem_in_range, Owner, Payload, PortType, SIMPLE_MAX, SIMPLE_MIN,
    XBUS_MAX, XBUS_MIN,
};

verus! {

/// A guest value as the host models it: the shapes the marshaller
/// distinguishes.  Anything the guest may produce that is none of the first
/// four shapes (nil, a function, a non-integer table, ...) is `Other`.
#[derive(Clone, Debug, PartialEq, Eq)]
pub enum Guest {
    Bool(bool),
    Int(i64),
    IntArray(Vec<i64>),
    Text(String),
    Other,
}

/// The host type a failed range check was converting to.
#[derive(Clone, Copy, Debug, PartialEq, Eq, Structural)]
pub enum RangeTarget {
    SimpleValue,
    XbusValue,
}

/// The shape a failed conversion expected of the guest value.
#[derive(Clone, Copy, Debug, PartialEq, Eq, Structural)]
pub enum ExpectedShape {
    /// A port type converts only from a boolean (true for simple, false for xbus).
    BoolPortType,
    /// An owner converts only from a boolean (true for environment, false for agent).
    BoolOwner,
    /// A payload converts only from an integer or an array of integers.
    IntOrIntArray,
}

/// A guest value that cannot be converted to a domain type: either an integer
/// outside the target's bounds, or a value of the wrong shape altogether.
#[derive(Clone, Copy, Debug, PartialEq, Eq, Structural)]
pub enum ConversionError {
    Range { target: RangeTarget, lo: i64, hi: i64 },
    TypeMismatch { expected: ExpectedShape },
}

/// The fixed boolean encoding of a port type at the script boundary.
pub open spec fn port_type_bool(p: PortType) -> bool {
    p is Simple
}

/// The fixed boolean encoding of an owner at the script boundary.
pub open spec fn owner_bool(o: Owner) -> bool {
    o is Environment
}

/// What converting a guest value to a port type yields.
pub open spec fn spec_port_type_from_guest(g: Guest) -> Result<PortType, ConversionError> {
    match g {
        Guest::Bool(b) => Ok(if b { PortType::Simple } else { PortType::Xbus }),
        _ => Err(ConversionError::TypeMismatch { expected: ExpectedShape::BoolPortType }),
    }
}

/// What converting a guest value to an owner yields.
pub open spec fn spec_owner_from_guest(g: Guest) -> Result<Owner, ConversionError> {
    match g {
        Guest::Bool(b) => Ok(if b { Owner::Environment } else { Owner::Agent }),
        _ => Err(ConversionError::TypeMismatch { expected: ExpectedShape::BoolOwner }),
    }
}

/// Every element of the sequence fits an xbus payload.
pub open spec fn xbus_all_in_range(xs: Seq<i64>) -> bool {
    forall|i: int| 0 <= i < xs.len() ==> xbus_elem_in_range(#[trigger] xs[i] as int)
}

/// The error converting a guest value to a payload yields, if any.
pub open spec fn spec_value_conv_err(g: Guest) -> Option<ConversionError> {
    match g {
        Guest::Int(x) => if simple_in_range(x as int) {
            None
        } else {
            Some(ConversionError::Range { target: RangeTarget::SimpleValue, lo: SIMPLE_MIN, hi: SIMPLE_MAX })
        },
        Guest::IntArray(xs) => if xbus_all_in_range(xs@) {
            None
        } else {
            Some(ConversionError::Range { target: RangeTarget::XbusValue, lo: XBUS_MIN, hi: XBUS_MAX })
        },
        _ => Some(ConversionError::TypeMismatch { expected: ExpectedShape::IntOrIntArray }),
    }
}

/// `ys` carries exactly the integers of `xs`, element for element.
pub open spec fn xbus_encodes(ys: Seq<i16>, xs: Seq<i64>) -> bool {
    ys.len() == xs.len() && forall|i: int| 0 <= i < ys.len() ==> (#[trigger] ys[i]) as int == xs[i] as int
}

/// The payload a successful conversion of `g` yields.
pub open spec fn value_conv_rel(g: Guest, v: Payload) -> bool {
    match g {
        Guest::Int(x) => v == Payload::Simple(x as u8),
        Guest::IntArray(xs) => v matches Payload::Xbus(ys) && xbus_encodes(ys@, xs@),
        _ => false,
    }
}

/// The full contract of converting a guest value to a payload.
pub open spec fn value_from_guest_post(g: Guest, r: Result<Payload, ConversionError>) -> bool {
    match spec_value_conv_err(g) {
        Some(e) => r == Err::<Payload, ConversionError>(e),
        None => r matches Ok(v) && value_conv_rel(g, v) && value_wf(v),
    }
}

/// The guest value a payload converts back to.
pub open spec fn value_to_guest_post(v: Payload, g: Guest) -> bool {
    match v {
        Payload::Simple(x) => g == Guest::Int(x as i64),
        Payload::Xbus(ys) => g matches Guest::IntArray(xs) && xbus_encodes(ys@, xs@),
    }
}

/// The boolean marker a port type is exposed to the guest as.
pub fn port_type_marker(p: PortType) -> (b: bool)
    ensures
        b == port_type_bool(p),
{
    match p {
        PortType::Simple => true,
        PortType::Xbus => false,
    }
}

/// The boolean marker an owner is exposed to the guest as.
pub fn owner_marker(o: Owner) -> (b: bool)
    ensures
        b == owner_bool(o),
{
    match o {
        Owner::Environment => true,
        Owner::Agent => false,
    }
}

/// Converts a guest value to a port type; only the two boolean markers are
/// accepted.
pub fn port_type_from_guest(g: &Guest) -> (r: Result<PortType, ConversionError>)
    ensures
        r == spec_port_type_from_guest(*g),
{
    match g {
        Guest::Bool(true) => Ok(PortType::Simple),
        Guest::Bool(false) => Ok(PortType::Xbus),
        _ => Err(ConversionError::TypeMismatch { expected: ExpectedShape::BoolPortType }),
    }
}

/// Converts a guest value to an owner; only the two boolean markers are
/// accepted.
pub fn owner_from_guest(g: &Guest) -> (r: Result<Owner, ConversionError>)
    ensures
        r == spec_owner_from_guest(*g),
{
    match g {
        Guest::Bool(true) => Ok(Owner::Environment),
        Guest::Bool(false) => Ok(Owner::Agent),
        _ => Err(ConversionError::TypeMismatch { expected: ExpectedShape::BoolOwner }),
    }
}

/// Converts a guest value to a payload: an integer in [0,100] becomes a simple
/// payload, an array of integers each in [-999,999] becomes an xbus payload,
/// and everything else is rejected.
#[verifier::loop_isolation(false)]
pub fn value_from_guest(g: &Guest) -> (r: Result<Payload, ConversionError>)
    ensures
        value_from_guest_post(*g, r),
{
    match g {
        Guest::Int(x) => {
            if 0 <= *x && *x <= 100 {
                Ok(Payload::Simple(*x as u8))
            } else {
                Err(ConversionError::Range { target: RangeTarget::SimpleValue, lo: SIMPLE_MIN, hi: SIMPLE_MAX })
            }
        }
        Guest::IntArray(xs) => {
            let n = xs.len();
            let mut ys: Vec<i16> = Vec::new();
            let mut i: usize = 0;
            while i < n
                invariant
                    i <= n,
                    n == xs@.len(),
                    ys@.len() == i as int,
                    xbus_all_in_range(xs@.take(i as int)),
                    xbus_encodes(ys@, xs@.take(i as int)),
                decreases n - i,
            {
                let x = xs[i];
                if x < -999 || x > 999 {
                    return Err(ConversionError::Range { target: RangeTarget::XbusValue, lo: XBUS_MIN, hi: XBUS_MAX });
                }
                ys.push(x as i16);
                i += 1;
            }
            proof {
                assert(xs@.take(n as int) =~= xs@);
            }
            Ok(Payload::Xbus(ys))
        }
        _ => Err(ConversionError::TypeMismatch { expected: ExpectedShape::IntOrIntArray }),
    }
}

/// Converts a payload back to the guest value it round-trips through.
pub fn value_to_guest(v: &Payload) -> (g: Guest)
    ensures
        value_to_guest_post(*v, g),
{
    match v {
        Payload::Simple(x) => Guest::Int(*x as i64),
        Payload::Xbus(ys) => {
            let n = ys.len();
            let mut xs: Vec<i64> = Vec::new();
            let mut i: usize = 0;
            while i < n
                invariant
                    i <= n,
                    n == ys@.len(),
                    xs@.len() == i as int,
                    xbus_encodes(ys@.take(i as int), xs@),
                decreases n - i,
            {
                xs.push(ys[i] as i64);
                i += 1;
            }
            proof {
                assert(ys@.take(n as int) =~= ys@);
            }
            Guest::IntArray(xs)
        }
    }
}

/// Law: an integer in [0,100] marshals as a simple payload carrying exactly
/// that integer and marshals back to the same integer; any other integer is
/// rejected with the simple range error.
pub proof fn lemma_simple_marshal_round_trip(x: i64, r: Result<Payload, ConversionError>, back: Guest)
    requires
        value_from_guest_post(Guest::Int(x), r),
        r matches Ok(v) ==> value_to_guest_post(v, back),
    ensures
        simple_in_range(x as int) ==> r == Ok::<Payload, ConversionError>(Payload::Simple(x as u8))
            && back == Guest::Int(x),
        !simple_in_range(x as int) ==> r == Err::<Payload, ConversionError>(
            ConversionError::Range { target: RangeTarget::SimpleValue, lo: SIMPLE_MIN, hi: SIMPLE_MAX },
        ),
{
}

/// Law: an integer sequence with every element in [-999,999] marshals as an
/// xbus payload carrying exactly those integers and marshals back to the same
/// sequence; a sequence with any element out of range is rejected whole with
/// the xbus range error.
pub proof fn lemma_xbus_marshal_round_trip(xs: Vec<i64>, r: Result<Payload, ConversionError>, back: Guest)
    requires
        value_from_guest_post(Guest::IntArray(xs), r),
        r matches Ok(v) ==> value_to_guest_post(v, back),
    ensures
        xbus_all_in_range(xs@) ==> (r matches Ok(v)
            && (v matches Payload::Xbus(ys) && xbus_encodes(ys@, xs@))
            && (back matches Guest::IntArray(zs) && zs@ == xs@)),
        !xbus_all_in_range(xs@) ==> r == Err::<Payload, ConversionError>(
            ConversionError::Range { target: RangeTarget::XbusValue, lo: XBUS_MIN, hi: XBUS_MAX },
        ),
{
    if xbus_all_in_range(xs@) {
        let v = r->Ok_0;
        let ys = v->Xbus_0;
        let zs = back->IntArray_0;
        assert forall|i: int| 0 <= i < xs@.len() implies #[trigger] zs@[i] == xs@[i] by {
            assert((ys@[i]) as int == xs@[i] as int);
            assert((ys@[i]) as int == zs@[i] as int);
        }
        assert(zs@ =~= xs@);
    }
}

} // verus!
