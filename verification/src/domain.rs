//! Host-side domain types: port types, owners, payload values, channels and
//! samples, together with the well-formedness predicates that every value
//! crossing the guest boundary is checked against.

use vstd::prelude::*;

verus! {

/// Smallest integer a simple payload may carry.
pub const SIMPLE_MIN: i64 = 0;
/// Largest integer a simple payload may carry.
pub const SIMPLE_MAX: i64 = 100;
/// Smallest integer an xbus payload element may carry.
pub const XBUS_MIN: i64 = -999;
/// Largest integer an xbus payload element may carry.
pub const XBUS_MAX: i64 = 999;

/// The shape a channel's payload must have.
#[derive(Clone, Copy, Debug, PartialEq, Eq, Structural)]
pub enum PortType {
    Simple,
    Xbus,
}

/// The simulated party a channel's direction represents.
#[derive(Clone, Copy, Debug, PartialEq, Eq, Structural)]
pub enum Owner {
    Agent,
    Environment,
}

/// One payload declared on a channel: either a single bounded integer or a
/// bounded integer sequence.
#[derive(Clone, Debug, PartialEq, Eq)]
pub enum Payload {
    Simple(u8),
    Xbus(Vec<i16>),
}

/// A named, typed, owned slot carrying payloads within one sample.  The id is
/// unique per sample, not globally.
#[derive(Clone, Debug, PartialEq, Eq)]
pub struct Channel {
    pub id: u8,
    pub owner: Owner,
    pub values: Vec<Payload>,
}

/// The result of exactly one step: the channels the guest declared, in
/// declaration order.
#[derive(Clone, Debug, PartialEq, Eq)]
pub struct Sample {
    pub channels: Vec<Channel>,
}

/// Whether `x` may be carried by a simple payload.
pub open spec fn simple_in_range(x: int) -> bool {
    SIMPLE_MIN <= x <= SIMPLE_MAX
}

/// Whether `x` may be an element of an xbus payload.
pub open spec fn xbus_elem_in_range(x: int) -> bool {
    XBUS_MIN <= x <= XBUS_MAX
}

/// The port type a payload value is shaped as.
pub open spec fn value_port(v: Payload) -> PortType {
    match v {
        Payload::Simple(_) => PortType::Simple,
        Payload::Xbus(_) => PortType::Xbus,
    }
}

/// A payload value within its declared bounds.
pub open spec fn value_wf(v: Payload) -> bool {
    match v {
        Payload::Simple(x) => simple_in_range(x as int),
        Payload::Xbus(xs) => forall|i: int| 0 <= i < xs@.len() ==> xbus_elem_in_range(#[trigger] xs@[i] as int),
    }
}

/// Every value of the sequence is within its declared bounds.
pub open spec fn values_wf(vs: Seq<Payload>) -> bool {
    forall|i: int| 0 <= i < vs.len() ==> value_wf(#[trigger] vs[i])
}

/// Every value of the sequence is shaped as the given port type.
pub open spec fn values_match(vs: Seq<Payload>, p: PortType) -> bool {
    forall|i: int| 0 <= i < vs.len() ==> value_port(#[trigger] vs[i]) == p
}

/// A channel as the registry accepts it: at least one payload, every payload
/// within bounds, and all payloads of one shape.
pub open spec fn channel_wf(c: Channel) -> bool {
    &&& c.values@.len() >= 1
    &&& values_wf(c.values@)
    &&& (values_match(c.values@, PortType::Simple) || values_match(c.values@, PortType::Xbus))
}

/// No two channels of the sequence share an id.
pub open spec fn ids_unique(cs: Seq<Channel>) -> bool {
    forall|i: int, j: int| 0 <= i < j < cs.len() ==> (#[trigger] cs[i]).id != (#[trigger] cs[j]).id
}

/// Some channel of the sequence carries the given id.
pub open spec fn seq_contains_id(cs: Seq<Channel>, id: u8) -> bool {
    exists|i: int| 0 <= i < cs.len() && (#[trigger] cs[i]).id == id
}

/// Every channel of the sequence is well-formed.
pub open spec fn channels_wf(cs: Seq<Channel>) -> bool {
    forall|i: int| 0 <= i < cs.len() ==> channel_wf(#[trigger] cs[i])
}

/// The invariant of every sample this library returns: channel ids are unique
/// within the sample and each channel is well-formed.
pub open spec fn sample_wf(s: Sample) -> bool {
    ids_unique(s.channels@) && channels_wf(s.channels@)
}

} // verus!
