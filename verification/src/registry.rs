//! The channel registry: a step-scoped accumulator that the guest populates
//! through the injected declaration callback.  Every declaration is validated
//! — the id is parsed as an unsigned 8-bit integer, ids must be unique within
//! the step, and every payload must match the declared port type.  The first
//! failure marks the whole step as failed; no partial sample survives.

use vstd::prelude::*;
use vstd::string::StrSliceExecFns;

use crate::domain::{
    channel_wf, channels_wf, ids_unique, sample_wf, seq_contains_id, value_port, value_wf,
    values_match, values_wf, Channel, Owner, Payload, PortType, Sample,
};
use crate::marshal::{
    owner_from_guest, port_type_from_guest, spec_owner_from_guest, spec_port_type_from_guest,
    spec_value_conv_err, value_conv_rel, value_from_guest, ConversionError,
    Guest,
};

verus! {

/// An error raised while accumulating channels for one step.
#[derive(Clone, Debug, PartialEq, Eq)]
pub enum RegistrationError {
    /// A channel with this id was already declared this step.
    DuplicateChannel { id: u8 },
    /// The guest's id representation does not parse as an unsigned 8-bit integer.
    InvalidId { given: Guest },
    /// A payload's shape differs from the channel's declared port type.
    PortTypeMismatch { id: u8, declared: PortType, actual: PortType },
}

/// Why one declaration was rejected: the guest value could not be converted,
/// or the converted declaration violated a registration rule.
#[derive(Clone, Debug, PartialEq, Eq)]
pub enum DeclareError {
    Conversion(ConversionError),
    Registration(RegistrationError),
}

/// The port type that is not `p`.
pub open spec fn other_port(p: PortType) -> PortType {
    match p {
        PortType::Simple => PortType::Xbus,
        PortType::Xbus => PortType::Simple,
    }
}

/// Whether `c`'s unicode value is that of a decimal digit.
pub open spec fn char_is_digit(c: char) -> bool {
    48 <= c as int <= 57
}

/// The numeric value of a decimal digit character.
pub open spec fn digit_value(c: char) -> int {
    c as int - 48
}

/// Every character of the sequence is a decimal digit.
pub open spec fn all_digits(s: Seq<char>) -> bool {
    forall|i: int| 0 <= i < s.len() ==> char_is_digit(#[trigger] s[i])
}

/// The integer a sequence of decimal digits denotes, most significant first.
pub open spec fn digits_value(s: Seq<char>) -> int
    decreases s.len(),
{
    if s.len() == 0 {
        0
    } else {
        digits_value(s.drop_last()) * 10 + digit_value(s.last())
    }
}

/// What parsing a string as an unsigned 8-bit integer yields: defined exactly
/// for nonempty all-digit strings denoting a value of at most 255.
pub open spec fn spec_parse_u8(s: Seq<char>) -> Option<u8> {
    if s.len() > 0 && all_digits(s) && digits_value(s) <= 255 {
        Some(digits_value(s) as u8)
    } else {
        None
    }
}

proof fn lemma_digits_value_nonneg(s: Seq<char>)
    requires
        all_digits(s),
    ensures
        digits_value(s) >= 0,
    decreases s.len(),
{
    if s.len() > 0 {
        assert forall|i: int| 0 <= i < s.drop_last().len() implies char_is_digit(
            #[trigger] s.drop_last()[i],
        ) by {
            assert(s.drop_last()[i] == s[i]);
        }
        lemma_digits_value_nonneg(s.drop_last());
        assert(char_is_digit(s[s.len() - 1]));
    }
}

/// A digit string denotes at least what any of its prefixes denotes.
proof fn lemma_digits_prefix_bound(s: Seq<char>, i: int)
    requires
        0 <= i <= s.len(),
        all_digits(s),
    ensures
        digits_value(s.take(i)) <= digits_value(s),
    decreases s.len() - i,
{
    if i == s.len() {
        assert(s.take(i) =~= s);
    } else {
        assert(s.take(i + 1).drop_last() =~= s.take(i));
        assert(s.take(i + 1).last() == s[i]);
        assert forall|k: int| 0 <= k < s.take(i).len() implies char_is_digit(
            #[trigger] s.take(i)[k],
        ) by {
            assert(s.take(i)[k] == s[k]);
        }
        lemma_digits_value_nonneg(s.take(i));
        assert(char_is_digit(s[i]));
        assert(digits_value(s.take(i + 1)) >= digits_value(s.take(i)));
        lemma_digits_prefix_bound(s, i + 1);
    }
}

/// Parses a string as an unsigned 8-bit integer: nonempty, decimal digits
/// only, value at most 255 (leading zeros allowed).
#[verifier::loop_isolation(false)]
pub fn parse_u8(s: &str) -> (r: Option<u8>)
    ensures
        r == spec_parse_u8(s@),
{
    let n = s.unicode_len();
    if n == 0 {
        return None;
    }
    let mut acc: u32 = 0;
    let mut i: usize = 0;
    while i < n
        invariant
            i <= n,
            all_digits(s@.take(i as int)),
            acc == digits_value(s@.take(i as int)),
            acc <= 255,
        decreases n - i,
    {
        let c = s.get_char(i);
        let cu = c as u32;
        if cu < 48 || cu > 57 {
            proof {
                assert(!char_is_digit(s@[i as int]));
            }
            return None;
        }
        let d = cu - 48;
        let next = acc * 10 + d;
        proof {
            assert(s@.take(i as int + 1).drop_last() =~= s@.take(i as int));
            assert(s@.take(i as int + 1).last() == s@[i as int]);
        }
        if next > 255 {
            proof {
                if all_digits(s@) && digits_value(s@) <= 255 {
                    lemma_digits_prefix_bound(s@, i as int + 1);
                    assert(false);
                }
            }
            return None;
        }
        proof {
            assert forall|k: int| 0 <= k < i as int + 1 implies char_is_digit(
                #[trigger] s@.take(i as int + 1)[k],
            ) by {
                assert(s@.take(i as int + 1)[k] == s@[k]);
                if k == i as int {
                    assert(char_is_digit(s@[k]));
                } else {
                    assert(s@.take(i as int)[k] == s@[k]);
                }
            }
        }
        acc = next;
        i += 1;
    }
    proof {
        assert(s@.take(n as int) =~= s@);
    }
    Some(acc as u8)
}

/// What parsing a guest id representation yields: a string is parsed as
/// digits, an integer must already lie in [0,255], anything else is invalid.
pub open spec fn spec_id_of_guest(g: Guest) -> Option<u8> {
    match g {
        Guest::Int(x) => if 0 <= x <= 255 {
            Some(x as u8)
        } else {
            None
        },
        Guest::Text(s) => spec_parse_u8(s@),
        _ => None,
    }
}

/// Parses the guest's id representation as an unsigned 8-bit integer; failure
/// is an invalid-id error carrying the rejected representation.
pub fn id_from_guest(g: Guest) -> (r: Result<u8, RegistrationError>)
    ensures
        match spec_id_of_guest(g) {
            Some(id) => r == Ok::<u8, RegistrationError>(id),
            None => r == Err::<u8, RegistrationError>(RegistrationError::InvalidId { given: g }),
        },
{
    match g {
        Guest::Int(x) => {
            if 0 <= x && x <= 255 {
                Ok(x as u8)
            } else {
                Err(RegistrationError::InvalidId { given: Guest::Int(x) })
            }
        }
        Guest::Text(s) => {
            match parse_u8(s.as_str()) {
                Some(id) => Ok(id),
                None => Err(RegistrationError::InvalidId { given: Guest::Text(s) }),
            }
        }
        other => Err(RegistrationError::InvalidId { given: other }),
    }
}

/// The port type a convertible payload representation is shaped as.
pub open spec fn guest_payload_port(g: Guest) -> Option<PortType> {
    match g {
        Guest::Int(_) => Some(PortType::Simple),
        Guest::IntArray(_) => Some(PortType::Xbus),
        _ => None,
    }
}

/// The outcome of validating one declaration against the channels already
/// accumulated this step, in validation order: port type, owner and payload
/// conversion first, then id parsing, id uniqueness, and payload shape.
pub open spec fn declare_checks(
    pre: Seq<Channel>,
    id_g: Guest,
    pt_g: Guest,
    ow_g: Guest,
    val_g: Guest,
) -> Option<DeclareError> {
    match spec_port_type_from_guest(pt_g) {
        Err(e) => Some(DeclareError::Conversion(e)),
        Ok(pt) => match spec_owner_from_guest(ow_g) {
            Err(e) => Some(DeclareError::Conversion(e)),
            Ok(_) => match spec_value_conv_err(val_g) {
                Some(e) => Some(DeclareError::Conversion(e)),
                None => match spec_id_of_guest(id_g) {
                    None => Some(
                        DeclareError::Registration(RegistrationError::InvalidId { given: id_g }),
                    ),
                    Some(id) => if seq_contains_id(pre, id) {
                        Some(
                            DeclareError::Registration(RegistrationError::DuplicateChannel { id }),
                        )
                    } else if guest_payload_port(val_g) != Some(pt) {
                        Some(
                            DeclareError::Registration(
                                RegistrationError::PortTypeMismatch {
                                    id,
                                    declared: pt,
                                    actual: other_port(pt),
                                },
                            ),
                        )
                    } else {
                        None
                    },
                },
            },
        },
    }
}

/// The channel a successful declaration appends.
pub open spec fn declared_channel(
    id_g: Guest,
    pt_g: Guest,
    ow_g: Guest,
    val_g: Guest,
    c: Channel,
) -> bool {
    &&& spec_id_of_guest(id_g) == Some(c.id)
    &&& spec_owner_from_guest(ow_g) == Ok::<Owner, ConversionError>(c.owner)
    &&& c.values@.len() == 1
    &&& value_conv_rel(val_g, c.values@[0])
}

/// The per-step accumulator.  `channels` holds the declarations accepted so
/// far, in declaration order; `failure` records the first rejected
/// declaration, after which the step as a whole is failed and no further
/// channel is accepted.
pub struct Registry {
    pub channels: Vec<Channel>,
    pub failure: Option<DeclareError>,
}

impl Registry {
    /// The registry's invariant: accumulated channels are well-formed and
    /// carry pairwise distinct ids.
    pub open spec fn inv(&self) -> bool {
        ids_unique(self.channels@) && channels_wf(self.channels@)
    }

    /// An empty accumulator, as each step starts with.
    pub fn new() -> (r: Registry)
        ensures
            r.channels@ =~= Seq::<Channel>::empty(),
            r.failure is None,
            r.inv(),
    {
        Registry { channels: Vec::new(), failure: None }
    }

    /// Whether a channel with this id was already accepted this step.
    fn contains_id(&self, id: u8) -> (b: bool)
        ensures
            b == seq_contains_id(self.channels@, id),
    {
        let n = self.channels.len();
        let mut i: usize = 0;
        while i < n
            invariant
                i <= n,
                n == self.channels@.len(),
                forall|k: int| 0 <= k < i ==> (#[trigger] self.channels@[k]).id != id,
            decreases n - i,
        {
            if self.channels[i].id == id {
                return true;
            }
            i += 1;
        }
        false
    }

    /// Appends a channel after enforcing id uniqueness and port type
    /// consistency, in that order; on failure the registry is unchanged.
    #[verifier::loop_isolation(false)]
    pub fn register(&mut self, id: u8, port_type: PortType, owner: Owner, values: Vec<Payload>) -> (r:
        Result<(), RegistrationError>)
        requires
            values@.len() >= 1,
            values_wf(values@),
        ensures
            final(self).failure == old(self).failure,
            seq_contains_id(old(self).channels@, id) ==> (r == Err::<(), RegistrationError>(
                RegistrationError::DuplicateChannel { id },
            ) && final(self).channels@ == old(self).channels@),
            !seq_contains_id(old(self).channels@, id) && !values_match(values@, port_type) ==> (r
                == Err::<(), RegistrationError>(
                RegistrationError::PortTypeMismatch {
                    id,
                    declared: port_type,
                    actual: other_port(port_type),
                },
            ) && final(self).channels@ == old(self).channels@),
            !seq_contains_id(old(self).channels@, id) && values_match(values@, port_type) ==> (r
                == Ok::<(), RegistrationError>(()) && final(self).channels@ == old(
                self,
            ).channels@.push(Channel { id, owner, values })),
            old(self).inv() ==> final(self).inv(),
    {
        if self.contains_id(id) {
            return Err(RegistrationError::DuplicateChannel { id });
        }
        let n = values.len();
        let mut i: usize = 0;
        while i < n
            invariant
                i <= n,
                n == values@.len(),
                forall|k: int| 0 <= k < i ==> value_port(#[trigger] values@[k]) == port_type,
            decreases n - i,
        {
            let matches_declared = match (&values[i], port_type) {
                (Payload::Simple(_), PortType::Simple) => true,
                (Payload::Xbus(_), PortType::Xbus) => true,
                _ => false,
            };
            if !matches_declared {
                proof {
                    assert(value_port(values@[i as int]) != port_type);
                }
                return Err(
                    RegistrationError::PortTypeMismatch {
                        id,
                        declared: port_type,
                        actual: match port_type {
                            PortType::Simple => PortType::Xbus,
                            PortType::Xbus => PortType::Simple,
                        },
                    },
                );
            }
            i += 1;
        }
        let ghost pre = self.channels@;
        let channel = Channel { id, owner, values };
        self.channels.push(channel);
        proof {
            if ids_unique(pre) && channels_wf(pre) {
                let post = self.channels@;
                assert forall|a: int, b: int| 0 <= a < b < post.len() implies (
                #[trigger] post[a]).id != (#[trigger] post[b]).id by {
                    if b < post.len() - 1 {
                        assert(post[a] == pre[a] && post[b] == pre[b]);
                    } else {
                        assert(post[a] == pre[a]);
                        assert(!seq_contains_id(pre, id));
                        assert(pre[a].id != id);
                    }
                }
                assert forall|a: int| 0 <= a < post.len() implies channel_wf(
                    #[trigger] post[a],
                ) by {
                    if a < post.len() - 1 {
                        assert(post[a] == pre[a]);
                    } else {
                        assert(post[a] == Channel { id, owner, values });
                    }
                }
            }
        }
        Ok(())
    }

    /// The injected callback's validation pipeline for one declaration: the
    /// port type, owner and payload are marshalled, the id is parsed, and the
    /// channel is registered.  The first failure of the step is recorded and
    /// every later declaration of that step is ignored.  Returns whether the
    /// declaration was accepted.
    pub fn declare(
        &mut self,
        _name: &str,
        id: Guest,
        port_type: &Guest,
        owner: &Guest,
        value: Guest,
    ) -> (ok: bool)
        ensures
            old(self).inv() ==> final(self).inv(),
            old(self).failure is Some ==> (*final(self) == *old(self) && !ok),
            old(self).failure is None ==> match declare_checks(
                old(self).channels@,
                id,
                *port_type,
                *owner,
                value,
            ) {
                Some(e) => final(self).channels@ == old(self).channels@ && final(self).failure
                    == Some(e) && !ok,
                None => ok && final(self).failure is None && final(self).channels@.len() == old(
                    self,
                ).channels@.len() + 1 && final(self).channels@.drop_last() == old(self).channels@
                    && declared_channel(id, *port_type, *owner, value, final(self).channels@.last()),
            },
    {
        if self.failure.is_some() {
            return false;
        }
        let pt = match port_type_from_guest(port_type) {
            Ok(p) => p,
            Err(e) => {
                self.failure = Some(DeclareError::Conversion(e));
                return false;
            }
        };
        let ow = match owner_from_guest(owner) {
            Ok(o) => o,
            Err(e) => {
                self.failure = Some(DeclareError::Conversion(e));
                return false;
            }
        };
        let val = match value_from_guest(&value) {
            Ok(v) => v,
            Err(e) => {
                self.failure = Some(DeclareError::Conversion(e));
                return false;
            }
        };
        let cid = match id_from_guest(id) {
            Ok(i) => i,
            Err(e) => {
                self.failure = Some(DeclareError::Registration(e));
                return false;
            }
        };
        let ghost pre = self.channels@;
        let values: Vec<Payload> = vec![val];
        proof {
            assert(values@ =~= seq![val]);
        }
        match self.register(cid, pt, ow, values) {
            Ok(()) => {
                proof {
                    assert(self.channels@.drop_last() =~= pre);
                }
                true
            }
            Err(e) => {
                self.failure = Some(DeclareError::Registration(e));
                false
            }
        }
    }

    /// Closes the step: the accumulated channels become the step's sample,
    /// unless some declaration failed, in which case the whole step fails and
    /// no channel is retained.
    pub fn finish(self) -> (r: Result<Sample, DeclareError>)
        ensures
            self.failure matches Some(e) ==> r == Err::<Sample, DeclareError>(e),
            self.failure is None ==> (r matches Ok(s) && s.channels == self.channels),
            self.failure is None && self.inv() ==> (r matches Ok(s) && sample_wf(s)),
    {
        let Registry { channels, failure } = self;
        match failure {
            Some(e) => Err(e),
            None => Ok(Sample { channels }),
        }
    }
}

/// Law: once a channel with a given id has been accepted in a step, any
/// further declaration of that step whose id parses to the same id is rejected
/// as a duplicate (conversion of its other arguments succeeding).
pub proof fn lemma_duplicate_id_rejected(
    channels: Seq<Channel>,
    id_g: Guest,
    pt_g: Guest,
    ow_g: Guest,
    val_g: Guest,
    id: u8,
)
    requires
        seq_contains_id(channels, id),
        spec_id_of_guest(id_g) == Some(id),
        spec_port_type_from_guest(pt_g) is Ok,
        spec_owner_from_guest(ow_g) is Ok,
        spec_value_conv_err(val_g) is None,
    ensures
        declare_checks(channels, id_g, pt_g, ow_g, val_g) == Some(
            DeclareError::Registration(RegistrationError::DuplicateChannel { id }),
        ),
{
}

/// Law: a declaration whose payload shape differs from its declared port type
/// is rejected as a port type mismatch naming the id and both types, whenever
/// its id is fresh and parses.
pub proof fn lemma_port_type_mismatch_rejected(
    channels: Seq<Channel>,
    id_g: Guest,
    pt_g: Guest,
    ow_g: Guest,
    val_g: Guest,
    id: u8,
    pt: PortType,
)
    requires
        !seq_contains_id(channels, id),
        spec_id_of_guest(id_g) == Some(id),
        spec_port_type_from_guest(pt_g) == Ok::<PortType, ConversionError>(pt),
        spec_owner_from_guest(ow_g) is Ok,
        spec_value_conv_err(val_g) is None,
        guest_payload_port(val_g) != Some(pt),
    ensures
        declare_checks(channels, id_g, pt_g, ow_g, val_g) == Some(
            DeclareError::Registration(
                RegistrationError::PortTypeMismatch { id, declared: pt, actual: other_port(pt) },
            ),
        ),
{
}

} // verus!
