//! Plain protocol values shared by both protocol versions.

use vstd::prelude::*;
use std::sync::Arc;

verus! {

/// `Arc::clone`: another pointer to the same value.
#[verifier::external_body]
pub(crate) fn share<T>(shared: &Arc<T>) -> (copy: Arc<T>)
    ensures
        copy == *shared,
{
    Arc::clone(shared)
}

/// A broker-assigned dense integer that names one client for routing.
pub type ClientId = u64;

/// The largest length a variable byte integer can encode.
pub const MAX_REMAINING_LEN: usize = 268435455;

/// Protocol version of a connection.
#[derive(Debug, Clone, Copy, PartialEq, Eq, Structural)]
pub enum Protocol {
    V310,
    V311,
    V500,
}

impl Protocol {
    pub open spec fn spec_is_v5(self) -> bool {
        self is V500
    }

    /// Whether this is protocol version 5.0.
    #[verifier::when_used_as_spec(spec_is_v5)]
    pub fn is_v5(self) -> (v5: bool)
        ensures
            v5 == self.spec_is_v5(),
    {
        match self {
            Protocol::V500 => true,
            _ => false,
        }
    }
}

/// The kind of an I/O failure that ends a connection.
#[derive(Debug, Clone, Copy, PartialEq, Eq, Structural)]
pub enum ErrorKind {
    InvalidData,
    UnexpectedEof,
    TimedOut,
    Other,
}

/// Quality of service of a delivery.
#[derive(Debug, Clone, Copy, PartialEq, Eq, Structural)]
pub enum QoS {
    Level0,
    Level1,
    Level2,
}

impl QoS {
    /// The level as a number: 0, 1 or 2.
    pub open spec fn level(self) -> int {
        match self {
            QoS::Level0 => 0,
            QoS::Level1 => 1,
            QoS::Level2 => 2,
        }
    }

    /// The lower of two levels.
    pub open spec fn spec_min(self, other: QoS) -> QoS {
        if self.level() <= other.level() {
            self
        } else {
            other
        }
    }

    /// The level as a byte.
    pub fn value(self) -> (v: u8)
        ensures
            v as int == self.level(),
    {
        match self {
            QoS::Level0 => 0,
            QoS::Level1 => 1,
            QoS::Level2 => 2,
        }
    }

    /// The level for a byte, if the byte names one.
    pub fn from_u8(byte: u8) -> (qos: Option<QoS>)
        ensures
            byte <= 2 <==> qos is Some,
            qos is Some ==> qos->0.level() == byte as int,
    {
        match byte {
            0 => Some(QoS::Level0),
            1 => Some(QoS::Level1),
            2 => Some(QoS::Level2),
            _ => None,
        }
    }

    /// The lower of two levels: what a subscriber is granted for a publish.
    #[verifier::when_used_as_spec(spec_min)]
    pub fn min(self, other: QoS) -> (m: QoS)
        ensures
            m == self.spec_min(other),
    {
        if self.value() <= other.value() {
            self
        } else {
            other
        }
    }
}

/// What adding `n` to the packet identifier `pid` gives: the sum, wrapped
/// around past 65535 so that 0 is never reached.
pub open spec fn pid_sum(pid: u16, n: u16) -> int {
    if pid + n > 65535 {
        pid + n - 65535
    } else {
        pid + n
    }
}

/// Adds with `+` of `mqtt_proto::Pid`, which wraps around and avoids 0
/// (on overflow it adds one more). `pid` must not be 0, the one value
/// that `mqtt_proto::Pid` cannot hold.
#[verifier::external_body]
fn pid_add(pid: u16, n: u16) -> (next: u16)
    requires
        pid != 0,
    ensures
        next as int == pid_sum(pid, n),
{
    (mqtt_proto::Pid::try_from(pid).unwrap() + n).value()
}

/// Packet identifier: a number in 1..=65535.
#[derive(Debug, Clone, Copy, PartialEq, Eq, Structural)]
pub struct Pid {
    value: u16,
}

impl Pid {
    #[verifier::type_invariant]
    spec fn inv(self) -> bool {
        self.value != 0
    }

    pub closed spec fn spec_value(self) -> u16 {
        self.value
    }

    /// The first identifier, 1.
    pub closed spec fn spec_default() -> Pid {
        Pid { value: 1 }
    }

    /// The identifier for a number, unless the number is 0.
    pub fn try_from(value: u16) -> (pid: Option<Pid>)
        ensures
            value != 0 <==> pid is Some,
            pid is Some ==> pid->0.spec_value() == value,
    {
        if value == 0 {
            None
        } else {
            Some(Pid { value })
        }
    }

    /// The identifier as a number.
    #[verifier::when_used_as_spec(spec_value)]
    pub fn value(self) -> (v: u16)
        ensures
            v == self.spec_value(),
            v != 0,
    {
        proof {
            use_type_invariant(&self);
        }
        self.value
    }

    /// The identifier `n` steps on, wrapping around from 65535 to 1.
    pub fn wrapping_add(self, n: u16) -> (next: Pid)
        ensures
            next.spec_value() as int == pid_sum(self.spec_value(), n),
    {
        proof {
            use_type_invariant(&self);
        }
        Pid { value: pid_add(self.value, n) }
    }

}

/// Two packet identifiers with the same number are the same.
pub proof fn lemma_pid_equal(a: Pid, b: Pid)
    ensures
        (a.spec_value() == b.spec_value()) <==> a == b,
{
}

impl Default for Pid {
    /// The first identifier, 1.
    fn default() -> (pid: Pid)
        ensures
            pid == Pid::spec_default(),
            pid.spec_value() == 1,
    {
        Pid { value: 1 }
    }
}

/// Quality of service together with the packet identifier it needs.
#[derive(Debug, Clone, Copy, PartialEq, Eq, Structural)]
pub enum QosPid {
    Level0,
    Level1(Pid),
    Level2(Pid),
}

impl QosPid {
    pub open spec fn spec_qos(self) -> QoS {
        match self {
            QosPid::Level0 => QoS::Level0,
            QosPid::Level1(_) => QoS::Level1,
            QosPid::Level2(_) => QoS::Level2,
        }
    }

    pub open spec fn spec_pid(self) -> Option<Pid> {
        match self {
            QosPid::Level0 => None,
            QosPid::Level1(p) => Some(p),
            QosPid::Level2(p) => Some(p),
        }
    }

    /// The quality of service.
    #[verifier::when_used_as_spec(spec_qos)]
    pub fn qos(self) -> (q: QoS)
        ensures
            q == self.spec_qos(),
    {
        match self {
            QosPid::Level0 => QoS::Level0,
            QosPid::Level1(_) => QoS::Level1,
            QosPid::Level2(_) => QoS::Level2,
        }
    }

    /// The packet identifier, if the level has one.
    #[verifier::when_used_as_spec(spec_pid)]
    pub fn pid(self) -> (p: Option<Pid>)
        ensures
            p == self.spec_pid(),
    {
        match self {
            QosPid::Level0 => None,
            QosPid::Level1(p) => Some(p),
            QosPid::Level2(p) => Some(p),
        }
    }
}

} // verus!

verus! {

/// The bytes of a message, shared by everything that holds the message.
pub type Payload = Arc<Vec<u8>>;

/// A string shared by everything that holds it.
pub type SharedString = Arc<String>;

/// Another handle to an optional shared value.
pub(crate) fn share_opt<T>(shared: &Option<Arc<T>>) -> (copy: Option<Arc<T>>)
    ensures
        copy == *shared,
{
    match shared {
        Some(s) => Some(share(s)),
        None => None,
    }
}

} // verus!

verus! {

/// An IP address.
#[derive(Debug, Clone, Copy, PartialEq, Eq, Structural)]
pub enum IpAddr {
    V4(u32),
    V6(u128),
}

/// The address of the peer of a connection.
#[derive(Debug, Clone, Copy, PartialEq, Eq, Structural)]
pub struct PeerAddr {
    pub ip: IpAddr,
    pub port: u16,
}

} // verus!
