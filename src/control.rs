//! The decisions of the receive loop.
//!
//! The caller polls the socket without blocking and hands each outcome to
//! [`Limb::step`]. The reaction says what to do next: which duties to write
//! to the five channels, what to show on the display, and what to send back
//! to the sender. The caller performs those effects in that order.

use vstd::prelude::*;
use crate::codec::{
    ack_bytes, command_angles, decode, encode_ack, too_short, unknown_kind, CodecError, Command,
    JOINT_COUNT, KIND_PING, KIND_SET_ANGLES, MAX_CONTROL_SIGNAL_SIZE,
};
use crate::servo::{duty_at, Servo, ServoView};
use crate::status::{render_status, status_text};

verus! {

/// Period of the heartbeat indicator's timer alarm, in microseconds. The
/// heartbeat toggles on its own timer and shares nothing with this loop.
pub const HEARTBEAT_PERIOD_US: u64 = 1_000_000;

/// What one non-blocking receive gave.
#[derive(Debug, PartialEq, Eq)]
pub enum Received {
    /// A datagram arrived; these are its bytes.
    Datagram(Vec<u8>),
    /// Nothing is waiting.
    WouldBlock,
    /// The transport failed.
    Failed,
}

/// What the caller does after one receive.
#[derive(Debug, PartialEq, Eq)]
pub enum Reaction {
    /// Nothing: poll again.
    Idle,
    /// The datagram was not a command; it is dropped without a reply.
    Rejected(CodecError),
    /// A configuration command, reserved: nothing to do.
    Ignored,
    /// New angles were applied: write `duties` to the channels in joint
    /// order, show `status`, then send `ack` to the sender.
    Applied { duties: Vec<u64>, status: String, ack: Vec<u8> },
    /// A liveness check: send `ack`, the current angles, to the sender.
    Pong { ack: Vec<u8> },
}

/// The angles of the servos `v`, in their order.
pub open spec fn joint_angles(v: Seq<ServoView>) -> Seq<u16> {
    Seq::new(v.len(), |i: int| v[i].angle)
}

/// The servos `v` with the angles `a` commanded, each to its own.
pub open spec fn with_angles(v: Seq<ServoView>, a: Seq<u16>) -> Seq<ServoView> {
    Seq::new(v.len(), |i: int| ServoView { angle: a[i], ..v[i] })
}

/// The reaction to a `SetAngles` command with the angles `a`, given the
/// servos after the command.
pub open spec fn applied(after: Seq<ServoView>, a: Seq<u16>, r: Reaction) -> bool {
    match r {
        Reaction::Applied { duties, status, ack } => {
            &&& duties@.len() == JOINT_COUNT
            &&& forall|i: int| 0 <= i < JOINT_COUNT ==> duties@[i] == duty_at(after[i], a[i])
            &&& status@ == status_text(after)
            &&& ack@ == ack_bytes(joint_angles(after))
        },
        _ => false,
    }
}

/// Handling the datagram `b` takes the servos from `before` to `after` and
/// gives the reaction `r`.
pub open spec fn handles(before: Seq<ServoView>, b: Seq<u8>, after: Seq<ServoView>, r: Reaction) -> bool {
    if too_short(b) {
        after == before && r == Reaction::Rejected(CodecError::TooShort)
    } else if unknown_kind(b) {
        after == before && r == Reaction::Rejected(CodecError::UnknownKind(b[0]))
    } else if b[0] == KIND_SET_ANGLES {
        after == with_angles(before, command_angles(b)) && applied(after, command_angles(b), r)
    } else if b[0] == KIND_PING {
        after == before && match r {
            Reaction::Pong { ack } => ack@ == ack_bytes(joint_angles(before)),
            _ => false,
        }
    } else {
        after == before && r == Reaction::Ignored
    }
}

/// The command that a failed receive stands for: all zero bytes, which sets
/// every joint to angle zero.
pub open spec fn failure_command() -> Seq<u8> {
    Seq::new(MAX_CONTROL_SIGNAL_SIZE as nat, |i: int| 0u8)
}

/// The five servos of the limb, in joint order: Top, Shoulder, UpperArm,
/// Elbow, LowerArm.
pub struct Limb {
    servos: Vec<Servo>,
}

impl View for Limb {
    type V = Seq<ServoView>;

    closed spec fn view(&self) -> Seq<ServoView> {
        self.servos@.map_values(|s: Servo| s@)
    }
}

impl Limb {
    /// Five well-formed servos.
    pub closed spec fn wf(&self) -> bool {
        &&& self.servos@.len() == JOINT_COUNT
        &&& forall|i: int| 0 <= i < JOINT_COUNT ==> (#[trigger] self.servos@[i]).wf()
    }

    /// The limb made of `servos`, given in joint order.
    pub fn new(servos: Vec<Servo>) -> (l: Limb)
        requires
            servos@.len() == JOINT_COUNT,
            forall|i: int| 0 <= i < servos@.len() ==> (#[trigger] servos@[i]).wf(),
        ensures
            l.wf(),
            l@ == servos@.map_values(|s: Servo| s@),
    {
        Limb { servos }
    }

    /// The current angles, in joint order.
    pub fn angles(&self) -> (r: [u16; 5])
        requires
            self.wf(),
        ensures
            r@ == joint_angles(self@),
            self@.len() == JOINT_COUNT,
    {
        let mut r: [u16; 5] = [0u16; 5];
        let mut j: usize = 0;
        while j < JOINT_COUNT
            invariant
                self.wf(),
                j <= JOINT_COUNT,
                r@.len() == 5,
                forall|k: int| 0 <= k < j ==> r@[k] == joint_angles(self@)[k],
            decreases JOINT_COUNT - j,
        {
            r[j] = self.servos[j].get_angle();
            j = j + 1;
        }
        assert(r@ =~= joint_angles(self@));
        r
    }

    /// The acknowledgment of the current angles.
    pub fn ack(&self) -> (r: Vec<u8>)
        requires
            self.wf(),
        ensures
            r@ == ack_bytes(joint_angles(self@)),
    {
        let a = self.angles();
        encode_ack(&a)
    }

    /// The status text of the current angles.
    pub fn status(&self) -> (r: String)
        ensures
            r@ == status_text(self@),
    {
        render_status(&self.servos)
    }

    /// Commands each joint to its angle of `a`, in joint order, and returns
    /// the duties to write to the channels, in the same order.
    pub fn set_angles(&mut self, a: &[u16; 5]) -> (duties: Vec<u64>)
        requires
            old(self).wf(),
        ensures
            final(self).wf(),
            final(self)@.len() == JOINT_COUNT,
            final(self)@ == with_angles(old(self)@, a@),
            duties@.len() == JOINT_COUNT,
            forall|i: int|
                0 <= i < JOINT_COUNT ==> duties@[i] == duty_at(final(self)@[i], a@[i]),
    {
        let ghost before = self@;
        let mut duties: Vec<u64> = Vec::with_capacity(JOINT_COUNT);
        let mut j: usize = 0;
        while j < JOINT_COUNT
            invariant
                self.wf(),
                j <= JOINT_COUNT,
                a@.len() == 5,
                before.len() == JOINT_COUNT,
                self@.len() == JOINT_COUNT,
                forall|k: int| 0 <= k < j ==> self@[k] == with_angles(before, a@)[k],
                forall|k: int| j <= k < JOINT_COUNT ==> self@[k] == before[k],
                duties@.len() == j,
                forall|k: int| 0 <= k < j ==> duties@[k] == duty_at(self@[k], a@[k]),
            decreases JOINT_COUNT - j,
        {
            let ghost prev = self.servos@;
            let d = self.servos[j].set_angle(a[j]);
            proof {
                assert(self.servos@ == prev.update(j as int, self.servos@[j as int]));
                assert(self@[j as int] == with_angles(before, a@)[j as int]);
                assert forall|k: int| 0 <= k < JOINT_COUNT && k != j implies self@[k]
                    == prev.map_values(|s: Servo| s@)[k] by {
                    assert(self.servos@[k] == prev[k]);
                }
            }
            duties.push(d);
            j = j + 1;
        }
        assert(self@ =~= with_angles(before, a@));
        duties
    }

    /// Handles one datagram: decodes it and acts on the command.
    pub fn handle(&mut self, bytes: &[u8]) -> (r: Reaction)
        requires
            old(self).wf(),
        ensures
            final(self).wf(),
            final(self)@.len() == JOINT_COUNT,
            handles(old(self)@, bytes@, final(self)@, r),
    {
        match decode(bytes) {
            Err(e) => Reaction::Rejected(e),
            Ok(Command::SetAngles(a)) => {
                let duties = self.set_angles(&a);
                let status = self.status();
                let ack = self.ack();
                assert(joint_angles(self@) =~= a@);
                Reaction::Applied { duties, status, ack }
            },
            Ok(Command::Ping) => Reaction::Pong { ack: self.ack() },
            Ok(Command::Config) => Reaction::Ignored,
        }
    }

    /// Acts on one receive outcome. Nothing waiting changes nothing. A failed
    /// receive is taken as an all-zero `SetAngles` command, which drives
    /// every joint to angle zero.
    pub fn step(&mut self, received: &Received) -> (r: Reaction)
        requires
            old(self).wf(),
        ensures
            final(self).wf(),
            final(self)@.len() == JOINT_COUNT,
            received is WouldBlock ==> r == Reaction::Idle && final(self)@ == old(self)@,
            received is Failed ==> handles(old(self)@, failure_command(), final(self)@, r),
            received is Datagram ==> handles(old(self)@, received->Datagram_0@, final(self)@, r),
    {
        match received {
            Received::WouldBlock => Reaction::Idle,
            Received::Failed => {
                let zeros: Vec<u8> = vec![0u8; MAX_CONTROL_SIGNAL_SIZE];
                assert(zeros@ =~= failure_command());
                self.handle(zeros.as_slice())
            },
            Received::Datagram(bytes) => self.handle(bytes.as_slice()),
        }
    }
}

} // verus!
