//! The fixed-width command datagram and the angle acknowledgment.
//!
//! A command is a kind byte followed, for `SetAngles`, by five big-endian
//! angles. The acknowledgment is five little-endian angles. The two byte
//! orders differ on purpose: peers on the wire rely on both.

use vstd::prelude::*;

verus! {

/// Number of joints, and of angles in a command or an acknowledgment.
pub const JOINT_COUNT: usize = 5;

/// Length of a `SetAngles` command, the longest command there is.
pub const MAX_CONTROL_SIGNAL_SIZE: usize = 11;

/// Length of an acknowledgment: two bytes per joint.
pub const ACK_SIZE: usize = 10;

/// Kind byte of a command that sets all five angles.
pub const KIND_SET_ANGLES: u8 = 0;

/// Kind byte of a liveness check.
pub const KIND_PING: u8 = 1;

/// Kind byte reserved for configuration; it has no effect.
pub const KIND_CONFIG: u8 = 2;

/// A decoded command.
#[derive(Debug, Clone, Copy, PartialEq, Eq)]
pub enum Command {
    /// New angles in joint order: Top, Shoulder, UpperArm, Elbow, LowerArm.
    SetAngles([u16; 5]),
    Ping,
    Config,
}

/// Why a datagram was not a command.
#[derive(Debug, Clone, Copy, PartialEq, Eq)]
pub enum CodecError {
    /// Empty, or shorter than its kind needs.
    TooShort,
    /// The kind byte is none of the known kinds.
    UnknownKind(u8),
}

/// The 16-bit value of a big-endian byte pair.
pub open spec fn be_u16(hi: u8, lo: u8) -> u16 {
    (hi as int * 256 + lo as int) as u16
}

/// The 16-bit value of a little-endian byte pair.
pub open spec fn le_u16(lo: u8, hi: u8) -> u16 {
    (lo as int + hi as int * 256) as u16
}

/// The five angles that a `SetAngles` command carries after its kind byte.
pub open spec fn command_angles(b: Seq<u8>) -> Seq<u16> {
    Seq::new(5, |j: int| be_u16(b[2 * j + 1], b[2 * j + 2]))
}

/// A datagram too short for a command: empty, or a `SetAngles` kind byte
/// without its ten angle bytes.
pub open spec fn too_short(b: Seq<u8>) -> bool {
    b.len() == 0 || (b[0] == KIND_SET_ANGLES && b.len() < MAX_CONTROL_SIGNAL_SIZE)
}

/// A datagram whose kind byte is unknown.
pub open spec fn unknown_kind(b: Seq<u8>) -> bool {
    b.len() > 0 && b[0] > KIND_CONFIG
}

/// `r` is what decoding the datagram `b` gives.
pub open spec fn decodes_to(b: Seq<u8>, r: Result<Command, CodecError>) -> bool {
    match r {
        Ok(Command::SetAngles(a)) => !too_short(b) && b[0] == KIND_SET_ANGLES && a@
            == command_angles(b),
        Ok(Command::Ping) => b.len() > 0 && b[0] == KIND_PING,
        Ok(Command::Config) => b.len() > 0 && b[0] == KIND_CONFIG,
        Err(CodecError::TooShort) => too_short(b),
        Err(CodecError::UnknownKind(k)) => unknown_kind(b) && k == b[0],
    }
}

/// The acknowledgment of the angles `a`: low byte, then high byte, of each.
pub open spec fn ack_bytes(a: Seq<u16>) -> Seq<u8> {
    Seq::new(2 * a.len(), |i: int| if i % 2 == 0 { (a[i / 2] % 256) as u8 } else { (a[i / 2] / 256) as u8 })
}

/// The angles that the acknowledgment `b` reports.
pub open spec fn ack_angles(b: Seq<u8>) -> Seq<u16> {
    Seq::new(b.len() / 2, |j: int| le_u16(b[2 * j], b[2 * j + 1]))
}

/// Decodes one datagram. Bytes past those the kind needs are ignored.
pub fn decode(bytes: &[u8]) -> (r: Result<Command, CodecError>)
    ensures
        decodes_to(bytes@, r),
{
    if bytes.len() == 0 {
        return Err(CodecError::TooShort);
    }
    let kind = bytes[0];
    if kind == KIND_SET_ANGLES {
        if bytes.len() < MAX_CONTROL_SIGNAL_SIZE {
            return Err(CodecError::TooShort);
        }
        let mut angles: [u16; 5] = [0u16; 5];
        let mut j: usize = 0;
        while j < JOINT_COUNT
            invariant
                j <= JOINT_COUNT,
                bytes@.len() >= MAX_CONTROL_SIGNAL_SIZE,
                angles@.len() == 5,
                forall|k: int| 0 <= k < j ==> angles@[k] == command_angles(bytes@)[k],
            decreases JOINT_COUNT - j,
        {
            let hi = bytes[2 * j + 1];
            let lo = bytes[2 * j + 2];
            angles[j] = (hi as u16) * 256 + lo as u16;
            j = j + 1;
        }
        assert(angles@ =~= command_angles(bytes@));
        Ok(Command::SetAngles(angles))
    } else if kind == KIND_PING {
        Ok(Command::Ping)
    } else if kind == KIND_CONFIG {
        Ok(Command::Config)
    } else {
        Err(CodecError::UnknownKind(kind))
    }
}

/// Encodes the acknowledgment of five angles, each as low byte then high byte.
pub fn encode_ack(angles: &[u16; 5]) -> (r: Vec<u8>)
    ensures
        r@ == ack_bytes(angles@),
        r@.len() == ACK_SIZE,
{
    let mut out: Vec<u8> = Vec::with_capacity(ACK_SIZE);
    let mut j: usize = 0;
    while j < JOINT_COUNT
        invariant
            j <= JOINT_COUNT,
            angles@.len() == 5,
            out@.len() == 2 * j,
            forall|i: int| 0 <= i < 2 * j ==> out@[i] == ack_bytes(angles@)[i],
        decreases JOINT_COUNT - j,
    {
        let a = angles[j];
        out.push((a % 256) as u8);
        out.push((a / 256) as u8);
        j = j + 1;
    }
    assert(out@ =~= ack_bytes(angles@));
    out
}

/// Decoding a `SetAngles` command and acknowledging its angles reports the
/// same five values, though the byte order of the two differs.
pub proof fn lemma_ack_round_trip(b: Seq<u8>)
    requires
        !too_short(b),
        b[0] == KIND_SET_ANGLES,
    ensures
        ack_angles(ack_bytes(command_angles(b))) == command_angles(b),
{
    let a = command_angles(b);
    let e = ack_bytes(a);
    assert forall|j: int| 0 <= j < 5 implies #[trigger] ack_angles(e)[j] == a[j] by {
        assert(e[2 * j] == (a[j] % 256) as u8);
        assert(e[2 * j + 1] == (a[j] / 256) as u8);
    }
    assert(ack_angles(e) =~= a);
}

} // verus!
