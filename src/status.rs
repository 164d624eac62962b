//! Text for the status display.

use vstd::prelude::*;
use crate::servo::{status_line, Servo, ServoView};

verus! {

/// Major version shown on the start-up screen.
pub const VERSION_MAJ: u64 = 0;

/// Minor version shown on the start-up screen.
pub const VERSION_MIN: u64 = 6;

/// First line of the servo status text.
pub open spec fn status_header() -> Seq<char> {
    "Servo Positions:\n"@
}

/// The status lines of `v`, one per servo, joined by line breaks.
pub open spec fn status_lines(v: Seq<ServoView>) -> Seq<char>
    decreases v.len(),
{
    if v.len() == 0 {
        Seq::empty()
    } else if v.len() == 1 {
        status_line(v[0])
    } else {
        status_lines(v.drop_last()) + seq!['\n'] + status_line(v.last())
    }
}

/// The whole status text: the header, then one line per servo.
pub open spec fn status_text(v: Seq<ServoView>) -> Seq<char> {
    status_header() + status_lines(v)
}

/// Builds the status text of `servos`, in their order.
pub fn render_status(servos: &Vec<Servo>) -> (r: String)
    ensures
        r@ == status_text(servos@.map_values(|s: Servo| s@)),
{
    let ghost v = servos@.map_values(|s: Servo| s@);
    let mut text = String::from_str("Servo Positions:\n");
    let mut i: usize = 0;
    while i < servos.len()
        invariant
            i <= servos@.len(),
            v == servos@.map_values(|s: Servo| s@),
            text@ == status_header() + status_lines(v.take(i as int)),
        decreases servos@.len() - i,
    {
        if i > 0 {
            text.append("\n");
        }
        let line = servos[i].to_string();
        text.append(line.as_str());
        proof {
            reveal_strlit("\n");
            let t = v.take(i + 1);
            assert(t.drop_last() =~= v.take(i as int));
            assert(t.last() == v[i as int]);
            if i == 0 {
                assert(status_lines(v.take(0)) =~= Seq::<char>::empty());
            }
        }
        assert(text@ =~= status_header() + status_lines(v.take(i + 1)));
        i = i + 1;
    }
    assert(v.take(i as int) =~= v);
    text
}

/// The start-up screen: the firmware version and the local address.
pub fn banner(ip: &str) -> (r: String)
    ensures
        r@ == "Robotic Limb V"@ + crate::text::decimal(VERSION_MAJ as nat) + seq!['.']
            + crate::text::decimal(VERSION_MIN as nat) + "\nIP Address: \n"@ + ip@,
{
    let mut s = String::from_str("Robotic Limb V");
    crate::text::push_decimal(&mut s, VERSION_MAJ);
    s.append(".");
    crate::text::push_decimal(&mut s, VERSION_MIN);
    s.append("\nIP Address: \n");
    s.append(ip);
    proof {
        reveal_strlit(".");
    }
    assert(s@ =~= "Robotic Limb V"@ + crate::text::decimal(VERSION_MAJ as nat) + seq!['.']
        + crate::text::decimal(VERSION_MIN as nat) + "\nIP Address: \n"@ + ip@);
    s
}

} // verus!
