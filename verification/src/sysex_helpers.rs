//! The log lines written for system exclusive messages.
use vstd::prelude::*;
use vstd::string::*;
use crate::text::{array_to_hex_string, decimal_string, decimal_text, hex_text};

verus! {

/// `"Channel <channel> <what>. <value> <units>, with <hex bytes>"`.
pub open spec fn sys_ex_logging_text(
    syx: Seq<u8>,
    channel: u8,
    value: Seq<char>,
    what: Seq<char>,
    units: Seq<char>,
) -> Seq<char> {
    seq!['C', 'h', 'a', 'n', 'n', 'e', 'l', ' '] + decimal_text(channel as nat) + seq![' '] + what
        + seq!['.', ' '] + value + seq![' '] + units + seq![',', ' ', 'w', 'i', 't', 'h', ' ']
        + hex_text(syx)
}

/// `"Unrecognized <what> SysEx: <hex bytes>"`.
pub open spec fn sys_ex_not_recognized_text(syx: Seq<u8>, what: Seq<char>) -> Seq<char> {
    seq!['U', 'n', 'r', 'e', 'c', 'o', 'g', 'n', 'i', 'z', 'e', 'd', ' '] + what
        + seq![' ', 'S', 'y', 's', 'E', 'x', ':', ' '] + hex_text(syx)
}

/// The informational line for a system exclusive change of a channel parameter:
/// `"Channel <channel> <what>. <value> <units>, with <hex bytes>"`.
pub fn sys_ex_logging(syx: &[u8], channel: u8, value: &str, what: &str, units: &str) -> (r: String)
    ensures
        r@ == sys_ex_logging_text(syx@, channel, value@, what@, units@),
{
    let mut s = String::new();
    proof {
        reveal_strlit("Channel ");
        reveal_strlit(" ");
        reveal_strlit(". ");
        reveal_strlit(", with ");
    }
    s.append("Channel ");
    let c = decimal_string(channel as u64);
    s.append(c.as_str());
    s.append(" ");
    s.append(what);
    s.append(". ");
    s.append(value);
    s.append(" ");
    s.append(units);
    s.append(", with ");
    let hex = array_to_hex_string(syx);
    s.append(hex.as_str());
    proof {
        assert(s@ =~= sys_ex_logging_text(syx@, channel, value@, what@, units@));
    }
    s
}

/// The informational line for a system exclusive message that is not recognized:
/// `"Unrecognized <what> SysEx: <hex bytes>"`.
pub fn sys_ex_not_recognized(syx: &[u8], what: &str) -> (r: String)
    ensures
        r@ == sys_ex_not_recognized_text(syx@, what@),
{
    let mut s = String::new();
    proof {
        reveal_strlit("Unrecognized ");
        reveal_strlit(" SysEx: ");
    }
    s.append("Unrecognized ");
    s.append(what);
    s.append(" SysEx: ");
    let hex = array_to_hex_string(syx);
    s.append(hex.as_str());
    proof {
        assert(s@ =~= sys_ex_not_recognized_text(syx@, what@));
    }
    s
}

} // verus!
