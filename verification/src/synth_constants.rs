//! Synthesizer-wide constants and the identifier of the embedded sound bank.
use vstd::prelude::*;
use vstd::string::*;
use std::time::Duration;
use std::time::SystemTimeError;
use crate::midi_system::MIDISystem;
use crate::text::{decimal_string, decimal_text};

verus! {

/// The synthesizer's default voice cap.
pub const VOICE_CAP: u32 = 350;

/// The default drum channel (0-indexed).
pub const DEFAULT_PERCUSSION: u8 = 9;

/// The default bank select and system exclusive mode.
pub const DEFAULT_SYNTH_MODE: MIDISystem = MIDISystem::Gs;

/// Generator value meaning "no override".
pub const GENERATOR_OVERRIDE_NO_CHANGE_VALUE: i16 = 32767;

/// The default render buffer size, in samples.
pub const SPESSA_BUFSIZE: usize = 128;

/// The number of real MIDI control change numbers.
pub const CONTROLLER_TABLE_SIZE: usize = 128;

/// The null registered parameter number.
pub const DEFAULT_RPN: u8 = 0x7f;

/// No NRPN is bound to 0 0, while an MSB of 0x7f is AWE32.
pub const DEFAULT_NRPN: u8 = 0;

#[verifier::external_type_specification]
#[verifier::external_body]
pub struct ExSystemTimeError(SystemTimeError);

/// Calls `std::time::UNIX_EPOCH.elapsed()`: the time since the Unix epoch, read from the
/// system clock. Nothing is stated of the result; it depends on the clock.
#[verifier::external_body]
fn time_since_unix_epoch() -> (r: Result<Duration, SystemTimeError>) {
    std::time::UNIX_EPOCH.elapsed()
}

/// Calls `Duration::subsec_nanos`: the fractional part of a duration in nanoseconds,
/// which std documents as always below one billion.
#[verifier::external_body]
fn duration_subsec_nanos(d: &Duration) -> (r: u32)
    ensures
        r < 1_000_000_000,
{
    d.subsec_nanos()
}

/// The text of the embedded sound bank identifier for a given nonce.
pub open spec fn embedded_id_text(nonce: nat) -> Seq<char> {
    "SPESSASYNTH_EMBEDDED_BANK_"@ + decimal_text(nonce) + "_DO_NOT_DELETE"@
}

/// The identifier of the embedded sound bank for a given nonce:
/// `SPESSASYNTH_EMBEDDED_BANK_<nonce>_DO_NOT_DELETE`.
pub fn embedded_sound_bank_id_for(nonce: u32) -> (r: String)
    ensures
        r@ == embedded_id_text(nonce as nat),
{
    let mut s = String::new();
    s.append("SPESSASYNTH_EMBEDDED_BANK_");
    let digits = decimal_string(nonce as u64);
    s.append(digits.as_str());
    s.append("_DO_NOT_DELETE");
    s
}

/// A fresh identifier for the embedded sound bank, whose number is taken from the
/// sub-second nanoseconds of the system clock (0 when the clock is before the epoch).
pub fn embedded_sound_bank_id() -> (r: String)
    ensures
        exists|nonce: nat| nonce < 1_000_000_000 && r@ == embedded_id_text(nonce),
{
    let nonce = match time_since_unix_epoch() {
        Ok(d) => duration_subsec_nanos(&d),
        Err(_) => 0,
    };
    let r = embedded_sound_bank_id_for(nonce);
    assert(r@ == embedded_id_text(nonce as nat));
    r
}

/// The embedded sound bank identifier kept in `cache`: the one already held there,
/// or else a fresh one (see [`embedded_sound_bank_id`]), which is stored so that
/// every later call with the same cache gives it back.
pub fn embedded_sound_bank_id_cached(cache: &mut Option<String>) -> (r: String)
    ensures
        match *old(cache) {
            Some(s) => r@ == s@ && *final(cache) == *old(cache),
            None => {
                &&& *final(cache) matches Some(f) && f@ == r@
                &&& exists|nonce: nat| nonce < 1_000_000_000 && r@ == embedded_id_text(nonce)
            },
        },
{
    match cache {
        Some(s) => s.clone(),
        None => {
            let id = embedded_sound_bank_id();
            *cache = Some(id.clone());
            id
        },
    }
}

} // verus!
