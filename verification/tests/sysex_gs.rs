use spessasynth_rs::midi_system::MIDISystem;
use spessasynth_rs::sysex_gs::{
    channel_to_syx, decode_gs, gs_data, is_gs_readable, gs_part_channel, gs_scale_tuning, GsChorusParameter,
    GsCommand, GsDelayParameter, GsEfxSend, GsReverbParameter, GsUnrecognized,
};

fn gs(a1: u8, a2: u8, a3: u8, data: &[u8]) -> Vec<u8> {
    gs_data(a1, a2, a3, data)
}

#[test]
fn gs_reset_message_bytes_and_checksum() {
    // F0 41 10 42 12 40 00 7F 00 41 F7 is the well-known GS reset.
    assert_eq!(gs(0x40, 0x00, 0x7f, &[0x00]), vec![0x41, 0x10, 0x42, 0x12, 0x40, 0x00, 0x7f, 0x00, 0x41, 0xf7]);
}

#[test]
fn gs_reset_and_gs_off_decode() {
    assert_eq!(decode_gs(&gs(0x40, 0x00, 0x7f, &[0x00]), 0), GsCommand::Reset(MIDISystem::Gs));
    assert_eq!(decode_gs(&gs(0x40, 0x00, 0x7f, &[0x7f]), 0), GsCommand::Reset(MIDISystem::Gm));
    assert_eq!(decode_gs(&gs(0x40, 0x00, 0x7f, &[0x12]), 0), GsCommand::Ignored);
}

#[test]
fn gs_non_dt1_is_not_recognized() {
    let mut m = gs(0x40, 0x00, 0x7f, &[0x00]);
    m[3] = 0x11;
    assert_eq!(decode_gs(&m, 0), GsCommand::NotRecognized(GsUnrecognized::RolandGs));
}

#[test]
fn gs_master_parameters_decode() {
    assert_eq!(decode_gs(&gs(0x40, 0x00, 0x04, &[100]), 0), GsCommand::MasterVolume { value: 100 });
    assert_eq!(decode_gs(&gs(0x40, 0x00, 0x06, &[32]), 0), GsCommand::MasterPan { value: 32 });
    assert_eq!(decode_gs(&gs(0x40, 0x00, 0x05, &[66]), 0), GsCommand::MasterKeyShift { cents: 200 });
    assert_eq!(
        decode_gs(&gs(0x40, 0x00, 0x33, &[1]), 0),
        GsCommand::NotRecognized(GsUnrecognized::RolandGs)
    );
}

#[test]
fn gs_part_numbers_map_to_channels() {
    assert_eq!(gs_part_channel(0), 9);
    assert_eq!(gs_part_channel(1), 0);
    assert_eq!(gs_part_channel(9), 8);
    assert_eq!(gs_part_channel(10), 10);
    assert_eq!(gs_part_channel(15), 15);
    for c in 0u8..16 {
        assert_eq!(gs_part_channel(channel_to_syx(c)), c);
    }
}

#[test]
fn gs_part_parameters_decode() {
    // Part 0 (channel 10) drum part with offset 16.
    assert_eq!(decode_gs(&gs(0x40, 0x10, 0x15, &[1]), 16), GsCommand::SetDrums { channel: 25, is_drums: true });
    assert_eq!(decode_gs(&gs(0x40, 0x11, 0x16, &[60]), 0), GsCommand::KeyShift { channel: 0, semitones: -4 });
    assert_eq!(decode_gs(&gs(0x40, 0x12, 0x1c, &[0]), 0), GsCommand::RandomPan { channel: 1 });
    assert_eq!(decode_gs(&gs(0x40, 0x12, 0x1c, &[20]), 0), GsCommand::Pan { channel: 1, value: 20 });
    assert_eq!(
        decode_gs(&gs(0x40, 0x1a, 0x21, &[70]), 0),
        GsCommand::ControllerChange { channel: 10, controller: 93, value: 70 }
    );
    assert_eq!(
        decode_gs(&gs(0x40, 0x1a, 0x22, &[70]), 0),
        GsCommand::ControllerChange { channel: 10, controller: 91, value: 70 }
    );
    assert_eq!(decode_gs(&gs(0x40, 0x13, 0x40, &[70]), 0), GsCommand::ScaleTuning { channel: 2, cents: 6 });
    assert_eq!(
        decode_gs(&gs(0x40, 0x13, 0x30, &[70]), 0),
        GsCommand::NotRecognized(GsUnrecognized::RolandGs)
    );
}

#[test]
fn gs_scale_tuning_bytes() {
    let m = gs(0x40, 0x11, 0x40, &[64, 65, 0, 127, 64, 64, 64, 64, 64, 64, 64, 70]);
    assert_eq!(gs_scale_tuning(&m), vec![0, 1, -64, 63, 0, 0, 0, 0, 0, 0, 0, 6]);
    let short = gs(0x40, 0x11, 0x40, &[66, 62]);
    assert_eq!(gs_scale_tuning(&short), vec![2, -2, 0, 0, 0, 0, 0, 0, 0, 0, 0, 0]);
}

#[test]
fn gs_controller_receive_modulators_decode() {
    // Mod wheel (upper nibble 0) to LFO1 pitch depth (4), value 100:
    // 100 / 128 * 600 cents = 468.75 cents = 60000 / 128.
    assert_eq!(
        decode_gs(&gs(0x40, 0x21, 0x04, &[100]), 0),
        GsCommand::SysExModulator { channel: 0, source: 1, destination: 6, amount_128ths: 60000, is_bipolar: false }
    );
    // Channel pressure to cutoff, value 96: (96 - 64) / 64 * 9600 = 4800 cents.
    assert_eq!(
        decode_gs(&gs(0x40, 0x21, 0x21, &[96]), 0),
        GsCommand::SysExModulator { channel: 0, source: 141, destination: 8, amount_128ths: 4800 * 128, is_bipolar: false }
    );
    // Pitch wheel pitch control sets the pitch wheel range instead.
    assert_eq!(decode_gs(&gs(0x40, 0x21, 0x10, &[76]), 0), GsCommand::PitchWheelRange { channel: 0, semitones: 12 });
    assert_eq!(decode_gs(&gs(0x40, 0x21, 0x10, &[10]), 0), GsCommand::PitchWheelRange { channel: 0, semitones: 0 });
    // Rate control is ignored.
    assert_eq!(decode_gs(&gs(0x40, 0x21, 0x03, &[10]), 0), GsCommand::Ignored);
    // Unknown source block.
    assert_eq!(
        decode_gs(&gs(0x40, 0x21, 0x40, &[10]), 0),
        GsCommand::NotRecognized(GsUnrecognized::RolandGs)
    );
}

#[test]
fn gs_effect_blocks_decode() {
    assert_eq!(
        decode_gs(&gs(0x40, 0x01, 0x30, &[4]), 0),
        GsCommand::Reverb { parameter: GsReverbParameter::Macro, value: 4 }
    );
    assert_eq!(decode_gs(&gs(0x40, 0x01, 0x36, &[4]), 0), GsCommand::Ignored);
    assert_eq!(
        decode_gs(&gs(0x40, 0x01, 0x40, &[9]), 0),
        GsCommand::Chorus { parameter: GsChorusParameter::SendToDelay, value: 9 }
    );
    assert_eq!(
        decode_gs(&gs(0x40, 0x01, 0x5a, &[9]), 0),
        GsCommand::Delay { parameter: GsDelayParameter::SendToReverb, value: 9 }
    );
    assert_eq!(decode_gs(&gs(0x40, 0x01, 0x00, &[0x41, 0x42]), 0), GsCommand::PatchName);
}

#[test]
fn gs_insertion_effect_messages_decode() {
    assert_eq!(decode_gs(&gs(0x40, 0x03, 0x00, &[0x01, 0x10]), 0), GsCommand::EfxType { efx_type: 0x0110 });
    assert_eq!(decode_gs(&gs(0x40, 0x03, 0x05, &[200]), 0), GsCommand::EfxParameter { address: 5, value: 127 });
    assert_eq!(
        decode_gs(&gs(0x40, 0x03, 0x19, &[50]), 0),
        GsCommand::EfxSend { target: GsEfxSend::Delay, value: 50 }
    );
    assert_eq!(
        decode_gs(&gs(0x40, 0x03, 0x1a, &[50]), 0),
        GsCommand::NotRecognized(GsUnrecognized::RolandGsEfx)
    );
    assert_eq!(decode_gs(&gs(0x40, 0x41, 0x22, &[1]), 0), GsCommand::EfxAssign { channel: 0, enabled: true });
    assert_eq!(
        decode_gs(&gs(0x40, 0x41, 0x00, &[3]), 0),
        GsCommand::ControllerChange { channel: 0, controller: 32, value: 3 }
    );
    assert_eq!(
        decode_gs(&gs(0x40, 0x41, 0x23, &[3]), 0),
        GsCommand::NotRecognized(GsUnrecognized::RolandGsPatchPart)
    );
}

#[test]
fn roland_display_and_master_volume() {
    assert_eq!(decode_gs(&[0x41, 0x10, 0x45, 0x12, 0x10, 0x00, 0x00, 0x41, 0x00, 0xf7], 0), GsCommand::Display);
    assert_eq!(
        decode_gs(&[0x41, 0x10, 0x45, 0x12, 0x10, 0x02, 0x00, 0x41, 0x00, 0xf7], 0),
        GsCommand::NotRecognized(GsUnrecognized::RolandGs)
    );
    assert_eq!(
        decode_gs(&[0x41, 0x10, 0x16, 0x12, 0x10, 0x00, 0x00, 90, 0x00, 0xf7], 0),
        GsCommand::RolandMasterVolume { value: 90 }
    );
    assert_eq!(decode_gs(&[0x41, 0x10, 0x99, 0x12], 0), GsCommand::Ignored);
}

#[test]
fn gs_readability_follows_the_message_kind() {
    assert!(!is_gs_readable(&[0x41, 0x10, 0x42]));
    // Not a data set: only the header is read.
    assert!(is_gs_readable(&[0x41, 0x10, 0x42, 0x11]));
    // A GS data set needs its address and first data byte.
    assert!(!is_gs_readable(&[0x41, 0x10, 0x42, 0x12, 0x40, 0x00, 0x7f]));
    assert!(is_gs_readable(&[0x41, 0x10, 0x42, 0x12, 0x40, 0x00, 0x7f, 0x00]));
    // Display messages read the byte after the address when it is 0x10.
    assert!(!is_gs_readable(&[0x41, 0x10, 0x45, 0x12, 0x10]));
    assert!(is_gs_readable(&[0x41, 0x10, 0x45, 0x12, 0x11]));
}
