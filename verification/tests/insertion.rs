use spessasynth_rs::midi_channel::MidiChannel;
use spessasynth_rs::insertion::{
    get_insertion_snapshot, insertion_restore_messages, reset_insertion_params, GsEffectState, InsertionProcessorSnapshot,
    InsertionSnapshot,
};
use spessasynth_rs::sysex_gs::{decode_gs, GsCommand, GsDelayParameter, GsEfxSend};

#[test]
fn default_insertion_cache() {
    let p = reset_insertion_params();
    assert_eq!(p.len(), 23);
    assert!(p[..20].iter().all(|v| *v == 255));
    assert_eq!(&p[20..], &[40, 0, 0]);
}

#[test]
fn insertion_snapshot_new_defaults() {
    let s = InsertionSnapshot::new();
    assert_eq!(s.efx_type, 0);
    assert_eq!(s.params, vec![255u8; 20]);
    assert_eq!(s.send_level_to_reverb, 40);
    assert_eq!(s.send_level_to_chorus, 0);
    assert_eq!(s.send_level_to_delay, 0);
}

#[test]
fn effect_state_tracks_parameters_and_flags() {
    let mut st = GsEffectState::new();
    st.apply(&GsCommand::EfxParameter { address: 3, value: 10 });
    st.apply(&GsCommand::EfxParameter { address: 0x16, value: 20 });
    assert_eq!(st.insertion_params[0], 10);
    assert_eq!(st.insertion_params[19], 20);
    assert!(!st.delay_active);
    st.apply(&GsCommand::Delay { parameter: GsDelayParameter::Level, value: 3 });
    assert!(st.delay_active);
    assert!(!st.insertion_active);
    st.apply(&GsCommand::EfxAssign { channel: 2, enabled: false });
    assert!(!st.insertion_active);
    st.apply(&GsCommand::EfxAssign { channel: 2, enabled: true });
    assert!(st.insertion_active);
    st.apply(&GsCommand::EfxType { efx_type: 0x0100 });
    assert!(st.insertion_params[..20].iter().all(|v| *v == 255));
    assert_eq!(&st.insertion_params[20..], &[40, 0, 0]);
}

#[test]
fn restoring_a_snapshot_reproduces_its_parameters() {
    let mut params = vec![255u8; 23];
    params[0] = 12;
    params[7] = 127;
    params[19] = 0;
    params[20] = 90;
    let snapshot = InsertionProcessorSnapshot { efx_type: 0x0111, params: params.clone(), channels: vec![true, false, true] };
    let msgs = insertion_restore_messages(&snapshot);
    // Type, four set entries, three channels.
    assert_eq!(msgs.len(), 1 + 4 + 3);
    let mut st = GsEffectState::new();
    st.apply(&GsCommand::EfxParameter { address: 4, value: 99 });
    let mut cmds = Vec::new();
    for m in &msgs {
        let c = decode_gs(m, 0);
        st.apply(&c);
        cmds.push(c);
    }
    assert_eq!(cmds[0], GsCommand::EfxType { efx_type: 0x0111 });
    assert_eq!(cmds[4], GsCommand::EfxSend { target: GsEfxSend::Reverb, value: 90 });
    assert_eq!(cmds[5], GsCommand::EfxAssign { channel: 0, enabled: true });
    assert_eq!(cmds[6], GsCommand::EfxAssign { channel: 1, enabled: false });
    assert_eq!(&st.insertion_params[..20], &params[..20]);
    assert!(st.insertion_active);
}

#[test]
fn insertion_reset_clears_cache_flag_and_assignments_unless_locked() {
    let mut state = GsEffectState::new();
    state.insertion_active = true;
    state.delay_active = true;
    state.insertion_params[0] = 7;
    let mut chs = vec![MidiChannel::new(0), MidiChannel::new(1)];
    chs[1].insertion_enabled = true;
    assert!(!state.reset_insertion(true, &mut chs));
    assert!(state.insertion_active);
    assert!(chs[1].insertion_enabled);
    assert_eq!(state.insertion_params[0], 7);
    assert!(state.reset_insertion(false, &mut chs));
    assert!(!state.insertion_active);
    assert!(state.delay_active);
    assert_eq!(state.insertion_params, reset_insertion_params());
    assert!(!chs[1].insertion_enabled);
}

#[test]
fn insertion_snapshot_collects_channel_assignments() {
    let mut chs = vec![MidiChannel::new(0), MidiChannel::new(1), MidiChannel::new(2)];
    chs[2].insertion_enabled = true;
    let params = reset_insertion_params();
    let snap = get_insertion_snapshot(0x0110, &params, &chs);
    assert_eq!(snap.efx_type, 0x0110);
    assert_eq!(snap.params.len(), 23);
    assert_eq!(snap.channels, vec![false, false, true]);
}
