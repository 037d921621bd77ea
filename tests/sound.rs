use sound_block::client::DEFAULT_SINK_ALIAS;
use sound_block::connection::ConnectionPhase;
use sound_block::mixer_command::{decimal_text, query_args, set_volume_args, toggle_args};
use sound_block::mixer_output::{parse_mixer_output, parse_u32};
use sound_block::sound::{ClickAction, Icon, LogicalDirection, MouseButton, TextKind};
use sound_block::volume::{VOLUME_MAX, VOLUME_NORM};
use sound_block::{
    AlsaSoundDevice, ChannelVolumes, ContextState, Facility, IterateResult, PulseAudioClient,
    PulseAudioConnection, PulseAudioSoundDevice, Request, SinkListItem, Sound, SoundConfig,
    SoundDevice, SoundDriver, SoundError,
};

const MIXER_ON: &str = "Simple mixer control 'Master',0\n  Capabilities: pvolume pvolume-joined pswitch\n  Playback channels: Mono\n  Limits: Playback 0 - 87\n  Mono: Playback 58 [67%] [-21.75dB] [on]\n";
const MIXER_OFF: &str = "Simple mixer control 'Master',0\n  Mono: Playback 0 [0%] [-65.25dB] [off]";

fn levels(v: &[u32]) -> ChannelVolumes {
    ChannelVolumes { channels: v.to_vec() }
}

fn sink_item(name: &str, v: &[u32], mute: bool) -> SinkListItem {
    SinkListItem::Item { name: Some(name.to_string()), volume: levels(v), mute }
}

fn alsa(output: &str) -> AlsaSoundDevice {
    AlsaSoundDevice::new("Master".to_string(), "default".to_string(), false, output.as_bytes())
        .unwrap()
}

#[test]
fn parses_volume_and_unmuted_flag() {
    assert_eq!(parse_mixer_output(MIXER_ON.as_bytes()), Ok((67, false)));
}

#[test]
fn parses_zero_volume_and_muted_flag() {
    assert_eq!(parse_mixer_output(MIXER_OFF.as_bytes()), Ok((0, true)));
}

#[test]
fn missing_switch_field_means_unmuted() {
    assert_eq!(parse_mixer_output(b"  Mono: Playback 58 [67%]"), Ok((67, false)));
    assert_eq!(parse_mixer_output(b"  Front Left: Playback 58 [67%] [-21.75dB]"), Ok((67, false)));
}

#[test]
fn only_the_last_line_counts() {
    assert_eq!(parse_mixer_output(b"[10%] [off]\nPlayback [20%] [on]\n\n  \n"), Ok((20, false)));
    assert_eq!(parse_mixer_output(b"[10%] [off]\r\n[30%] [off]\r\n"), Ok((30, true)));
}

#[test]
fn malformed_output_is_a_query_error() {
    assert_eq!(parse_mixer_output(b""), Err(SoundError::Query));
    assert_eq!(parse_mixer_output(b" \n\t\n"), Err(SoundError::Query));
    assert_eq!(parse_mixer_output(b"Mono: Playback 58"), Err(SoundError::Query));
    assert_eq!(parse_mixer_output(b"Mono: [loud%] [on]"), Err(SoundError::Query));
    assert_eq!(parse_mixer_output(b"[67%] [on]\nno fields here"), Err(SoundError::Query));
    assert_eq!(parse_mixer_output(b"[99999999999%]"), Err(SoundError::Query));
}

#[test]
fn other_switch_words_mean_unmuted() {
    assert_eq!(parse_mixer_output(b"[5%] [offline]"), Ok((5, false)));
    assert_eq!(parse_mixer_output(b"[5%] [on] [off]"), Ok((5, false)));
}

#[test]
fn decimal_numbers() {
    assert_eq!(parse_u32(b"0"), Some(0));
    assert_eq!(parse_u32(b"+42"), Some(42));
    assert_eq!(parse_u32(b"4294967295"), Some(u32::MAX));
    assert_eq!(parse_u32(b"4294967296"), None);
    assert_eq!(parse_u32(b""), None);
    assert_eq!(parse_u32(b"+"), None);
    assert_eq!(parse_u32(b"-1"), None);
    assert_eq!(parse_u32(b"1a"), None);
}

#[test]
fn mixer_device_reads_its_state() {
    let d = alsa(MIXER_OFF);
    assert_eq!(d.volume(), 0);
    assert!(d.muted());
    let r = AlsaSoundDevice::new("Master".to_string(), "default".to_string(), false, b"garbage");
    assert!(matches!(r, Err(SoundError::Query)));
}

#[test]
fn mixer_refresh_error_keeps_state() {
    let mut d = alsa(MIXER_ON);
    assert_eq!(d.get_info(b"nothing"), Err(SoundError::Query));
    assert_eq!(d.volume(), 67);
    assert!(!d.muted());
    assert_eq!(d.get_info(MIXER_OFF.as_bytes()), Ok(()));
    assert_eq!(d.volume(), 0);
    assert!(d.muted());
}

#[test]
fn mixer_step_adds_and_stops_at_zero() {
    let mut d = alsa(MIXER_ON);
    assert_eq!(d.stepped_volume(5), 72);
    d.set_volume(5);
    assert_eq!(d.volume(), 72);
    d.set_volume(-100);
    assert_eq!(d.volume(), 0);
    d.set_volume(-5);
    assert_eq!(d.volume(), 0);
    d.set_volume(100);
    assert_eq!(d.volume(), 100);
}

#[test]
fn mixer_step_stops_at_full_volume() {
    let mut d = alsa("[98%] [on]");
    assert_eq!(d.stepped_volume(5), 100);
    d.set_volume(5);
    assert_eq!(d.volume(), 100);
    d.set_volume(50);
    assert_eq!(d.volume(), 100);
    let mut e = alsa("[3%] [on]");
    assert_eq!(e.stepped_volume(-5), 0);
    assert_eq!(
        set_volume_args(&d.name, &d.device, false, alsa("[98%] [on]").stepped_volume(5)),
        strings(&["-D", "default", "set", "Master", "100%"])
    );
    e.set_volume(-5);
    assert_eq!(e.volume(), 0);
    assert_eq!(alsa("[100%] [on]").stepped_volume(i32::MAX), 100);
    assert_eq!(alsa("[4294967295%] [on]").stepped_volume(i32::MIN), 100);
    assert_eq!(alsa("[10%] [on]").stepped_volume(i32::MIN), 0);
}

#[test]
fn mixer_toggle_twice_restores() {
    let mut d = alsa(MIXER_ON);
    d.toggle();
    assert!(d.muted());
    d.toggle();
    assert!(!d.muted());
    assert_eq!(d.volume(), 67);
}

#[test]
fn average_and_percentage() {
    assert_eq!(levels(&[VOLUME_NORM, VOLUME_NORM]).percent(), 100);
    assert_eq!(levels(&[VOLUME_NORM, 0]).avg(), VOLUME_NORM / 2);
    assert_eq!(levels(&[VOLUME_NORM, 0]).percent(), 50);
    assert_eq!(levels(&[655]).percent(), 1);
    assert_eq!(levels(&[327]).percent(), 0);
    assert_eq!(levels(&[]).percent(), 0);
    assert_eq!(levels(&[1, 2, 4]).avg(), 2);
}

#[test]
fn channel_steps_are_clamped() {
    let mut v = levels(&[VOLUME_NORM, 1000]);
    v.apply_step(-10);
    assert_eq!(v.channels, vec![VOLUME_NORM - 6554, 0]);
    assert_eq!(v.percent(), 45);
    let mut w = levels(&[VOLUME_MAX - 10, 0]);
    w.apply_step(5);
    assert_eq!(w.channels, vec![VOLUME_MAX, 3277]);
}

#[test]
fn volume_vector_validity() {
    assert!(levels(&[0, VOLUME_MAX]).is_wf());
    assert!(!levels(&[VOLUME_MAX + 1]).is_wf());
    assert!(!levels(&[0; 33]).is_wf());
    assert_eq!(levels(&[7, 9]).duplicate(), levels(&[7, 9]));
}

#[test]
fn new_client_is_empty() {
    let mut c = PulseAudioClient::new();
    assert_eq!(c.default_sink_name(), DEFAULT_SINK_ALIAS);
    assert!(c.lookup(&"sink1".to_string()).is_none());
    assert!(c.send_update_event().is_empty());
    assert!(c.take_requests().is_empty());
}

#[test]
fn sound_server_device_asks_for_its_sink() {
    let mut c = PulseAudioClient::new();
    let d = PulseAudioSoundDevice::new(&mut c);
    assert_eq!(
        c.take_requests(),
        vec![
            Request::GetDefaultDevice,
            Request::GetSinkInfoByName(DEFAULT_SINK_ALIAS.to_string())
        ]
    );
    assert_eq!(d.name(&c), DEFAULT_SINK_ALIAS);
    let n = PulseAudioSoundDevice::with_name(&mut c, "hdmi".to_string());
    assert_eq!(c.take_requests(), vec![Request::GetSinkInfoByName("hdmi".to_string())]);
    assert_eq!(n.name(&c), "hdmi");
    assert!(c.take_requests().is_empty());
}

#[test]
fn cache_miss_keeps_local_state() {
    let mut c = PulseAudioClient::new();
    let mut d = PulseAudioSoundDevice::with_name(&mut c, "sink1".to_string());
    c.sink_info_callback(sink_item("sink1", &[VOLUME_NORM / 2], true));
    assert_eq!(d.get_info(&c), Ok(()));
    assert_eq!(d.volume_avg(), 50);
    assert!(d.muted());
    let mut other = PulseAudioClient::new();
    assert_eq!(d.get_info(&other), Ok(()));
    assert_eq!(d.volume_avg(), 50);
    assert!(d.muted());
    other.sink_info_callback(sink_item("sink2", &[VOLUME_NORM], false));
    assert_eq!(d.get_info(&other), Ok(()));
    assert_eq!(d.volume_avg(), 50);
    assert!(d.muted());
}

#[test]
fn step_before_cache_is_state_error() {
    let mut c = PulseAudioClient::new();
    let mut d = PulseAudioSoundDevice::new(&mut c);
    c.take_requests();
    assert_eq!(d.set_volume(&mut c, 5), Err(SoundError::State));
    assert!(c.take_requests().is_empty());
    assert_eq!(d.volume_avg(), 0);
}

#[test]
fn sink_step_sends_new_levels() {
    let mut c = PulseAudioClient::new();
    let mut d = PulseAudioSoundDevice::with_name(&mut c, "sink1".to_string());
    c.sink_info_callback(sink_item("sink1", &[VOLUME_NORM / 2, VOLUME_NORM / 2], false));
    d.get_info(&c).unwrap();
    c.take_requests();
    assert_eq!(d.set_volume(&mut c, 10), Ok(()));
    assert_eq!(d.volume_avg(), 60);
    assert_eq!(
        c.take_requests(),
        vec![Request::SetSinkVolumeByName("sink1".to_string(), levels(&[39322, 39322]))]
    );
    assert_eq!(d.set_volume(&mut c, -50), Ok(()));
    assert_eq!(d.volume_avg(), 10);
    assert_eq!(d.set_volume(&mut c, -50), Ok(()));
    assert_eq!(d.volume_avg(), 0);
}

#[test]
fn sink_toggle_twice_restores() {
    let mut c = PulseAudioClient::new();
    let mut d = PulseAudioSoundDevice::with_name(&mut c, "sink1".to_string());
    c.take_requests();
    assert_eq!(d.toggle(&mut c), Ok(()));
    assert!(d.muted());
    assert_eq!(d.toggle(&mut c), Ok(()));
    assert!(!d.muted());
    assert_eq!(
        c.take_requests(),
        vec![
            Request::SetSinkMuteByName("sink1".to_string(), true),
            Request::SetSinkMuteByName("sink1".to_string(), false)
        ]
    );
}

#[test]
fn two_listeners_each_notified_once() {
    let mut c = PulseAudioClient::new();
    let mut d = PulseAudioSoundDevice::with_name(&mut c, "sink1".to_string());
    d.monitor(&mut c, "block-a".to_string()).unwrap();
    d.monitor(&mut c, "block-b".to_string()).unwrap();
    d.monitor(&mut c, "block-a".to_string()).unwrap();
    let notified = c.sink_info_callback(sink_item("sink1", &[VOLUME_NORM], false));
    assert_eq!(notified, vec!["block-a".to_string(), "block-b".to_string()]);
    assert_eq!(c.server_info_callback(Some("sink1".to_string())).len(), 2);
    assert!(c.server_info_callback(None).is_empty());
}

#[test]
fn unusable_sink_answers_change_nothing() {
    let mut c = PulseAudioClient::new();
    c.register_listener("a".to_string());
    assert!(c.sink_info_callback(SinkListItem::End).is_empty());
    assert!(c.sink_info_callback(SinkListItem::Error).is_empty());
    let unnamed = SinkListItem::Item { name: None, volume: levels(&[1]), mute: false };
    assert!(c.sink_info_callback(unnamed).is_empty());
    assert!(c.sink_info_callback(sink_item("bad", &[VOLUME_MAX + 1], false)).is_empty());
    assert!(c.lookup(&"bad".to_string()).is_none());
}

#[test]
fn sink_cache_entries_are_replaced() {
    let mut c = PulseAudioClient::new();
    c.sink_info_callback(sink_item("a", &[1], false));
    c.sink_info_callback(sink_item("b", &[2], true));
    c.sink_info_callback(sink_item("a", &[3, 4], true));
    assert_eq!(c.lookup(&"a".to_string()), Some((levels(&[3, 4]), true)));
    assert_eq!(c.lookup(&"b".to_string()), Some((levels(&[2]), true)));
}

#[test]
fn change_events_ask_again() {
    let mut c = PulseAudioClient::new();
    c.subscribe_callback(Some(Facility::Server), 0);
    c.subscribe_callback(Some(Facility::Sink), 3);
    c.subscribe_callback(Some(Facility::Other), 4);
    c.subscribe_callback(None, 5);
    assert_eq!(
        c.take_requests(),
        vec![Request::GetDefaultDevice, Request::GetSinkInfoByIndex(3)]
    );
}

#[test]
fn end_to_end_default_sink() {
    let mut c = PulseAudioClient::new();
    let mut d = PulseAudioSoundDevice::new(&mut c);
    d.monitor(&mut c, "block".to_string()).unwrap();
    assert_eq!(c.server_info_callback(Some("sink1".to_string())), vec!["block".to_string()]);
    assert_eq!(
        c.sink_info_callback(sink_item("sink1", &[VOLUME_NORM / 2, VOLUME_NORM / 2], false)),
        vec!["block".to_string()]
    );
    assert_eq!(d.get_info(&c), Ok(()));
    assert_eq!(d.volume_avg(), 50);
    assert!(!d.muted());
    assert_eq!(d.name(&c), "sink1");
}

#[test]
fn connection_waits_for_ready() {
    let mut conn = PulseAudioConnection::new();
    assert_eq!(conn.advance(IterateResult::Success(0), ContextState::Connecting), Ok(false));
    assert_eq!(conn.advance(IterateResult::Success(2), ContextState::Authorizing), Ok(false));
    assert_eq!(conn.advance(IterateResult::Success(1), ContextState::Ready), Ok(true));
    assert_eq!(conn.phase, ConnectionPhase::Ready);
    assert_eq!(conn.advance(IterateResult::Failure(-1), ContextState::Failed), Ok(true));
}

#[test]
fn connection_failures() {
    let mut a = PulseAudioConnection::new();
    assert_eq!(a.advance(IterateResult::Success(0), ContextState::Terminated), Err(SoundError::Connection));
    let mut b = PulseAudioConnection::new();
    assert_eq!(b.advance(IterateResult::Quit(0), ContextState::Ready), Err(SoundError::Connection));
    let mut c = PulseAudioConnection::new();
    assert_eq!(c.advance(IterateResult::Success(0), ContextState::Failed), Err(SoundError::Connection));
    assert_eq!(PulseAudioConnection::iterate(IterateResult::Success(3)), Ok(()));
    assert_eq!(PulseAudioConnection::iterate(IterateResult::Quit(0)), Err(SoundError::Connection));
    assert_eq!(PulseAudioConnection::iterate(IterateResult::Failure(-2)), Err(SoundError::Connection));
}

#[test]
fn config_defaults() {
    assert_eq!(SoundDriver::default(), SoundDriver::Auto);
    assert_eq!(SoundConfig::default_step_width(), 5);
    assert_eq!(SoundConfig::default_format(), "{volume}%");
    assert!(SoundConfig::default_name().is_none());
    assert!(SoundConfig::default_device().is_none());
    assert!(SoundConfig::default_on_click().is_none());
    assert!(!SoundConfig::default_natural_mapping());
    assert!(!SoundConfig::default_show_volume_when_muted());
    assert!(!SoundConfig::default_bar());
    let c = SoundConfig::default();
    assert_eq!(c.step_width, 0);
    assert_eq!(c.format, "");
}

fn block(step_width: u32, dev: SoundDevice) -> Sound {
    let mut config = SoundConfig::default();
    config.step_width = step_width;
    config.on_click = Some("pavucontrol".to_string());
    Sound::new(&config, "id1".to_string(), dev)
}

#[test]
fn step_width_is_capped() {
    assert_eq!(block(80, SoundDevice::Alsa(alsa(MIXER_ON))).step_width(), 50);
    assert_eq!(block(51, SoundDevice::Alsa(alsa(MIXER_ON))).step_width(), 50);
    assert_eq!(block(50, SoundDevice::Alsa(alsa(MIXER_ON))).step_width(), 50);
    assert_eq!(block(10, SoundDevice::Alsa(alsa(MIXER_ON))).step_width(), 10);
}

#[test]
fn backend_choice_and_fallback_names() {
    assert!(Sound::uses_sound_server(SoundDriver::Auto));
    assert!(Sound::uses_sound_server(SoundDriver::PulseAudio));
    assert!(!Sound::uses_sound_server(SoundDriver::Alsa));
    let mut config = SoundConfig::default();
    assert_eq!(Sound::mixer_names(&config), ("Master".to_string(), "default".to_string()));
    config.name = Some("PCM".to_string());
    config.device = Some("hw:1".to_string());
    assert_eq!(Sound::mixer_names(&config), ("PCM".to_string(), "hw:1".to_string()));
}

#[test]
fn clicks_map_to_actions() {
    let s = block(5, SoundDevice::Alsa(alsa(MIXER_ON)));
    let me = "id1".to_string();
    let other = "id2".to_string();
    assert_eq!(s.click_action(Some(&me), MouseButton::Right, None), ClickAction::ToggleMute);
    assert_eq!(
        s.click_action(Some(&me), MouseButton::Left, None),
        ClickAction::RunCommand("pavucontrol".to_string())
    );
    assert_eq!(
        s.click_action(Some(&me), MouseButton::WheelUp, Some(LogicalDirection::Up)),
        ClickAction::Step(5)
    );
    assert_eq!(
        s.click_action(Some(&me), MouseButton::WheelDown, Some(LogicalDirection::Down)),
        ClickAction::Step(-5)
    );
    assert_eq!(s.click_action(Some(&me), MouseButton::Middle, None), ClickAction::Nothing);
    assert_eq!(s.click_action(Some(&other), MouseButton::Right, None), ClickAction::Nothing);
    assert_eq!(s.click_action(None, MouseButton::Right, None), ClickAction::Nothing);
    assert_eq!(s.id(), "id1");
}

#[test]
fn appearance_follows_volume_and_mute() {
    let quiet = block(5, SoundDevice::Alsa(alsa("[20%] [on]")));
    assert_eq!(quiet.appearance().icon, Icon::Empty);
    let half = block(5, SoundDevice::Alsa(alsa("[21%] [on]")));
    assert_eq!(half.appearance().icon, Icon::Half);
    let loud = block(5, SoundDevice::Alsa(alsa("[71%] [on]")));
    let a = loud.appearance();
    assert_eq!(a.icon, Icon::Full);
    assert_eq!(a.text, TextKind::Percent);
    assert!(!a.warning);
    let mut muted = block(5, SoundDevice::Alsa(alsa("[71%] [off]")));
    let m = muted.appearance();
    assert_eq!(m.icon, Icon::Muted);
    assert_eq!(m.text, TextKind::Nothing);
    assert!(m.warning);
    muted.show_volume_when_muted = true;
    muted.bar = true;
    assert_eq!(muted.appearance().text, TextKind::Bar);
    assert_eq!(Icon::Muted.name(), "volume_muted");
    assert_eq!(Icon::Half.name(), "volume_half");
}

fn strings(v: &[&str]) -> Vec<String> {
    v.iter().map(|s| s.to_string()).collect()
}

#[test]
fn decimal_rendering() {
    assert_eq!(decimal_text(0), "0");
    assert_eq!(decimal_text(7), "7");
    assert_eq!(decimal_text(72), "72");
    assert_eq!(decimal_text(100), "100");
    assert_eq!(decimal_text(u32::MAX), "4294967295");
}

#[test]
fn mixer_command_arguments() {
    let name = "Master".to_string();
    let card = "default".to_string();
    assert_eq!(query_args(&name, &card, false), strings(&["-D", "default", "get", "Master"]));
    assert_eq!(
        query_args(&name, &"hw:1".to_string(), true),
        strings(&["-M", "-D", "hw:1", "get", "Master"])
    );
    assert_eq!(
        set_volume_args(&name, &card, false, 72),
        strings(&["-D", "default", "set", "Master", "72%"])
    );
    assert_eq!(
        toggle_args(&name, &card, true),
        strings(&["-M", "-D", "default", "set", "Master", "toggle"])
    );
}

#[test]
fn build_prefers_the_sound_server() {
    let mut c = PulseAudioClient::new();
    let config = SoundConfig::default();
    let s = Sound::build(&config, "blk".to_string(), &mut c, true, b"").unwrap();
    assert!(matches!(&s.device, SoundDevice::PulseAudio(d) if d.name(&c) == DEFAULT_SINK_ALIAS));
    assert_eq!(
        c.take_requests(),
        vec![
            Request::GetDefaultDevice,
            Request::GetSinkInfoByName(DEFAULT_SINK_ALIAS.to_string())
        ]
    );
    assert_eq!(c.send_update_event(), vec!["blk".to_string()]);

    let mut named = SoundConfig::default();
    named.name = Some("hdmi".to_string());
    named.driver = SoundDriver::PulseAudio;
    named.step_width = 70;
    let t = Sound::build(&named, "blk2".to_string(), &mut c, true, b"").unwrap();
    assert_eq!(t.step_width(), 50);
    assert_eq!(c.take_requests(), vec![Request::GetSinkInfoByName("hdmi".to_string())]);
    assert_eq!(c.send_update_event(), vec!["blk".to_string(), "blk2".to_string()]);
}

#[test]
fn build_falls_back_to_the_mixer() {
    let mut c = PulseAudioClient::new();
    let mut config = SoundConfig::default();
    config.driver = SoundDriver::Alsa;
    let s = Sound::build(&config, "blk".to_string(), &mut c, true, MIXER_ON.as_bytes()).unwrap();
    match &s.device {
        SoundDevice::Alsa(d) => {
            assert_eq!(d.name, "Master");
            assert_eq!(d.device, "default");
            assert_eq!(d.volume(), 67);
            assert!(!d.muted());
        }
        _ => panic!("expected the mixer backend"),
    }
    assert!(c.take_requests().is_empty());
    assert!(c.send_update_event().is_empty());

    let mut auto = SoundConfig::default();
    auto.name = Some("PCM".to_string());
    auto.device = Some("hw:1".to_string());
    auto.natural_mapping = true;
    let t = Sound::build(&auto, "blk".to_string(), &mut c, false, MIXER_OFF.as_bytes()).unwrap();
    match &t.device {
        SoundDevice::Alsa(d) => {
            assert_eq!(d.name, "PCM");
            assert_eq!(d.device, "hw:1");
            assert!(d.natural_mapping);
            assert!(d.muted());
        }
        _ => panic!("expected the mixer backend"),
    }
}

#[test]
fn build_fails_on_malformed_mixer_output() {
    let mut c = PulseAudioClient::new();
    let r = Sound::build(&SoundConfig::default(), "blk".to_string(), &mut c, false, b"no fields");
    assert!(matches!(r, Err(SoundError::Query)));
    assert!(c.send_update_event().is_empty());
    assert!(c.take_requests().is_empty());
}

#[test]
fn unregistered_listeners_are_not_notified() {
    let mut c = PulseAudioClient::new();
    c.register_listener("a".to_string());
    c.register_listener("b".to_string());
    c.register_listener("c".to_string());
    c.unregister_listener(&"b".to_string());
    assert_eq!(c.send_update_event(), strings(&["a", "c"]));
    c.unregister_listener(&"x".to_string());
    assert_eq!(c.send_update_event(), strings(&["a", "c"]));
    let notified = c.sink_info_callback(sink_item("s", &[1], false));
    assert_eq!(notified, strings(&["a", "c"]));
    c.register_listener("b".to_string());
    assert_eq!(c.send_update_event(), strings(&["a", "c", "b"]));
}
