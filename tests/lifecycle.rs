use wasm_synth_gui::{
    AudioOutput, AudioOutputState, DeviceError, SetupError, StreamAction, StreamConfig,
};

fn device_config() -> StreamConfig {
    StreamConfig { channels: 2, sample_rate: 48000, buffer_size: 512 }
}

#[test]
fn lifecycle_walks_init_ready_playing_paused_playing() {
    let supported = device_config();
    let mut out = AudioOutput::new(supported);
    assert_eq!(out.state, AudioOutputState::Init);
    assert!(out.needs_setup());
    let config = supported.with_timing(256, 44100);
    assert_eq!(out.setup(config, Ok(())), Ok(()));
    assert_eq!(out.state, AudioOutputState::Ready);
    assert_eq!(out.config, Some(config));
    assert_eq!(out.play_request(), Some(StreamAction::Play));
    assert_eq!(out.play(Ok(())), Ok(()));
    assert_eq!(out.state, AudioOutputState::Playing);
    assert_eq!(out.pause_request(), Some(StreamAction::Pause));
    assert_eq!(out.pause(Ok(())), Ok(()));
    assert_eq!(out.state, AudioOutputState::Paused);
    assert_eq!(out.play(Ok(())), Ok(()));
    assert_eq!(out.state, AudioOutputState::Playing);
}

#[test]
fn pause_outside_playing_changes_nothing() {
    let mut out = AudioOutput::new(device_config());
    assert_eq!(out.pause_request(), None);
    assert_eq!(out.pause(Ok(())), Ok(()));
    assert_eq!(out.state, AudioOutputState::Init);
    out.setup(device_config(), Ok(())).unwrap();
    assert_eq!(out.pause_request(), None);
    assert_eq!(out.pause(Ok(())), Ok(()));
    assert_eq!(out.state, AudioOutputState::Ready);
}

#[test]
fn play_before_setup_changes_nothing() {
    let mut out = AudioOutput::new(device_config());
    assert_eq!(out.play_request(), None);
    assert_eq!(out.play(Ok(())), Ok(()));
    assert_eq!(out.state, AudioOutputState::Init);
    assert_eq!(out.config, None);
}

#[test]
fn second_setup_is_rejected() {
    let mut out = AudioOutput::new(device_config());
    out.setup(device_config(), Ok(())).unwrap();
    assert!(!out.needs_setup());
    let other = device_config().with_timing(64, 22050);
    assert_eq!(out.setup(other, Ok(())), Err(SetupError::AlreadySetUp));
    assert_eq!(out.state, AudioOutputState::Ready);
    assert_eq!(out.config, Some(device_config()));
}

#[test]
fn device_failures_propagate_and_keep_state() {
    let mut out = AudioOutput::new(device_config());
    assert_eq!(
        out.setup(device_config(), Err(DeviceError::BuildFailed)),
        Err(SetupError::Device(DeviceError::BuildFailed))
    );
    assert_eq!(out.state, AudioOutputState::Init);
    out.setup(device_config(), Ok(())).unwrap();
    assert_eq!(out.play(Err(DeviceError::PlayFailed)), Err(DeviceError::PlayFailed));
    assert_eq!(out.state, AudioOutputState::Ready);
    out.play(Ok(())).unwrap();
    assert_eq!(out.pause(Err(DeviceError::PauseFailed)), Err(DeviceError::PauseFailed));
    assert_eq!(out.state, AudioOutputState::Playing);
}

#[test]
fn play_while_playing_stays_playing() {
    let mut out = AudioOutput::new(device_config());
    out.setup(device_config(), Ok(())).unwrap();
    out.play(Ok(())).unwrap();
    assert_eq!(out.play_request(), Some(StreamAction::Play));
    assert_eq!(out.play(Ok(())), Ok(()));
    assert_eq!(out.state, AudioOutputState::Playing);
}

#[test]
fn with_timing_keeps_channels() {
    let c = device_config().with_timing(256, 44100);
    assert_eq!(c, StreamConfig { channels: 2, sample_rate: 44100, buffer_size: 256 });
}
