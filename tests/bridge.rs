use soundcard::{
    fill_from, negotiate, render_silence, CaptureChannel, Config, Device, Format, Microphone,
    Sample, SharedBuffer, SoundCard, SoundCardError, Speaker, StreamState, CAPTURE_CAPACITY,
};

fn device(channels: u32, sample_rate: u32) -> Device {
    Device { id: 7, name: "Simulated".to_string(), channels, sample_rate }
}

fn config(sample_rate: Option<u32>, num_channels: Option<u32>) -> Config {
    Config { sample_rate, num_channels, block_size: None }
}

#[test]
fn rate_only_keeps_device_channels() {
    let d = device(2, 48000);
    let f = negotiate(&d, &config(Some(44100), None), Format::I16);
    assert_eq!(f.sample_rate, 44100);
    assert_eq!(f.channels, 2);
    assert_eq!(f.format, Format::I16);
    assert!(!f.is_float);
    assert!(f.is_packed);
}

#[test]
fn channels_only_keeps_device_rate() {
    let d = device(2, 48000);
    let f = negotiate(&d, &config(None, Some(1)), Format::F32);
    assert_eq!(f.sample_rate, 48000);
    assert_eq!(f.channels, 1);
    assert!(f.is_float);
}

#[test]
fn default_config_uses_device_defaults() {
    let d = device(6, 96000);
    let f = negotiate(&d, &Config::default(), Format::I32);
    assert_eq!((f.sample_rate, f.channels), (96000, 6));
}

#[test]
fn session_negotiates_by_sample_type() {
    let mic = Microphone::new(device(2, 48000), config(Some(22050), None));
    let f = mic.negotiate::<i32>();
    assert_eq!(f.format, Format::I32);
    assert_eq!((f.sample_rate, f.channels), (22050, 2));
    assert_eq!(i16::sample_format(), Format::I16);
    assert_eq!(i16::silence(), 0);
}

#[test]
fn start_twice_is_already_running() {
    let mut mic = Microphone::new(device(1, 44100), Config::default());
    assert!(mic.start::<i16>(Ok(())).is_ok());
    assert_eq!(mic.state(), StreamState::Running);
    match mic.start::<i16>(Ok(())) {
        Err(e) => assert_eq!(e, SoundCardError::AlreadyRunning),
        Ok(_) => panic!("second start succeeded"),
    }
    assert_eq!(mic.state(), StreamState::Running);
}

#[test]
fn stop_idle_is_not_running() {
    let mut spk = Speaker::new(device(2, 44100), Config::default());
    assert_eq!(spk.stop(Ok(())), Err(SoundCardError::NotRunning));
    assert_eq!(spk.state(), StreamState::Idle);
    let mut mic = Microphone::new(device(2, 44100), Config::default());
    assert_eq!(mic.stop(Ok(())), Err(SoundCardError::NotRunning));
}

#[test]
fn start_stop_start_again() {
    let mut spk = Speaker::new(device(2, 44100), Config::default());
    assert!(spk.start::<i16>(Ok(())).is_ok());
    assert!(spk.format().is_some());
    assert_eq!(spk.stop(Ok(())), Ok(()));
    assert_eq!(spk.state(), StreamState::Idle);
    assert!(spk.format().is_none());
    assert!(spk.start::<i32>(Ok(())).is_ok());
    assert_eq!(spk.format().unwrap().format, Format::I32);
}

#[test]
fn hardware_refusal_leaves_session_idle() {
    let mut mic = Microphone::new(device(1, 44100), Config::default());
    match mic.start::<i16>(Err(SoundCardError::FormatUnsupported)) {
        Err(e) => assert_eq!(e, SoundCardError::FormatUnsupported),
        Ok(_) => panic!("start succeeded"),
    }
    assert_eq!(mic.state(), StreamState::Idle);
    assert!(mic.format().is_none());
    let mut spk = Speaker::new(device(1, 44100), Config::default());
    assert!(spk.start::<i16>(Ok(())).is_ok());
    let failure = SoundCardError::BackendError("stop failed".to_string());
    assert_eq!(
        spk.stop(Err(SoundCardError::BackendError("stop failed".to_string()))),
        Err(failure)
    );
    assert_eq!(spk.state(), StreamState::Running);
}

#[test]
fn default_needs_a_device() {
    assert!(Microphone::default(None, Config::default()).is_none());
    let spk = Speaker::default(Some(device(2, 48000)), Config::default()).unwrap();
    assert_eq!(spk.device().channels, 2);
    assert_eq!(spk.state(), StreamState::Idle);
}

#[test]
fn capture_keeps_callback_order() {
    let mut mic = Microphone::new(device(1, 44100), Config::default());
    let mut rx = mic.start::<i32>(Ok(())).unwrap();
    for n in 0..5i32 {
        assert!(mic.on_input(&mut rx, &[n, n + 100]));
    }
    for n in 0..5i32 {
        assert_eq!(rx.recv(), Some(vec![n, n + 100]));
    }
    assert_eq!(rx.recv(), None);
}

#[test]
fn capture_with_no_blocks_delivers_nothing() {
    let mut mic = Microphone::new(device(1, 44100), Config::default());
    let mut rx = mic.start::<i16>(Ok(())).unwrap();
    assert_eq!(rx.len(), 0);
    assert_eq!(rx.capacity(), CAPTURE_CAPACITY);
    assert_eq!(rx.recv(), None);
}

#[test]
fn capture_drops_when_full_without_reordering() {
    let mut ch: CaptureChannel<i16> = CaptureChannel::new(3);
    assert!(ch.send(&[1]));
    assert!(ch.send(&[2]));
    assert!(ch.send(&[3]));
    assert!(!ch.send(&[4]));
    assert_eq!(ch.recv(), Some(vec![1]));
    assert!(ch.send(&[5]));
    assert_eq!(ch.recv(), Some(vec![2]));
    assert_eq!(ch.recv(), Some(vec![3]));
    assert_eq!(ch.recv(), Some(vec![5]));
    assert_eq!(ch.recv(), None);
}

#[test]
fn capture_after_stop_drops() {
    let mut mic = Microphone::new(device(1, 44100), Config::default());
    let mut rx = mic.start::<i16>(Ok(())).unwrap();
    assert!(mic.on_input(&mut rx, &[1, 2]));
    assert_eq!(mic.stop(Ok(())), Ok(()));
    assert!(!mic.on_input(&mut rx, &[3, 4]));
    assert_eq!(rx.recv(), Some(vec![1, 2]));
    assert_eq!(rx.recv(), None);
}

#[test]
fn capture_end_to_end() {
    let mut mic = Microphone::new(device(1, 44100), config(Some(44100), Some(1)));
    let mut rx = mic.start::<i32>(Ok(())).unwrap();
    let f = mic.format().unwrap();
    assert_eq!((f.sample_rate, f.channels), (44100, 1));
    for call in 0..10i32 {
        let block: Vec<i32> = (0..256).map(|i| call * 256 + i).collect();
        mic.on_input(&mut rx, &block);
    }
    assert_eq!(mic.stop(Ok(())), Ok(()));
    let mut received: Vec<i32> = Vec::new();
    while let Some(block) = rx.recv() {
        received.extend(block);
    }
    assert!(received.len() <= 2560);
    assert_eq!(received.len(), 2560);
    for w in received.windows(2) {
        assert!(w[0] < w[1]);
    }
    assert_eq!(received, (0..2560).collect::<Vec<i32>>());
}

#[test]
fn playback_underrun_pads_with_silence() {
    let mut spk = Speaker::new(device(1, 44100), Config::default());
    let mut buf = spk.start::<i16>(Ok(())).unwrap();
    for s in [5i16, -6, 7] {
        buf.push(s);
    }
    let mut out = [9i16; 6];
    assert_eq!(spk.render(&mut buf, &mut out), 3);
    assert_eq!(out, [5, -6, 7, 0, 0, 0]);
    assert_eq!(buf.len(), 0);
    let mut out2 = [9i16; 4];
    assert_eq!(spk.render(&mut buf, &mut out2), 0);
    assert_eq!(out2, [0, 0, 0, 0]);
}

#[test]
fn playback_takes_only_what_fits() {
    let mut buf: SharedBuffer<i32> = SharedBuffer::new();
    for s in 1..=10i32 {
        buf.push(s);
    }
    let mut out = [0i32; 4];
    assert_eq!(fill_from(&mut buf, &mut out), 4);
    assert_eq!(out, [1, 2, 3, 4]);
    assert_eq!(buf.len(), 6);
    assert_eq!(fill_from(&mut buf, &mut out), 4);
    assert_eq!(out, [5, 6, 7, 8]);
}

#[test]
fn playback_end_to_end() {
    let mut spk = Speaker::new(device(1, 44100), Config::default());
    let mut buf = spk.start::<i32>(Ok(())).unwrap();
    for s in 1..=100i32 {
        buf.push(s);
    }
    let mut out = vec![-1i32; 256];
    assert_eq!(spk.render(&mut buf, &mut out), 100);
    for i in 0..100 {
        assert_eq!(out[i], i as i32 + 1);
    }
    for i in 100..256 {
        assert_eq!(out[i], 0);
    }
}

#[test]
fn playback_after_stop_is_silent_and_keeps_samples() {
    let mut spk = Speaker::new(device(1, 44100), Config::default());
    let mut buf = spk.start::<i16>(Ok(())).unwrap();
    assert_eq!(spk.stop(Ok(())), Ok(()));
    buf.push(3);
    let mut out = [8i16; 2];
    assert_eq!(spk.render(&mut buf, &mut out), 0);
    assert_eq!(out, [0, 0]);
    assert_eq!(buf.len(), 1);
}

#[test]
fn silence_when_buffer_is_busy() {
    let mut out = [4i32, 5, 6];
    render_silence(&mut out);
    assert_eq!(out, [0, 0, 0]);
}

#[test]
fn device_name_falls_back_to_unknown() {
    let d = SoundCard::get_device(3, None, 2, 48000);
    assert_eq!(d.name, "Unknown");
    assert_eq!((d.id, d.channels, d.sample_rate), (3, 2, 48000));
    let named = SoundCard::get_device(4, Some("Built-in".to_string()), 1, 44100);
    assert_eq!(named.name, "Built-in");
}

#[test]
fn only_devices_with_channels_are_listed() {
    let found = vec![device(0, 44100), device(2, 48000), device(0, 8000), device(1, 22050)];
    let kept = SoundCard::usable_devices(found);
    assert_eq!(kept.len(), 2);
    assert_eq!(kept[0], device(2, 48000));
    assert_eq!(kept[1], device(1, 22050));
    assert!(SoundCard::usable_devices(Vec::new()).is_empty());
}
