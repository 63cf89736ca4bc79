use typr::recorder::{
    decode_png_icon, keep_polling_level, tray_icon, tray_tooltip, EnginePlan, PasteStep, Recorder,
    RecordingState, TrayIcon,
};

#[test]
fn test_initial_state_is_ready() {
    let recorder = Recorder::new();
    assert_eq!(recorder.get_state(), RecordingState::Ready);
}

#[test]
fn start_succeeds_only_when_ready() {
    let mut recorder = Recorder::new();
    assert_eq!(recorder.start_recording(|| Ok(())), Ok(()));
    assert_eq!(recorder.get_state(), RecordingState::Recording);
    let again = recorder.start_recording(|| panic!("the microphone must not be touched"));
    assert_eq!(again, Err("Already recording or transcribing".to_string()));
    assert_eq!(recorder.get_state(), RecordingState::Recording);
}

#[test]
fn microphone_failure_keeps_ready() {
    let mut recorder = Recorder::new();
    let r = recorder.start_recording(|| Err("device busy".to_string()));
    assert_eq!(r, Err("Microphone error: device busy".to_string()));
    assert_eq!(recorder.get_state(), RecordingState::Ready);
}

#[test]
fn stop_refused_unless_recording() {
    let mut recorder = Recorder::new();
    assert_eq!(recorder.stop_recording(), Err("Not currently recording".to_string()));
    assert_eq!(recorder.get_state(), RecordingState::Ready);
}

fn transcribing() -> Recorder {
    let mut recorder = Recorder::new();
    recorder.start_recording(|| Ok(())).unwrap();
    recorder.stop_recording().unwrap();
    assert_eq!(recorder.get_state(), RecordingState::Transcribing);
    recorder
}

#[test]
fn save_failure_returns_to_ready() {
    let mut recorder = transcribing();
    let r = recorder.audio_saved(Err("disk full".to_string()), "local", "small");
    match r {
        Err(e) => assert_eq!(e, "Audio capture error: disk full"),
        Ok(_) => panic!("expected an error"),
    }
    assert_eq!(recorder.get_state(), RecordingState::Ready);
}

#[test]
fn local_engine_uses_model_file() {
    let mut recorder = transcribing();
    match recorder.audio_saved(Ok(()), "local", "small") {
        Ok(EnginePlan::Local { model_file }) => assert_eq!(model_file, "ggml-small.bin"),
        _ => panic!("expected the local engine"),
    }
    assert_eq!(recorder.get_state(), RecordingState::Transcribing);
}

#[test]
fn cloud_engine_chosen() {
    let mut recorder = transcribing();
    assert!(matches!(recorder.audio_saved(Ok(()), "cloud", "small"), Ok(EnginePlan::Cloud)));
    assert_eq!(recorder.get_state(), RecordingState::Transcribing);
}

#[test]
fn unknown_engine_fails() {
    let mut recorder = transcribing();
    match recorder.audio_saved(Ok(()), "quantum", "small") {
        Err(e) => assert_eq!(e, "Unknown engine: quantum"),
        Ok(_) => panic!("expected an error"),
    }
    assert_eq!(recorder.get_state(), RecordingState::Ready);
}

#[test]
fn transcription_error_ends_run() {
    let mut recorder = transcribing();
    let r = recorder.transcribed(Err("whisper.cpp produced no transcription".to_string()));
    assert_eq!(r, Err("whisper.cpp produced no transcription".to_string()));
    assert_eq!(recorder.get_state(), RecordingState::Ready);
}

#[test]
fn full_run_pastes_and_returns_text() {
    let mut recorder = transcribing();
    recorder.audio_saved(Ok(()), "local", "base").ok().unwrap();
    let text = recorder.transcribed(Ok("hello world".to_string())).unwrap();
    assert_eq!(recorder.get_state(), RecordingState::Transcribing);
    match recorder.cleaned(text) {
        PasteStep::Paste(t) => {
            assert_eq!(t, "hello world");
            let r = recorder.pasted(t, Ok(()));
            assert_eq!(r, Ok("hello world".to_string()));
        }
        PasteStep::Finished(_) => panic!("expected a paste"),
    }
    assert_eq!(recorder.get_state(), RecordingState::Ready);
}

#[test]
fn empty_text_is_not_pasted() {
    let mut recorder = transcribing();
    match recorder.cleaned(String::new()) {
        PasteStep::Finished(t) => assert_eq!(t, ""),
        PasteStep::Paste(_) => panic!("empty text must not be pasted"),
    }
    assert_eq!(recorder.get_state(), RecordingState::Ready);
}

#[test]
fn paste_failure_reported() {
    let mut recorder = transcribing();
    let r = recorder.pasted("hi".to_string(), Err("no accessibility".to_string()));
    assert_eq!(r, Err("Paste failed: no accessibility".to_string()));
    assert_eq!(recorder.get_state(), RecordingState::Ready);
}

#[test]
fn tooltips_name_the_phase() {
    assert_eq!(tray_tooltip(RecordingState::Ready), "Typr — Ready");
    assert_eq!(tray_tooltip(RecordingState::Recording), "Typr — Recording...");
    assert_eq!(tray_tooltip(RecordingState::Transcribing), "Typr — Transcribing...");
}

#[test]
fn busy_recorder_never_touches_the_microphone() {
    let mut recorder = Recorder::new();
    recorder.start_recording(|| Ok(())).unwrap();
    recorder.stop_recording().unwrap();
    let mut touched = false;
    let r = recorder.start_recording(|| {
        touched = true;
        Ok(())
    });
    assert_eq!(r, Err("Already recording or transcribing".to_string()));
    assert!(!touched);
    assert_eq!(recorder.get_state(), RecordingState::Transcribing);
}

#[test]
fn tray_icons_per_phase() {
    assert_eq!(tray_icon(RecordingState::Ready), TrayIcon::Idle);
    assert_eq!(tray_icon(RecordingState::Recording), TrayIcon::Recording);
    assert_eq!(tray_icon(RecordingState::Transcribing), TrayIcon::Transcribing);
}

#[test]
fn level_polling_only_while_recording() {
    assert!(keep_polling_level(RecordingState::Recording));
    assert!(!keep_polling_level(RecordingState::Ready));
    assert!(!keep_polling_level(RecordingState::Transcribing));
}

#[test]
fn png_icons_decode_to_rgba() {
    let mut img = image::RgbaImage::new(2, 3);
    img.put_pixel(1, 0, image::Rgba([10, 20, 30, 40]));
    let mut png: Vec<u8> = Vec::new();
    img.write_to(&mut std::io::Cursor::new(&mut png), image::ImageFormat::Png).unwrap();
    let icon = decode_png_icon(&png).unwrap();
    assert_eq!((icon.width, icon.height), (2, 3));
    assert_eq!(icon.rgba.len(), 24);
    assert_eq!(&icon.rgba[4..8], &[10, 20, 30, 40]);
    assert_eq!(icon.rgba, img.into_raw());
}

#[test]
fn non_images_do_not_decode() {
    assert!(decode_png_icon(b"not a png").is_none());
    assert!(decode_png_icon(&[]).is_none());
    // Other image formats are not taken for PNG.
    let img = image::RgbaImage::new(1, 1);
    let mut bmp: Vec<u8> = Vec::new();
    img.write_to(&mut std::io::Cursor::new(&mut bmp), image::ImageFormat::Bmp).unwrap();
    assert!(decode_png_icon(&bmp).is_none());
}
