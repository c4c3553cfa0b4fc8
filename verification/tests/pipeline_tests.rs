use snaplate::capture::CaptureRegion;
use snaplate::engine::parse_recognition_output;
use snaplate::engine::RecognitionError;
use snaplate::pipeline::AppState;
use snaplate::pipeline::PipelineAction;
use snaplate::settings::AppSettings;
use snaplate::settings::PrimaryAction;
use snaplate::translator::TranslationError;

fn full_settings() -> AppSettings {
    AppSettings {
        shortcut: String::from("F1"),
        view_image_shortcut: String::from("F3"),
        target_lang: String::from("en"),
        primary_action: PrimaryAction::RecognizeTranslate,
        autostart: false,
        enable_ocr: true,
        enable_translation: true,
        preserve_line_breaks: false,
    }
}

fn region() -> CaptureRegion {
    CaptureRegion { x: 1, y: 0, width: 1, height: 1 }
}

/// A 2x1 RGBA frame: pixel 0 is red, pixel 1 is green.
fn frame() -> Vec<u8> {
    vec![255, 0, 0, 255, 0, 255, 0, 255]
}

#[test]
fn second_trigger_during_a_run_is_ignored() {
    let mut state = AppState::new(full_settings());
    let first = state.on_trigger(region());
    assert_eq!(first.len(), 1);
    assert!(matches!(first[0], PipelineAction::CaptureScreen { .. }));
    let second = state.on_trigger(region());
    assert!(second.is_empty());
    let third = state.on_trigger(region());
    assert!(third.is_empty());
}

#[test]
fn a_cancel_frees_the_guard_for_the_next_trigger() {
    let mut state = AppState::new(full_settings());
    assert_eq!(state.on_trigger(region()).len(), 1);
    assert!(state.on_trigger(region()).is_empty());
    state.on_cancel();
    assert_eq!(state.on_trigger(region()).len(), 1);
}

#[test]
fn the_frame_is_cropped_to_the_selected_region() {
    let mut state = AppState::new(full_settings());
    state.on_trigger(region());
    let actions = state.on_frame_captured(2, 1, frame());
    assert_eq!(actions.len(), 1);
    match &actions[0] {
        PipelineAction::PersistImage { width, height, pixels } => {
            assert_eq!((*width, *height), (1, 1));
            assert_eq!(pixels, &vec![0u8, 255, 0, 255]);
        },
        other => panic!("expected a persist instruction, got {:?}", action_name(other)),
    }
}

#[test]
fn a_region_outside_the_frame_aborts_the_run() {
    let mut state = AppState::new(full_settings());
    state.on_trigger(CaptureRegion { x: 5, y: 5, width: 10, height: 10 });
    let actions = state.on_frame_captured(2, 1, frame());
    assert_eq!(actions.len(), 1);
    assert!(matches!(actions[0], PipelineAction::EmitFailure { .. }));
    // The guard was released: a new trigger is admitted.
    assert_eq!(state.on_trigger(region()).len(), 1);
}

#[test]
fn a_persisted_capture_starts_recognition() {
    let mut state = AppState::new(full_settings());
    state.on_trigger(region());
    state.on_frame_captured(2, 1, frame());
    let actions = state.on_persist_finished(Ok(String::from("/tmp/shot.png")));
    assert_eq!(actions.len(), 2);
    assert!(matches!(actions[0], PipelineAction::ShowResultsSurface));
    match &actions[1] {
        PipelineAction::RunRecognition { image_path, preserve_line_breaks } => {
            assert_eq!(image_path, "/tmp/shot.png");
            assert!(!preserve_line_breaks);
        },
        other => panic!("expected recognition, got {:?}", action_name(other)),
    }
}

#[test]
fn recognition_success_caches_and_starts_translation() {
    let mut state = AppState::new(full_settings());
    state.on_trigger(region());
    state.on_frame_captured(2, 1, frame());
    state.on_persist_finished(Ok(String::from("/tmp/shot.png")));
    let actions = state.on_recognition_finished(Ok(String::from("Hello World")));
    assert_eq!(actions.len(), 2);
    match &actions[0] {
        PipelineAction::EmitRecognition { payload } => {
            assert_eq!(payload.original_text.as_deref(), Some("Hello World"));
            assert!(payload.error_message.is_none());
            assert_eq!(payload.image_path, "/tmp/shot.png");
        },
        other => panic!("expected the recognition event, got {:?}", action_name(other)),
    }
    match &actions[1] {
        PipelineAction::RunTranslation { text, source_lang, target_lang } => {
            assert_eq!(text, "Hello World");
            assert_eq!(source_lang, "zh");
            assert_eq!(target_lang, "en");
        },
        other => panic!("expected translation, got {:?}", action_name(other)),
    }
    let cached = state.cached.as_ref().expect("the outcome is cached");
    assert_eq!(cached.original_text.as_deref(), Some("Hello World"));
    assert!(cached.translated_text.is_none());
}

#[test]
fn a_translation_failure_keeps_the_recognized_text() {
    let mut state = AppState::new(full_settings());
    state.on_trigger(region());
    state.on_frame_captured(2, 1, frame());
    state.on_persist_finished(Ok(String::from("/tmp/shot.png")));
    state.on_recognition_finished(Ok(String::from("Hello World")));
    let actions = state.on_translation_finished(Err(TranslationError::ProcessFailure(
        String::from("engine crashed"),
    )));
    assert_eq!(actions.len(), 1);
    match &actions[0] {
        PipelineAction::EmitTranslation { payload } => {
            assert!(payload.translated_text.is_none());
            assert_eq!(
                payload.error_message.as_deref(),
                Some("the translation engine failed: engine crashed")
            );
        },
        other => panic!("expected the translation event, got {:?}", action_name(other)),
    }
    let cached = state.cached.as_ref().expect("the partial outcome stays cached");
    assert_eq!(cached.original_text.as_deref(), Some("Hello World"));
    assert!(cached.translated_text.is_none());
    assert_eq!(
        cached.translation_error.as_deref(),
        Some("the translation engine failed: engine crashed")
    );
    // The run ended: the guard is free again.
    assert_eq!(state.on_trigger(region()).len(), 1);
}

#[test]
fn an_empty_recognition_result_never_reaches_translation() {
    // The engine's documented empty-result code, fed through the real
    // output parser and into the pipeline.
    let outcome = parse_recognition_output(true, b"{\"code\":101}", b"", false);
    assert_eq!(outcome, Err(RecognitionError::EmptyResult));

    let mut state = AppState::new(full_settings());
    state.on_trigger(region());
    state.on_frame_captured(2, 1, frame());
    state.on_persist_finished(Ok(String::from("/tmp/shot.png")));
    let actions = state.on_recognition_finished(outcome);
    assert_eq!(actions.len(), 1);
    match &actions[0] {
        PipelineAction::EmitRecognition { payload } => {
            assert!(payload.original_text.is_none());
            assert_eq!(payload.error_message.as_deref(), Some("no text was recognized"));
        },
        other => panic!("expected the recognition event, got {:?}", action_name(other)),
    }
    let cached = state.cached.as_ref().expect("the failure is cached");
    assert!(cached.original_text.is_none());
    assert_eq!(cached.recognition_error.as_deref(), Some("no text was recognized"));
}

#[test]
fn translation_switched_off_is_reported_not_run() {
    let mut settings = full_settings();
    settings.enable_translation = false;
    let mut state = AppState::new(settings);
    state.on_trigger(region());
    state.on_frame_captured(2, 1, frame());
    state.on_persist_finished(Ok(String::from("/tmp/shot.png")));
    let actions = state.on_recognition_finished(Ok(String::from("hi")));
    assert_eq!(actions.len(), 2);
    match &actions[1] {
        PipelineAction::EmitTranslation { payload } => {
            assert!(payload.translated_text.is_none());
            assert_eq!(payload.error_message.as_deref(), Some("translation is switched off"));
        },
        other => panic!("expected the translation-off event, got {:?}", action_name(other)),
    }
}

#[test]
fn recognition_off_short_circuits_to_a_preview() {
    let mut settings = full_settings();
    settings.enable_ocr = false;
    let mut state = AppState::new(settings);
    state.on_trigger(region());
    state.on_frame_captured(2, 1, frame());
    let actions = state.on_persist_finished(Ok(String::from("/tmp/shot.png")));
    assert_eq!(actions.len(), 1);
    match &actions[0] {
        PipelineAction::ShowPreview { image_path } => assert_eq!(image_path, "/tmp/shot.png"),
        other => panic!("expected a preview, got {:?}", action_name(other)),
    }
    assert_eq!(state.on_trigger(region()).len(), 1);
}

#[test]
fn the_copy_branch_puts_the_image_on_the_clipboard() {
    let mut settings = full_settings();
    settings.primary_action = PrimaryAction::CopyToClipboard;
    let mut state = AppState::new(settings);
    state.on_trigger(region());
    state.on_frame_captured(2, 1, frame());
    let actions = state.on_persist_finished(Ok(String::from("/tmp/shot.png")));
    assert_eq!(actions.len(), 1);
    assert!(matches!(&actions[0], PipelineAction::CopyToClipboard { .. }));
}

#[test]
fn stale_events_do_nothing() {
    let mut state = AppState::new(full_settings());
    assert!(state.on_persist_finished(Ok(String::from("/x"))).is_empty());
    assert!(state.on_recognition_finished(Ok(String::from("y"))).is_empty());
    assert!(state
        .on_translation_finished(Err(TranslationError::Disabled))
        .is_empty());
    assert!(state.on_capture_failed(String::from("z")).is_empty());
}

#[test]
fn the_persisted_path_enters_the_history() {
    let mut state = AppState::new(full_settings());
    state.on_trigger(region());
    state.on_frame_captured(2, 1, frame());
    state.on_persist_finished(Ok(String::from("/tmp/shot.png")));
    assert_eq!(state.history.len(), 1);
    assert_eq!(
        state.last_screenshot_path.as_deref(),
        Some("/tmp/shot.png")
    );
}

#[test]
fn settings_update_reports_what_to_reregister() {
    let mut state = AppState::new(full_settings());
    let mut new_settings = full_settings();
    new_settings.shortcut = String::from("F2");
    new_settings.autostart = true;
    let acts = state.set_settings(new_settings, false);
    assert_eq!(acts.unregister_shortcut.as_deref(), Some("F1"));
    assert!(acts.unregister_view_shortcut.is_none());
    assert_eq!(acts.register_shortcut, "F2");
    assert_eq!(acts.register_view_shortcut, "F3");
    assert_eq!(acts.set_autostart, Some(true));
    assert_eq!(state.settings.shortcut, "F2");
    assert_eq!(state.get_settings().shortcut, "F2");
}

#[test]
fn settings_update_aligns_autostart_both_ways() {
    let mut state = AppState::new(full_settings());
    let mut off = full_settings();
    off.autostart = false;
    let acts = state.set_settings(off, true);
    assert_eq!(acts.set_autostart, Some(false));
    let mut on = full_settings();
    on.autostart = false;
    let acts = state.set_settings(on, false);
    assert_eq!(acts.set_autostart, None);
}

fn action_name(a: &PipelineAction) -> &'static str {
    match a {
        PipelineAction::CaptureScreen { .. } => "CaptureScreen",
        PipelineAction::PersistImage { .. } => "PersistImage",
        PipelineAction::DeleteFile { .. } => "DeleteFile",
        PipelineAction::ShowResultsSurface => "ShowResultsSurface",
        PipelineAction::RunRecognition { .. } => "RunRecognition",
        PipelineAction::RunTranslation { .. } => "RunTranslation",
        PipelineAction::EmitRecognition { .. } => "EmitRecognition",
        PipelineAction::EmitTranslation { .. } => "EmitTranslation",
        PipelineAction::EmitFailure { .. } => "EmitFailure",
        PipelineAction::ShowPreview { .. } => "ShowPreview",
        PipelineAction::CopyToClipboard { .. } => "CopyToClipboard",
        PipelineAction::SaveToDesktop { .. } => "SaveToDesktop",
    }
}
