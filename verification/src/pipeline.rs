//! The pipeline orchestrator and the shared state it coordinates.
//!
//! One capture run walks capture, persist, branch, recognize, translate,
//! cache and notify in strict sequence.  The orchestrator owns every
//! decision: the host performs the returned actions (file writes, engine
//! processes, events to the presentation layer) and feeds the outcome back
//! as the next event.  The capture guard admits at most one run at a time;
//! a trigger that arrives while one is in flight does nothing.

use vstd::prelude::*;
use vstd::string::StringExecFns;
use crate::settings::AppSettings;
use crate::settings::PrimaryAction;
use crate::guard::CaptureGuard;
use crate::history::HistoryRing;
use crate::history::ring_insert;
use crate::capture::CaptureRegion;
use crate::capture::crop_ok;
use crate::capture::crop_src_index;
use crate::capture::crop_rgba;
use crate::engine::RecognitionError;
use crate::engine::recognition_error_text;
use crate::translator::TranslationError;
use crate::translator::translation_error_text;
use crate::translator::source_lang_for;

verus! {

/// The outcome of the most recently completed run that involved
/// recognition, kept so a re-opened results surface can show it without a
/// new run.
pub struct CachedResult {
    /// The persisted capture the run worked on.
    pub image_path: String,
    /// The recognized text, when recognition succeeded.
    pub original_text: Option<String>,
    /// The rendered recognition failure, when it did not.
    pub recognition_error: Option<String>,
    /// The translated text, when translation ran and succeeded.
    pub translated_text: Option<String>,
    /// The rendered translation failure; a failed translation does not
    /// discard the recognized text.
    pub translation_error: Option<String>,
}

/// Payload of the recognition-outcome event.
pub struct RecognitionPayload {
    pub original_text: Option<String>,
    pub error_message: Option<String>,
    pub image_path: String,
}

/// Payload of the translation-outcome event.
pub struct TranslationPayload {
    pub translated_text: Option<String>,
    pub error_message: Option<String>,
}

/// Where the one admitted run stands.  Stages that need them carry the
/// settings snapshot taken when the run was admitted and the data the next
/// stage works on.
pub enum PipelineState {
    Idle,
    Capturing { region: CaptureRegion, settings: AppSettings },
    Persisting { settings: AppSettings },
    Recognizing { image_path: String, settings: AppSettings },
    Translating { image_path: String, recognized: String },
}

/// One instruction to the host.  The orchestrator never performs I/O; it
/// hands these back and waits for the corresponding event.
pub enum PipelineAction {
    /// Capture the full frame of the screen the region lies on.
    CaptureScreen { region: CaptureRegion },
    /// Write the cropped RGBA image to a fresh file in the scratch
    /// directory and report its path.
    PersistImage { width: u32, height: u32, pixels: Vec<u8> },
    /// Best-effort deletion of an artifact evicted from the history.
    DeleteFile { path: String },
    /// Bring up the surface that renders recognition results.
    ShowResultsSurface,
    /// Run the recognition engine on the persisted image.
    RunRecognition { image_path: String, preserve_line_breaks: bool },
    /// Run the translation engine on the recognized text.
    RunTranslation { text: String, source_lang: String, target_lang: String },
    /// Dispatch the recognition-outcome event.
    EmitRecognition { payload: RecognitionPayload },
    /// Dispatch the translation-outcome event.
    EmitTranslation { payload: TranslationPayload },
    /// Dispatch a run-failure notification.
    EmitFailure { message: String },
    /// Show the persisted image in the preview surface.
    ShowPreview { image_path: String },
    /// Put the persisted image on the clipboard.
    CopyToClipboard { image_path: String },
    /// Copy the persisted image to the desktop.
    SaveToDesktop { image_path: String },
}

/// Shared application state: the settings, the most recent capture, the
/// bounded history, the cached last result, the capture guard and the
/// pipeline position.  The host keeps one instance behind its lock and
/// calls the handlers below from its worker context.
pub struct AppState {
    pub settings: AppSettings,
    pub last_screenshot_path: Option<String>,
    pub history: HistoryRing,
    pub cached: Option<CachedResult>,
    pub guard: CaptureGuard,
    pub pipeline: PipelineState,
}

/// Whether a run takes the recognition branch: recognition must be enabled
/// and the configured primary action must call for it.
pub open spec fn takes_recognition_branch(s: AppSettings) -> bool {
    s.enable_ocr && (s.primary_action == PrimaryAction::RecognizeOnly || s.primary_action
        == PrimaryAction::RecognizeTranslate)
}

/// Whether a run that recognized text goes on to translate it.
pub open spec fn takes_translation_branch(s: AppSettings) -> bool {
    s.enable_translation && s.primary_action == PrimaryAction::RecognizeTranslate
}

/// The store fields a pipeline event may not touch.
pub open spec fn same_store(pre: AppState, post: AppState) -> bool {
    &&& post.settings == pre.settings
    &&& post.last_screenshot_path == pre.last_screenshot_path
    &&& post.history == pre.history
    &&& post.cached == pre.cached
}

impl AppState {
    /// The guard is held exactly while a run is somewhere in the pipeline,
    /// and the history obeys its bound.
    pub open spec fn wf(&self) -> bool {
        &&& self.history.wf()
        &&& self.guard.is_held() <==> !(self.pipeline is Idle)
    }

    /// A fresh store: the given settings, nothing captured, nothing cached,
    /// the guard free, the pipeline idle.
    pub fn new(settings: AppSettings) -> (r: AppState)
        ensures
            r.wf(),
            r.settings == settings,
            r.last_screenshot_path is None,
            r.cached is None,
            r.pipeline is Idle,
            !r.guard.is_held(),
            r.history.paths() == Seq::<Seq<char>>::empty(),
    {
        AppState {
            settings,
            last_screenshot_path: None,
            history: HistoryRing::new(),
            cached: None,
            guard: CaptureGuard::new(),
            pipeline: PipelineState::Idle,
        }
    }

    /// A copy of the current settings, for a read-only consumer.
    pub fn get_settings(&self) -> (s: AppSettings)
        ensures
            s@ == self.settings@,
    {
        self.settings.clone()
    }

    /// A capture trigger.  While a run is in flight it is ignored whole;
    /// otherwise the guard is taken, the settings are snapshotted for the
    /// run, and the host is told to capture the frame.
    pub fn on_trigger(&mut self, region: CaptureRegion) -> (actions: Vec<PipelineAction>)
        requires
            old(self).wf(),
        ensures
            final(self).wf(),
            old(self).guard.is_held() ==> *final(self) == *old(self) && actions@.len() == 0,
            !old(self).guard.is_held() ==> {
                &&& same_store(*old(self), *final(self))
                &&& final(self).guard.is_held()
                &&& final(self).pipeline matches PipelineState::Capturing { region: r, settings: s }
                    && r == region && s@ == old(self).settings@
                &&& actions@.len() == 1
                &&& actions@[0] matches PipelineAction::CaptureScreen { region: r } && r == region
            },
    {
        if !self.guard.try_acquire() {
            return Vec::new();
        }
        let snapshot = self.settings.clone();
        self.pipeline = PipelineState::Capturing { region, settings: snapshot };
        let mut actions: Vec<PipelineAction> = Vec::new();
        actions.push(PipelineAction::CaptureScreen { region });
        actions
    }

    /// A user cancel: the guard is freed and the run abandoned, whatever
    /// stage it was in; results of stages already running are discarded
    /// when they arrive.
    pub fn on_cancel(&mut self)
        requires
            old(self).wf(),
        ensures
            final(self).wf(),
            same_store(*old(self), *final(self)),
            !final(self).guard.is_held(),
            final(self).pipeline is Idle,
    {
        self.guard.cancel();
        self.pipeline = PipelineState::Idle;
    }

    /// The host could not capture the frame at all: the run aborts with one
    /// failure notification and the guard is freed.  Outside a capturing
    /// run the event is stale and does nothing.
    pub fn on_capture_failed(&mut self, message: String) -> (actions: Vec<PipelineAction>)
        requires
            old(self).wf(),
        ensures
            final(self).wf(),
            !(old(self).pipeline is Capturing) ==> *final(self) == *old(self) && actions@.len()
                == 0,
            old(self).pipeline is Capturing ==> {
                &&& same_store(*old(self), *final(self))
                &&& !final(self).guard.is_held()
                &&& final(self).pipeline is Idle
                &&& actions@.len() == 1
                &&& actions@[0] matches PipelineAction::EmitFailure { message: m } && m@
                    == message@
            },
    {
        let mut taken = PipelineState::Idle;
        core::mem::swap(&mut taken, &mut self.pipeline);
        match taken {
            PipelineState::Capturing { .. } => {
                self.guard.release();
                let mut actions: Vec<PipelineAction> = Vec::new();
                actions.push(PipelineAction::EmitFailure { message });
                actions
            },
            other => {
                self.pipeline = other;
                Vec::new()
            },
        }
    }

    /// The captured frame arrived: crop it to the run's region.  A region
    /// that does not fit the frame aborts the run with one failure
    /// notification; otherwise the host is told to persist the cropped
    /// image.  Outside a capturing run the event is stale and does nothing.
    pub fn on_frame_captured(&mut self, frame_width: u32, frame_height: u32, pixels: Vec<u8>) -> (actions:
        Vec<PipelineAction>)
        requires
            old(self).wf(),
        ensures
            final(self).wf(),
            !(old(self).pipeline is Capturing) ==> *final(self) == *old(self) && actions@.len()
                == 0,
            old(self).pipeline matches PipelineState::Capturing { region, settings } ==> {
                &&& same_store(*old(self), *final(self))
                &&& if crop_ok(frame_width, frame_height, pixels@.len() as int, region) {
                    &&& final(self).guard.is_held()
                    &&& final(self).pipeline matches PipelineState::Persisting { settings: s }
                        && s == settings
                    &&& actions@.len() == 1
                    &&& actions@[0] matches PipelineAction::PersistImage { width, height, pixels: p }
                    &&& width == region.width && height == region.height
                    &&& p@.len() == region.width * region.height * 4
                    &&& forall|row: int, col: int, k: int|
                        0 <= row < region.height && 0 <= col < region.width && 0 <= k < 4
                            ==> p@[(row * region.width + col) * 4 + k] == pixels@[crop_src_index(
                            frame_width,
                            region,
                            row,
                            col,
                            k,
                        )]
                } else {
                    &&& !final(self).guard.is_held()
                    &&& final(self).pipeline is Idle
                    &&& actions@.len() == 1
                    &&& actions@[0] is EmitFailure
                }
            },
    {
        let mut taken = PipelineState::Idle;
        core::mem::swap(&mut taken, &mut self.pipeline);
        match taken {
            PipelineState::Capturing { region, settings } => {
                match crop_rgba(pixels.as_slice(), frame_width, frame_height, region) {
                    Ok(cropped) => {
                        self.pipeline = PipelineState::Persisting { settings };
                        let mut actions: Vec<PipelineAction> = Vec::new();
                        actions.push(
                            PipelineAction::PersistImage {
                                width: region.width,
                                height: region.height,
                                pixels: cropped,
                            },
                        );
                        actions
                    },
                    Err(_) => {
                        self.guard.release();
                        let mut actions: Vec<PipelineAction> = Vec::new();
                        actions.push(
                            PipelineAction::EmitFailure {
                                message: String::from_str(
                                    "the selected region does not fit the captured frame",
                                ),
                            },
                        );
                        actions
                    },
                }
            },
            other => {
                self.pipeline = other;
                Vec::new()
            },
        }
    }
    /// The cropped image reached (or failed to reach) disk.  Failure aborts
    /// the run with one notification.  Success records the path as the most
    /// recent capture, puts it into the history (evicting the oldest entry
    /// past the bound, whose file the host is told to delete), and takes
    /// the configured branch: recognition, or a terminal copy, save or
    /// preview.  Outside a persisting run the event is stale and does
    /// nothing.
    pub fn on_persist_finished(&mut self, result: Result<String, String>) -> (actions: Vec<
        PipelineAction,
    >)
        requires
            old(self).wf(),
        ensures
            final(self).wf(),
            !(old(self).pipeline is Persisting) ==> *final(self) == *old(self) && actions@.len()
                == 0,
            old(self).pipeline matches PipelineState::Persisting { settings } ==> match result {
                Err(m) => {
                    &&& same_store(*old(self), *final(self))
                    &&& !final(self).guard.is_held()
                    &&& final(self).pipeline is Idle
                    &&& actions@.len() == 1
                    &&& actions@[0] matches PipelineAction::EmitFailure { message } && message@
                        == m@
                },
                Ok(path) => {
                    let inserted = ring_insert(old(self).history.paths(), path@);
                    let k: int = if inserted.1 is Some {
                        1
                    } else {
                        0
                    };
                    &&& final(self).settings == old(self).settings
                    &&& final(self).cached == old(self).cached
                    &&& final(self).last_screenshot_path matches Some(p) && p@ == path@
                    &&& final(self).history.paths() == inserted.0
                    &&& final(self).history.cursor_pos() == 0
                    &&& (inserted.1 matches Some(e) ==> ({
                        &&& actions@.len() >= 1
                        &&& actions@[0] matches PipelineAction::DeleteFile { path: dp } && dp@
                            == e
                    }))
                    &&& if takes_recognition_branch(settings) {
                        &&& final(self).guard.is_held()
                        &&& final(self).pipeline matches PipelineState::Recognizing {
                            image_path,
                            settings: s,
                        } && image_path@ == path@ && s == settings
                        &&& actions@.len() == k + 2
                        &&& actions@[k] is ShowResultsSurface
                        &&& actions@[k + 1] matches PipelineAction::RunRecognition {
                            image_path,
                            preserve_line_breaks,
                        } && image_path@ == path@ && preserve_line_breaks
                            == settings.preserve_line_breaks
                    } else {
                        &&& !final(self).guard.is_held()
                        &&& final(self).pipeline is Idle
                        &&& actions@.len() == k + 1
                        &&& terminal_branch_action(actions@[k], settings, path@)
                    }
                },
            },
    {
        let mut taken = PipelineState::Idle;
        core::mem::swap(&mut taken, &mut self.pipeline);
        match taken {
            PipelineState::Persisting { settings } => {
                match result {
                    Err(m) => {
                        self.guard.release();
                        let mut actions: Vec<PipelineAction> = Vec::new();
                        actions.push(PipelineAction::EmitFailure { message: m });
                        actions
                    },
                    Ok(path) => {
                        self.last_screenshot_path = Some(path.clone());
                        let evicted = self.history.insert(path.clone());
                        let mut actions: Vec<PipelineAction> = Vec::new();
                        match evicted {
                            Some(e) => {
                                actions.push(PipelineAction::DeleteFile { path: e });
                            },
                            None => {},
                        }
                        let recognize = settings.enable_ocr && (settings.primary_action
                            == PrimaryAction::RecognizeOnly || settings.primary_action
                            == PrimaryAction::RecognizeTranslate);
                        if recognize {
                            actions.push(PipelineAction::ShowResultsSurface);
                            actions.push(
                                PipelineAction::RunRecognition {
                                    image_path: path.clone(),
                                    preserve_line_breaks: settings.preserve_line_breaks,
                                },
                            );
                            self.pipeline = PipelineState::Recognizing {
                                image_path: path,
                                settings,
                            };
                        } else {
                            if !settings.enable_ocr {
                                actions.push(PipelineAction::ShowPreview { image_path: path });
                            } else {
                                match settings.primary_action {
                                    PrimaryAction::CopyToClipboard => {
                                        actions.push(
                                            PipelineAction::CopyToClipboard { image_path: path },
                                        );
                                    },
                                    PrimaryAction::SaveToDesktop => {
                                        actions.push(
                                            PipelineAction::SaveToDesktop { image_path: path },
                                        );
                                    },
                                    _ => {
                                        actions.push(
                                            PipelineAction::ShowPreview { image_path: path },
                                        );
                                    },
                                }
                            }
                            self.guard.release();
                        }
                        actions
                    },
                }
            },
            other => {
                self.pipeline = other;
                Vec::new()
            },
        }
    }

    /// The recognition engine answered.  Either way the outcome is cached
    /// and the recognition event dispatched.  On success, when the run is
    /// configured to translate, the host is told to run the translation
    /// engine; otherwise the informational translation-off event follows
    /// and the run ends.  On failure the run ends at once: translation is
    /// never attempted without recognized text.  Outside a recognizing run
    /// the event is stale and does nothing.
    pub fn on_recognition_finished(&mut self, result: Result<String, RecognitionError>) -> (actions:
        Vec<PipelineAction>)
        requires
            old(self).wf(),
        ensures
            final(self).wf(),
            !(old(self).pipeline is Recognizing) ==> *final(self) == *old(self) && actions@.len()
                == 0,
            old(self).pipeline matches PipelineState::Recognizing { image_path, settings }
                ==> {
                &&& final(self).settings == old(self).settings
                &&& final(self).history == old(self).history
                &&& final(self).last_screenshot_path == old(self).last_screenshot_path
                &&& match result {
                    Ok(text) => {
                        &&& final(self).cached matches Some(c)
                        &&& c.image_path@ == image_path@
                        &&& c.original_text matches Some(t) && t@ == text@
                        &&& c.recognition_error is None && c.translated_text is None
                            && c.translation_error is None
                        &&& actions@.len() == 2
                        &&& actions@[0] matches PipelineAction::EmitRecognition { payload }
                        &&& payload.original_text matches Some(t2) && t2@ == text@
                        &&& payload.error_message is None && payload.image_path@ == image_path@
                        &&& if takes_translation_branch(settings) {
                            &&& final(self).guard.is_held()
                            &&& final(self).pipeline matches PipelineState::Translating {
                                image_path: ip,
                                recognized,
                            } && ip@ == image_path@ && recognized@ == text@
                            &&& actions@[1] matches PipelineAction::RunTranslation {
                                text: tt,
                                source_lang,
                                target_lang,
                            } && tt@ == text@ && target_lang@ == settings.target_lang@ && (
                            settings.target_lang@ == "en"@ ==> source_lang@ == "zh"@) && (
                            settings.target_lang@ != "en"@ ==> source_lang@ == "en"@)
                        } else {
                            &&& !final(self).guard.is_held()
                            &&& final(self).pipeline is Idle
                            &&& actions@[1] matches PipelineAction::EmitTranslation { payload: p }
                            &&& p.translated_text is None
                            &&& p.error_message matches Some(m) && m@
                                == "translation is switched off"@
                        }
                    },
                    Err(e) => {
                        &&& !final(self).guard.is_held()
                        &&& final(self).pipeline is Idle
                        &&& final(self).cached matches Some(c)
                        &&& c.image_path@ == image_path@
                        &&& c.original_text is None
                        &&& c.recognition_error matches Some(m) && m@ == recognition_error_text(
                            e@,
                        )
                        &&& c.translated_text is None && c.translation_error is None
                        &&& actions@.len() == 1
                        &&& actions@[0] matches PipelineAction::EmitRecognition { payload }
                        &&& payload.original_text is None
                        &&& payload.error_message matches Some(m2) && m2@
                            == recognition_error_text(e@)
                        &&& payload.image_path@ == image_path@
                    },
                }
            },
    {
        let mut taken = PipelineState::Idle;
        core::mem::swap(&mut taken, &mut self.pipeline);
        match taken {
            PipelineState::Recognizing { image_path, settings } => {
                let mut actions: Vec<PipelineAction> = Vec::new();
                match result {
                    Ok(text) => {
                        self.cached = Some(
                            CachedResult {
                                image_path: image_path.clone(),
                                original_text: Some(text.clone()),
                                recognition_error: None,
                                translated_text: None,
                                translation_error: None,
                            },
                        );
                        actions.push(
                            PipelineAction::EmitRecognition {
                                payload: RecognitionPayload {
                                    original_text: Some(text.clone()),
                                    error_message: None,
                                    image_path: image_path.clone(),
                                },
                            },
                        );
                        let translate = settings.enable_translation && settings.primary_action
                            == PrimaryAction::RecognizeTranslate;
                        if translate {
                            let source = source_lang_for(settings.target_lang.as_str());
                            actions.push(
                                PipelineAction::RunTranslation {
                                    text: text.clone(),
                                    source_lang: String::from_str(source),
                                    target_lang: settings.target_lang,
                                },
                            );
                            self.pipeline = PipelineState::Translating {
                                image_path,
                                recognized: text,
                            };
                        } else {
                            actions.push(
                                PipelineAction::EmitTranslation {
                                    payload: TranslationPayload {
                                        translated_text: None,
                                        error_message: Some(
                                            String::from_str("translation is switched off"),
                                        ),
                                    },
                                },
                            );
                            self.guard.release();
                        }
                    },
                    Err(e) => {
                        let msg = e.message();
                        self.cached = Some(
                            CachedResult {
                                image_path: image_path.clone(),
                                original_text: None,
                                recognition_error: Some(msg.clone()),
                                translated_text: None,
                                translation_error: None,
                            },
                        );
                        actions.push(
                            PipelineAction::EmitRecognition {
                                payload: RecognitionPayload {
                                    original_text: None,
                                    error_message: Some(msg),
                                    image_path,
                                },
                            },
                        );
                        self.guard.release();
                    },
                }
                actions
            },
            other => {
                self.pipeline = other;
                Vec::new()
            },
        }
    }

    /// The translation engine answered.  The cached result is completed —
    /// a translation failure keeps the recognized text and only annotates
    /// the error — the translation event is dispatched, and the run ends.
    /// Outside a translating run the event is stale and does nothing.
    pub fn on_translation_finished(&mut self, result: Result<String, TranslationError>) -> (actions:
        Vec<PipelineAction>)
        requires
            old(self).wf(),
        ensures
            final(self).wf(),
            !(old(self).pipeline is Translating) ==> *final(self) == *old(self) && actions@.len()
                == 0,
            old(self).pipeline matches PipelineState::Translating { image_path, recognized }
                ==> {
                &&& final(self).settings == old(self).settings
                &&& final(self).history == old(self).history
                &&& final(self).last_screenshot_path == old(self).last_screenshot_path
                &&& !final(self).guard.is_held()
                &&& final(self).pipeline is Idle
                &&& final(self).cached matches Some(c)
                &&& c.image_path@ == image_path@
                &&& c.original_text matches Some(t) && t@ == recognized@
                &&& c.recognition_error is None
                &&& actions@.len() == 1
                &&& match result {
                    Ok(translated) => {
                        &&& c.translated_text matches Some(x) && x@ == translated@
                        &&& c.translation_error is None
                        &&& actions@[0] matches PipelineAction::EmitTranslation { payload }
                        &&& payload.translated_text matches Some(y) && y@ == translated@
                        &&& payload.error_message is None
                    },
                    Err(e) => {
                        &&& c.translated_text is None
                        &&& c.translation_error matches Some(m) && m@ == translation_error_text(
                            e@,
                        )
                        &&& actions@[0] matches PipelineAction::EmitTranslation { payload }
                        &&& payload.translated_text is None
                        &&& payload.error_message matches Some(m2) && m2@
                            == translation_error_text(e@)
                    },
                }
            },
    {
        let mut taken = PipelineState::Idle;
        core::mem::swap(&mut taken, &mut self.pipeline);
        match taken {
            PipelineState::Translating { image_path, recognized } => {
                let mut actions: Vec<PipelineAction> = Vec::new();
                match result {
                    Ok(translated) => {
                        self.cached = Some(
                            CachedResult {
                                image_path,
                                original_text: Some(recognized),
                                recognition_error: None,
                                translated_text: Some(translated.clone()),
                                translation_error: None,
                            },
                        );
                        actions.push(
                            PipelineAction::EmitTranslation {
                                payload: TranslationPayload {
                                    translated_text: Some(translated),
                                    error_message: None,
                                },
                            },
                        );
                    },
                    Err(e) => {
                        let msg = e.message();
                        self.cached = Some(
                            CachedResult {
                                image_path,
                                original_text: Some(recognized),
                                recognition_error: None,
                                translated_text: None,
                                translation_error: Some(msg.clone()),
                            },
                        );
                        actions.push(
                            PipelineAction::EmitTranslation {
                                payload: TranslationPayload {
                                    translated_text: None,
                                    error_message: Some(msg),
                                },
                            },
                        );
                    },
                }
                self.guard.release();
                actions
            },
            other => {
                self.pipeline = other;
                Vec::new()
            },
        }
    }
}

/// What the host must do after a settings update: re-register hotkeys,
/// unregister the old ones where they changed, and align the autostart
/// registration.
pub struct SettingsActions {
    /// The old capture hotkey, when it changed and must be unregistered.
    pub unregister_shortcut: Option<String>,
    /// The old view-image hotkey, when it changed and must be unregistered.
    pub unregister_view_shortcut: Option<String>,
    /// The capture hotkey to (re-)register.
    pub register_shortcut: String,
    /// The view-image hotkey to (re-)register.
    pub register_view_shortcut: String,
    /// Enable or disable launching at login, when the recorded state
    /// disagrees with the new settings.
    pub set_autostart: Option<bool>,
}

impl AppState {
    /// The settings-update entry point: replaces the stored settings and
    /// decides what the host must re-register.  `autostart_enabled` is what
    /// the host's autostart registry currently reports.
    pub fn set_settings(&mut self, new_settings: AppSettings, autostart_enabled: bool) -> (r:
        SettingsActions)
        requires
            old(self).wf(),
        ensures
            final(self).wf(),
            final(self).settings == new_settings,
            final(self).last_screenshot_path == old(self).last_screenshot_path,
            final(self).history == old(self).history,
            final(self).cached == old(self).cached,
            final(self).guard == old(self).guard,
            final(self).pipeline == old(self).pipeline,
            old(self).settings.shortcut@ == new_settings.shortcut@ ==> r.unregister_shortcut
                is None,
            old(self).settings.shortcut@ != new_settings.shortcut@ ==> ({
                &&& r.unregister_shortcut matches Some(s) && s@ == old(self).settings.shortcut@
            }),
            old(self).settings.view_image_shortcut@ == new_settings.view_image_shortcut@
                ==> r.unregister_view_shortcut is None,
            old(self).settings.view_image_shortcut@ != new_settings.view_image_shortcut@ ==> ({
                &&& r.unregister_view_shortcut matches Some(s) && s@ == old(
                    self,
                ).settings.view_image_shortcut@
            }),
            r.register_shortcut@ == new_settings.shortcut@,
            r.register_view_shortcut@ == new_settings.view_image_shortcut@,
            r.set_autostart == (if new_settings.autostart && !autostart_enabled {
                Some(true)
            } else if !new_settings.autostart && autostart_enabled {
                Some(false)
            } else {
                None::<bool>
            }),
    {
        let unregister_shortcut = if self.settings.shortcut == new_settings.shortcut {
            None
        } else {
            Some(self.settings.shortcut.clone())
        };
        let unregister_view_shortcut = if self.settings.view_image_shortcut
            == new_settings.view_image_shortcut {
            None
        } else {
            Some(self.settings.view_image_shortcut.clone())
        };
        let register_shortcut = new_settings.shortcut.clone();
        let register_view_shortcut = new_settings.view_image_shortcut.clone();
        let set_autostart = if new_settings.autostart && !autostart_enabled {
            Some(true)
        } else if !new_settings.autostart && autostart_enabled {
            Some(false)
        } else {
            None
        };
        self.settings = new_settings;
        SettingsActions {
            unregister_shortcut,
            unregister_view_shortcut,
            register_shortcut,
            register_view_shortcut,
            set_autostart,
        }
    }
}

/// The single terminal action of a run that does not recognize: a preview
/// when recognition is off or configured, otherwise the configured copy or
/// save.
pub open spec fn terminal_branch_action(a: PipelineAction, s: AppSettings, path: Seq<char>) -> bool {
    if !s.enable_ocr {
        a matches PipelineAction::ShowPreview { image_path } && image_path@ == path
    } else if s.primary_action == PrimaryAction::CopyToClipboard {
        a matches PipelineAction::CopyToClipboard { image_path } && image_path@ == path
    } else if s.primary_action == PrimaryAction::SaveToDesktop {
        a matches PipelineAction::SaveToDesktop { image_path } && image_path@ == path
    } else {
        a matches PipelineAction::ShowPreview { image_path } && image_path@ == path
    }
}

} // verus!
