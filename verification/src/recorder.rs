//! The recorder's phases: ready, recording, transcribing.
//!
//! Starting and stopping a recording involve outside work (the microphone,
//! saving audio, running a transcription engine, pasting the text). The
//! recorder decides each step from the state and the result of the previous
//! piece of outside work; every failure, and the end of a transcription,
//! brings it back to ready.
use vstd::prelude::*;
use vstd::string::*;

use crate::text::{joined, same_text};
use crate::transcribe_local::{model_file_name, model_filename};

verus! {

/// The phase of the recorder.
#[derive(PartialEq, Eq, Structural, Clone, Copy, Debug)]
pub enum RecordingState {
    Ready,
    Recording,
    Transcribing,
}

/// The recorder's state machine.
pub struct Recorder {
    state: RecordingState,
}

impl View for Recorder {
    type V = RecordingState;

    closed spec fn view(&self) -> RecordingState {
        self.state
    }
}

/// A `Result` without payload on success, seen through the error's characters.
pub open spec fn unit_result(r: Result<(), String>) -> Result<(), Seq<char>> {
    match r {
        Ok(()) => Ok(()),
        Err(e) => Err(e@),
    }
}

/// A `Result` of strings, seen through the strings' characters.
pub open spec fn string_result(r: Result<String, String>) -> Result<Seq<char>, Seq<char>> {
    match r {
        Ok(s) => Ok(s@),
        Err(e) => Err(e@),
    }
}

/// The state and result of asking to start while in `s`, before the
/// microphone is touched: only a ready recorder may start.
pub open spec fn start_refusal(s: RecordingState) -> Result<(), Seq<char>> {
    if s == RecordingState::Ready {
        Ok(())
    } else {
        Err("Already recording or transcribing"@)
    }
}

/// The state and result once the microphone was asked to start from
/// `Ready`.
pub open spec fn after_microphone(started: Result<(), Seq<char>>) -> (RecordingState, Result<
    (),
    Seq<char>,
>) {
    match started {
        Ok(()) => (RecordingState::Recording, Ok(())),
        Err(e) => (RecordingState::Ready, Err("Microphone error: "@ + e)),
    }
}

/// The state and result of asking to stop while in `s`: only a recording
/// recorder stops, and it goes on to transcribing.
pub open spec fn after_stop_request(s: RecordingState) -> (RecordingState, Result<(), Seq<char>>) {
    if s == RecordingState::Recording {
        (RecordingState::Transcribing, Ok(()))
    } else {
        (s, Err("Not currently recording"@))
    }
}

/// Which transcription engine runs, and on what.
#[derive(Debug)]
pub enum EnginePlan {
    /// whisper.cpp on this machine, with the model stored under `model_file`.
    Local { model_file: String },
    /// The cloud transcription service.
    Cloud,
}

/// An [`EnginePlan`] with the model file name as text.
pub enum EngineChoice {
    Local(Seq<char>),
    Cloud,
}

impl View for EnginePlan {
    type V = EngineChoice;

    open spec fn view(&self) -> EngineChoice {
        match self {
            EnginePlan::Local { model_file } => EngineChoice::Local(model_file@),
            EnginePlan::Cloud => EngineChoice::Cloud,
        }
    }
}

/// The state and result once the recorded audio was saved (or not): a
/// failed save, or an unknown engine name, ends the run; otherwise the engine
/// named in the settings is chosen.
pub open spec fn after_audio_saved(
    saved: Result<(), Seq<char>>,
    engine: Seq<char>,
    whisper_model: Seq<char>,
) -> (RecordingState, Result<EngineChoice, Seq<char>>) {
    match saved {
        Err(e) => (RecordingState::Ready, Err("Audio capture error: "@ + e)),
        Ok(()) => if engine == "local"@ {
            (RecordingState::Transcribing, Ok(EngineChoice::Local(model_file_name(whisper_model))))
        } else if engine == "cloud"@ {
            (RecordingState::Transcribing, Ok(EngineChoice::Cloud))
        } else {
            (RecordingState::Ready, Err("Unknown engine: "@ + engine))
        },
    }
}

/// The state and result once the engine answered: its error ends the run
/// unchanged; its text goes on to clean-up.
pub open spec fn after_transcription(result: Result<Seq<char>, Seq<char>>) -> (
    RecordingState,
    Result<Seq<char>, Seq<char>>,
) {
    match result {
        Err(e) => (RecordingState::Ready, Err(e)),
        Ok(t) => (RecordingState::Transcribing, Ok(t)),
    }
}

/// What happens to cleaned-up text: empty text ends the run, other text is
/// pasted.
#[derive(Debug)]
pub enum PasteStep {
    /// Nothing to paste; the run is over with this (empty) text.
    Finished(String),
    /// Paste this text, then report the outcome.
    Paste(String),
}

/// A [`PasteStep`] with its text as characters.
pub enum PasteDecision {
    Finished(Seq<char>),
    Paste(Seq<char>),
}

impl View for PasteStep {
    type V = PasteDecision;

    open spec fn view(&self) -> PasteDecision {
        match self {
            PasteStep::Finished(t) => PasteDecision::Finished(t@),
            PasteStep::Paste(t) => PasteDecision::Paste(t@),
        }
    }
}

/// The state and next step once the transcript was cleaned up.
pub open spec fn after_cleanup(cleaned: Seq<char>) -> (RecordingState, PasteDecision) {
    if cleaned.len() == 0 {
        (RecordingState::Ready, PasteDecision::Finished(cleaned))
    } else {
        (RecordingState::Transcribing, PasteDecision::Paste(cleaned))
    }
}

/// The state and final result once the text was pasted (or not).
pub open spec fn after_paste(cleaned: Seq<char>, pasted: Result<(), Seq<char>>) -> (
    RecordingState,
    Result<Seq<char>, Seq<char>>,
) {
    match pasted {
        Err(e) => (RecordingState::Ready, Err("Paste failed: "@ + e)),
        Ok(()) => (RecordingState::Ready, Ok(cleaned)),
    }
}

impl Recorder {
    /// A recorder that is ready to record.
    pub fn new() -> (r: Self)
        ensures
            r@ == RecordingState::Ready,
    {
        Recorder { state: RecordingState::Ready }
    }

    /// The current phase.
    pub fn get_state(&self) -> (s: RecordingState)
        ensures
            s == self@,
    {
        self.state
    }

    /// Starts recording when ready: `start_microphone` is called only then,
    /// and the recorder is recording exactly when it succeeded. Otherwise the
    /// phase is unchanged and the refusal is returned.
    pub fn start_recording<F: FnOnce() -> Result<(), String>>(
        &mut self,
        start_microphone: F,
    ) -> (r: Result<(), String>)
        requires
            old(self)@ == RecordingState::Ready ==> start_microphone.requires(()),
        ensures
            old(self)@ != RecordingState::Ready ==> final(self)@ == old(self)@ && unit_result(r)
                == start_refusal(old(self)@),
            old(self)@ == RecordingState::Ready ==> exists|m: Result<(), String>|
                #[trigger] start_microphone.ensures((), m) && after_microphone(unit_result(m)) == (
                final(self)@,
                unit_result(r),
            ),
    {
        if self.state != RecordingState::Ready {
            return Err(String::from_str("Already recording or transcribing"));
        }
        let started = start_microphone();
        match started {
            Ok(()) => {
                self.state = RecordingState::Recording;
                Ok(())
            },
            Err(e) => {
                let msg = joined("Microphone error: ", e.as_str());
                Err(msg)
            },
        }
    }

    /// Stops recording and moves on to transcribing; refused unless
    /// recording.
    pub fn stop_recording(&mut self) -> (r: Result<(), String>)
        ensures
            after_stop_request(old(self)@) == (final(self)@, unit_result(r)),
    {
        if self.state != RecordingState::Recording {
            return Err(String::from_str("Not currently recording"));
        }
        self.state = RecordingState::Transcribing;
        Ok(())
    }

    /// Takes the outcome of saving the recording and picks the engine named
    /// `engine` (`"local"` with `whisper_model`, or `"cloud"`).
    pub fn audio_saved(&mut self, saved: Result<(), String>, engine: &str, whisper_model: &str) -> (r:
        Result<EnginePlan, String>)
        requires
            old(self)@ == RecordingState::Transcribing,
        ensures
            after_audio_saved(unit_result(saved), engine@, whisper_model@) == (final(self)@, match r {
                Ok(p) => Ok(p@),
                Err(e) => Err(e@),
            }),
    {
        match saved {
            Err(e) => {
                self.state = RecordingState::Ready;
                Err(joined("Audio capture error: ", e.as_str()))
            },
            Ok(()) => {
                if same_text(engine, "local") {
                    Ok(EnginePlan::Local { model_file: model_filename(whisper_model) })
                } else if same_text(engine, "cloud") {
                    Ok(EnginePlan::Cloud)
                } else {
                    self.state = RecordingState::Ready;
                    Err(joined("Unknown engine: ", engine))
                }
            },
        }
    }

    /// Takes the engine's answer: an error ends the run, text goes on.
    pub fn transcribed(&mut self, result: Result<String, String>) -> (r: Result<String, String>)
        requires
            old(self)@ == RecordingState::Transcribing,
        ensures
            after_transcription(string_result(result)) == (final(self)@, string_result(r)),
    {
        if result.is_err() {
            self.state = RecordingState::Ready;
        }
        result
    }

    /// Takes the cleaned-up transcript: empty text ends the run, other text
    /// is to be pasted.
    pub fn cleaned(&mut self, cleaned: String) -> (r: PasteStep)
        requires
            old(self)@ == RecordingState::Transcribing,
        ensures
            after_cleanup(cleaned@) == (final(self)@, r@),
    {
        if cleaned.unicode_len() == 0 {
            self.state = RecordingState::Ready;
            PasteStep::Finished(cleaned)
        } else {
            PasteStep::Paste(cleaned)
        }
    }

    /// Takes the outcome of pasting `cleaned`; the run is over either way.
    pub fn pasted(&mut self, cleaned: String, pasted: Result<(), String>) -> (r: Result<
        String,
        String,
    >)
        requires
            old(self)@ == RecordingState::Transcribing,
        ensures
            after_paste(cleaned@, unit_result(pasted)) == (final(self)@, string_result(r)),
    {
        self.state = RecordingState::Ready;
        match pasted {
            Err(e) => Err(joined("Paste failed: ", e.as_str())),
            Ok(()) => Ok(cleaned),
        }
    }
}

/// The tray tooltip for a phase.
pub open spec fn tooltip_text(s: RecordingState) -> Seq<char> {
    match s {
        RecordingState::Ready => "Typr — Ready"@,
        RecordingState::Recording => "Typr — Recording..."@,
        RecordingState::Transcribing => "Typr — Transcribing..."@,
    }
}

/// The tray tooltip that shows the current phase.
pub fn tray_tooltip(s: RecordingState) -> (r: &'static str)
    ensures
        r@ == tooltip_text(s),
{
    match s {
        RecordingState::Ready => "Typr — Ready",
        RecordingState::Recording => "Typr — Recording...",
        RecordingState::Transcribing => "Typr — Transcribing...",
    }
}

/// The tray icon that shows a phase.
#[derive(PartialEq, Eq, Structural, Clone, Copy, Debug)]
pub enum TrayIcon {
    Idle,
    Recording,
    Transcribing,
}

/// The tray icon for a phase: idle when ready, otherwise the phase's own.
pub fn tray_icon(s: RecordingState) -> (r: TrayIcon)
    ensures
        r == match s {
            RecordingState::Ready => TrayIcon::Idle,
            RecordingState::Recording => TrayIcon::Recording,
            RecordingState::Transcribing => TrayIcon::Transcribing,
        },
{
    match s {
        RecordingState::Ready => TrayIcon::Idle,
        RecordingState::Recording => TrayIcon::Recording,
        RecordingState::Transcribing => TrayIcon::Transcribing,
    }
}

/// Whether the audio-level poller goes on: it runs while recording and stops
/// at the first look that finds another phase.
pub fn keep_polling_level(s: RecordingState) -> (r: bool)
    ensures
        r == (s == RecordingState::Recording),
{
    s == RecordingState::Recording
}

/// What the PNG decoder makes of the given bytes: the pixels as 8-bit RGBA
/// rows, the width and the height; `None` when they are not a PNG image it
/// can decode.
pub uninterp spec fn png_rgba(bytes: Seq<u8>) -> Option<(Seq<u8>, u32, u32)>;

/// Calls `image::load_from_memory_with_format` on `data` with the built-in
/// PNG format (the decoder is then chosen without any format guessing or
/// registered hooks) and, on success, takes the image's `dimensions` and its
/// pixels converted by `to_rgba8` into a raw byte buffer; a decoding error
/// becomes `None`. The result is named `png_rgba`; nothing more is stated of
/// the decoder.
#[verifier::external_body]
fn decode_png_rgba(data: &[u8]) -> (r: Option<(Vec<u8>, u32, u32)>)
    ensures
        match r {
            Some((px, w, h)) => png_rgba(data@) == Some((px@, w, h)),
            None => png_rgba(data@) is None,
        },
{
    match image::load_from_memory_with_format(data, image::ImageFormat::Png) {
        Ok(img) => {
            let dims: (u32, u32) = image::GenericImageView::dimensions(&img);
            Some((img.to_rgba8().into_raw(), dims.0, dims.1))
        },
        Err(_) => None,
    }
}

/// A decoded icon: 8-bit RGBA pixels, row by row, and its size.
#[derive(Debug)]
pub struct IconImage {
    pub rgba: Vec<u8>,
    pub width: u32,
    pub height: u32,
}

/// Decodes an embedded tray icon (PNG bytes) into RGBA pixels and its size;
/// `None` when the bytes are not a PNG image the decoder reads.
pub fn decode_png_icon(data: &[u8]) -> (r: Option<IconImage>)
    ensures
        match r {
            Some(icon) => png_rgba(data@) == Some((icon.rgba@, icon.width, icon.height)),
            None => png_rgba(data@) is None,
        },
{
    match decode_png_rgba(data) {
        Some((rgba, width, height)) => Some(IconImage { rgba, width, height }),
        None => None,
    }
}

/// The phase and result at the end of a stop-and-transcribe run started from
/// `Transcribing`, given what each piece of outside work returned: the save,
/// the engine's answer, the clean-up of that answer, and the paste. A step
/// whose input is never produced (because the run ended earlier) is ignored.
pub open spec fn transcription_run(
    saved: Result<(), Seq<char>>,
    engine: Seq<char>,
    whisper_model: Seq<char>,
    answer: Result<Seq<char>, Seq<char>>,
    clean: spec_fn(Seq<char>) -> Seq<char>,
    pasted: Result<(), Seq<char>>,
) -> (RecordingState, Result<Seq<char>, Seq<char>>) {
    let (s1, plan) = after_audio_saved(saved, engine, whisper_model);
    match plan {
        Err(e) => (s1, Err(e)),
        Ok(_) => {
            let (s2, text) = after_transcription(answer);
            match text {
                Err(e) => (s2, Err(e)),
                Ok(t) => {
                    let (s3, step) = after_cleanup(clean(t));
                    match step {
                        PasteDecision::Finished(c) => (s3, Ok(c)),
                        PasteDecision::Paste(c) => after_paste(c, pasted),
                    }
                },
            }
        },
    }
}

/// Whatever the outside work returns, a stop-and-transcribe run ends with
/// the recorder ready again; it ends in success only with the pasted (or
/// empty) cleaned text.
pub proof fn lemma_transcription_run_ends_ready(
    saved: Result<(), Seq<char>>,
    engine: Seq<char>,
    whisper_model: Seq<char>,
    answer: Result<Seq<char>, Seq<char>>,
    clean: spec_fn(Seq<char>) -> Seq<char>,
    pasted: Result<(), Seq<char>>,
)
    ensures
        transcription_run(saved, engine, whisper_model, answer, clean, pasted).0
            == RecordingState::Ready,
        transcription_run(saved, engine, whisper_model, answer, clean, pasted).1 is Ok ==> (
        saved is Ok && answer is Ok && transcription_run(
            saved,
            engine,
            whisper_model,
            answer,
            clean,
            pasted,
        ).1->Ok_0 == clean(answer->Ok_0)),
{
}

/// Each step of a run either keeps the recorder transcribing (the run goes
/// on) or returns it to ready together with the run's final result: no step
/// leaves it recording.
pub proof fn lemma_steps_never_resume_recording(
    saved: Result<(), Seq<char>>,
    engine: Seq<char>,
    whisper_model: Seq<char>,
    answer: Result<Seq<char>, Seq<char>>,
    cleaned: Seq<char>,
    pasted: Result<(), Seq<char>>,
)
    ensures
        after_audio_saved(saved, engine, whisper_model).0 == RecordingState::Transcribing
            <==> after_audio_saved(saved, engine, whisper_model).1 is Ok,
        after_audio_saved(saved, engine, whisper_model).1 is Err ==> after_audio_saved(
            saved,
            engine,
            whisper_model,
        ).0 == RecordingState::Ready,
        after_transcription(answer).0 == RecordingState::Transcribing <==> answer is Ok,
        after_transcription(answer).1 is Err ==> after_transcription(answer).0
            == RecordingState::Ready,
        after_cleanup(cleaned).0 != RecordingState::Recording,
        after_paste(cleaned, pasted).0 == RecordingState::Ready,
{
}

/// Starting and stopping follow the cycle ready → recording → transcribing:
/// a start is accepted only when ready and leads to recording (or, when the
/// microphone fails, back to ready); a stop is accepted only when recording
/// and leads to transcribing; refused requests change nothing.
pub proof fn lemma_start_stop_cycle(s: RecordingState, started: Result<(), Seq<char>>)
    ensures
        start_refusal(s) is Ok <==> s == RecordingState::Ready,
        after_microphone(started).0 == RecordingState::Recording <==> started is Ok,
        after_microphone(started).0 != RecordingState::Transcribing,
        after_stop_request(s).1 is Ok <==> s == RecordingState::Recording,
        after_stop_request(s).1 is Ok ==> after_stop_request(s).0 == RecordingState::Transcribing,
        after_stop_request(s).1 is Err ==> after_stop_request(s).0 == s,
{
}


/// Every non-empty cleaned transcript is pasted, and the run goes on; only
/// the empty text ends the run (back to ready) without a paste.
pub proof fn lemma_nonempty_text_is_pasted(cleaned: Seq<char>)
    ensures
        cleaned.len() > 0 ==> after_cleanup(cleaned) == (
            RecordingState::Transcribing,
            PasteDecision::Paste(cleaned),
        ),
        cleaned.len() == 0 ==> after_cleanup(cleaned) == (
            RecordingState::Ready,
            PasteDecision::Finished(cleaned),
        ),
{
}

/// After a successful save, the engine named in the settings runs: `"local"`
/// with the model file `ggml-<model>.bin` of the settings' model, `"cloud"`
/// as is, and any other name fails and ends the run. A failed save ends the
/// run with its error, whatever the engine.
pub proof fn lemma_engine_follows_settings(
    engine: Seq<char>,
    whisper_model: Seq<char>,
    save_error: Seq<char>,
)
    ensures
        after_audio_saved(Ok(()), "local"@, whisper_model) == (
            RecordingState::Transcribing,
            Ok::<EngineChoice, Seq<char>>(EngineChoice::Local("ggml-"@ + whisper_model + ".bin"@)),
        ),
        after_audio_saved(Ok(()), "cloud"@, whisper_model) == (
            RecordingState::Transcribing,
            Ok::<EngineChoice, Seq<char>>(EngineChoice::Cloud),
        ),
        engine != "local"@ && engine != "cloud"@ ==> after_audio_saved(
            Ok(()),
            engine,
            whisper_model,
        ) == (RecordingState::Ready, Err::<EngineChoice, Seq<char>>(
            "Unknown engine: "@ + engine,
        )),
        after_audio_saved(Err(save_error), engine, whisper_model) == (
            RecordingState::Ready,
            Err::<EngineChoice, Seq<char>>("Audio capture error: "@ + save_error),
        ),
{
    reveal_strlit("local");
    reveal_strlit("cloud");
    assert("cloud"@ != "local"@) by {
        assert("cloud"@[0] != "local"@[0]);
    }
}

/// The engine's answer is passed on unchanged: its text goes on to clean-up
/// (still transcribing), its error ends the run (ready).
pub proof fn lemma_answer_passed_on(answer: Result<Seq<char>, Seq<char>>)
    ensures
        after_transcription(answer).1 == answer,
        answer is Ok ==> after_transcription(answer).0 == RecordingState::Transcribing,
        answer is Err ==> after_transcription(answer).0 == RecordingState::Ready,
{
}

/// A successful paste returns exactly the pasted text; a failed one reports
/// the paste error. Either way the recorder is ready again.
pub proof fn lemma_paste_outcome(cleaned: Seq<char>, paste_error: Seq<char>)
    ensures
        after_paste(cleaned, Ok(())) == (
            RecordingState::Ready,
            Ok::<Seq<char>, Seq<char>>(cleaned),
        ),
        after_paste(cleaned, Err(paste_error)) == (
            RecordingState::Ready,
            Err::<Seq<char>, Seq<char>>("Paste failed: "@ + paste_error),
        ),
{
}


/// What refused or failed starts and stops report: a busy recorder refuses
/// to start, a failed microphone is reported with its error (and the
/// recorder stays ready), and a recorder that is not recording refuses to
/// stop.
pub proof fn lemma_start_stop_messages(s: RecordingState, mic_error: Seq<char>)
    ensures
        s != RecordingState::Ready ==> start_refusal(s) == Err::<(), Seq<char>>(
            "Already recording or transcribing"@,
        ),
        after_microphone(Err(mic_error)) == (
            RecordingState::Ready,
            Err::<(), Seq<char>>("Microphone error: "@ + mic_error),
        ),
        after_microphone(Ok(())) == (RecordingState::Recording, Ok::<(), Seq<char>>(())),
        s != RecordingState::Recording ==> after_stop_request(s) == (
            s,
            Err::<(), Seq<char>>("Not currently recording"@),
        ),
{
}

} // verus!
