//! Request and response shapes of the speech control surface.
//!
//! Rate, pitch and volume are fixed-point numbers counted in thousandths, so
//! `1000` stands for the factor `1.0`. Every type that owns text has a view
//! that gives the text as a sequence of characters; contracts are stated over
//! those views.
use vstd::prelude::*;

verus! {

/// A scale factor in thousandths: `1000` is `1.0`, `250` is a quarter.
pub type Milli = i64;

/// The rate at which an engine speaks when the caller asks for nothing else.
pub const DEFAULT_RATE: Milli = 1000;

/// The pitch at which an engine speaks when the caller asks for nothing else.
pub const DEFAULT_PITCH: Milli = 1000;

/// The volume at which an engine speaks when the caller asks for nothing else.
pub const DEFAULT_VOLUME: Milli = 1000;

/// The sentence spoken by a voice preview that brings no text of its own.
pub const DEFAULT_SAMPLE_TEXT: &'static str = "Hello! This is a sample of how this voice sounds.";

/// What happens to speech that is already under way when a new request arrives.
#[derive(Debug, Clone, Copy, PartialEq, Eq, Structural)]
pub enum QueueMode {
    /// Drop pending speech and start at once.
    Flush,
    /// Speak after what is already queued.
    Add,
}

impl Default for QueueMode {
    fn default() -> (mode: Self)
        ensures
            mode == QueueMode::Flush,
    {
        QueueMode::Flush
    }
}

/// A request to speak a text.
#[derive(Debug, Clone, PartialEq)]
pub struct SpeakRequest {
    /// The text to speak.
    pub text: String,
    /// Locale of the text, such as `en-US`.
    pub language: Option<String>,
    /// Identifier of the voice to speak with, as listed by the engine.
    pub voice_id: Option<String>,
    /// Speed in thousandths of the engine's normal speed.
    pub rate: Milli,
    /// Pitch in thousandths of the normal pitch.
    pub pitch: Milli,
    /// Volume in thousandths of full volume.
    pub volume: Milli,
    /// Whether to interrupt or to queue.
    pub queue_mode: QueueMode,
}

/// A [`SpeakRequest`] as contracts see it.
pub struct SpeakRequestView {
    pub text: Seq<char>,
    pub language: Option<Seq<char>>,
    pub voice_id: Option<Seq<char>>,
    pub rate: int,
    pub pitch: int,
    pub volume: int,
    pub queue_mode: QueueMode,
}

impl View for SpeakRequest {
    type V = SpeakRequestView;

    open spec fn view(&self) -> SpeakRequestView {
        SpeakRequestView {
            text: self.text@,
            language: self.language.deep_view(),
            voice_id: self.voice_id.deep_view(),
            rate: self.rate as int,
            pitch: self.pitch as int,
            volume: self.volume as int,
            queue_mode: self.queue_mode,
        }
    }
}

impl SpeakRequest {
    /// A request for `text` with no language, no voice, every factor at its
    /// default and the queue flushed.
    pub fn new(text: String) -> (request: Self)
        ensures
            request@ == (SpeakRequestView {
                text: text@,
                language: None,
                voice_id: None,
                rate: DEFAULT_RATE as int,
                pitch: DEFAULT_PITCH as int,
                volume: DEFAULT_VOLUME as int,
                queue_mode: QueueMode::Flush,
            }),
    {
        SpeakRequest {
            text,
            language: None,
            voice_id: None,
            rate: DEFAULT_RATE,
            pitch: DEFAULT_PITCH,
            volume: DEFAULT_VOLUME,
            queue_mode: QueueMode::Flush,
        }
    }
}

/// The answer to a speak or preview request.
#[derive(Debug, Clone, PartialEq)]
pub struct SpeakResponse {
    /// Whether the engine took the utterance.
    pub success: bool,
    /// A remark for the caller, such as a voice that was not found.
    pub warning: Option<String>,
}

/// A [`SpeakResponse`] as contracts see it.
pub struct SpeakResponseView {
    pub success: bool,
    pub warning: Option<Seq<char>>,
}

impl View for SpeakResponse {
    type V = SpeakResponseView;

    open spec fn view(&self) -> SpeakResponseView {
        SpeakResponseView { success: self.success, warning: self.warning.deep_view() }
    }
}

impl Default for SpeakResponse {
    fn default() -> (response: Self)
        ensures
            response@ == (SpeakResponseView { success: false, warning: None }),
    {
        SpeakResponse { success: false, warning: None }
    }
}

/// A request to stop speaking. It carries nothing.
#[derive(Debug, Clone, Copy, PartialEq, Eq, Structural)]
pub struct StopRequest {}

/// The answer to a stop request.
#[derive(Debug, Clone, Copy, PartialEq, Eq, Structural)]
pub struct StopResponse {
    pub success: bool,
}

impl Default for StopResponse {
    fn default() -> (response: Self)
        ensures
            response == (StopResponse { success: false }),
    {
        StopResponse { success: false }
    }
}

/// A voice that the engine offers.
#[derive(Debug, PartialEq, Eq)]
pub struct Voice {
    /// The engine's own identifier of the voice.
    pub id: String,
    /// The name to show to people.
    pub name: String,
    /// Locale tag of the voice, such as `en-US`.
    pub language: String,
}

/// A [`Voice`] as contracts see it.
pub struct VoiceView {
    pub id: Seq<char>,
    pub name: Seq<char>,
    pub language: Seq<char>,
}

impl View for Voice {
    type V = VoiceView;

    open spec fn view(&self) -> VoiceView {
        VoiceView { id: self.id@, name: self.name@, language: self.language@ }
    }
}

impl Clone for Voice {
    fn clone(&self) -> (copy: Self)
        ensures
            copy@ == self@,
    {
        Voice { id: self.id.clone(), name: self.name.clone(), language: self.language.clone() }
    }
}

/// The views of a list of voices, in the list's order.
pub open spec fn voice_views(voices: Seq<Voice>) -> Seq<VoiceView> {
    Seq::new(voices.len(), |i: int| voices[i]@)
}

/// A request for the voices that the engine offers.
#[derive(Debug, Clone, PartialEq)]
pub struct GetVoicesRequest {
    /// Keep only voices whose locale contains this text, whatever its case.
    pub language: Option<String>,
}

/// A [`GetVoicesRequest`] as contracts see it.
pub struct GetVoicesRequestView {
    pub language: Option<Seq<char>>,
}

impl View for GetVoicesRequest {
    type V = GetVoicesRequestView;

    open spec fn view(&self) -> GetVoicesRequestView {
        GetVoicesRequestView { language: self.language.deep_view() }
    }
}

/// The voices that answer a [`GetVoicesRequest`].
#[derive(Debug, Clone, PartialEq)]
pub struct GetVoicesResponse {
    pub voices: Vec<Voice>,
}

/// A [`GetVoicesResponse`] as contracts see it.
pub struct GetVoicesResponseView {
    pub voices: Seq<VoiceView>,
}

impl View for GetVoicesResponse {
    type V = GetVoicesResponseView;

    open spec fn view(&self) -> GetVoicesResponseView {
        GetVoicesResponseView { voices: voice_views(self.voices@) }
    }
}

impl Default for GetVoicesResponse {
    fn default() -> (response: Self)
        ensures
            response@.voices.len() == 0,
    {
        GetVoicesResponse { voices: Vec::new() }
    }
}

/// A request to learn whether the engine is speaking. It carries nothing.
#[derive(Debug, Clone, Copy, PartialEq, Eq, Structural)]
pub struct IsSpeakingRequest {}

/// Whether the engine is speaking.
#[derive(Debug, Clone, Copy, PartialEq, Eq, Structural)]
pub struct IsSpeakingResponse {
    pub speaking: bool,
}

impl Default for IsSpeakingResponse {
    fn default() -> (response: Self)
        ensures
            response == (IsSpeakingResponse { speaking: false }),
    {
        IsSpeakingResponse { speaking: false }
    }
}

/// The answer to a pause or resume request.
#[derive(Debug, Clone, PartialEq)]
pub struct PauseResumeResponse {
    /// Whether speech was paused or resumed.
    pub success: bool,
    /// Why it was not, where `success` is false.
    pub reason: Option<String>,
}

/// A [`PauseResumeResponse`] as contracts see it.
pub struct PauseResumeResponseView {
    pub success: bool,
    pub reason: Option<Seq<char>>,
}

impl View for PauseResumeResponse {
    type V = PauseResumeResponseView;

    open spec fn view(&self) -> PauseResumeResponseView {
        PauseResumeResponseView { success: self.success, reason: self.reason.deep_view() }
    }
}

impl Default for PauseResumeResponse {
    fn default() -> (response: Self)
        ensures
            response@ == (PauseResumeResponseView { success: false, reason: None }),
    {
        PauseResumeResponse { success: false, reason: None }
    }
}

/// A request to hear a voice speak a sample.
#[derive(Debug, Clone, PartialEq)]
pub struct PreviewVoiceRequest {
    /// The voice to hear.
    pub voice_id: String,
    /// The sample to speak; the default sample where absent.
    pub text: Option<String>,
}

/// A [`PreviewVoiceRequest`] as contracts see it.
pub struct PreviewVoiceRequestView {
    pub voice_id: Seq<char>,
    pub text: Option<Seq<char>>,
}

impl PreviewVoiceRequestView {
    /// The text that the preview speaks: its own, or the default sample.
    pub open spec fn sample_text(self) -> Seq<char> {
        match self.text {
            Some(text) => text,
            None => DEFAULT_SAMPLE_TEXT@,
        }
    }
}

impl View for PreviewVoiceRequest {
    type V = PreviewVoiceRequestView;

    open spec fn view(&self) -> PreviewVoiceRequestView {
        PreviewVoiceRequestView { voice_id: self.voice_id@, text: self.text.deep_view() }
    }
}

impl PreviewVoiceRequest {
    /// The text that the preview speaks: its own, or the default sample.
    pub fn sample_text(&self) -> (text: &str)
        ensures
            text@ == self@.sample_text(),
    {
        match &self.text {
            Some(text) => text.as_str(),
            None => DEFAULT_SAMPLE_TEXT,
        }
    }
}

} // verus!
