//! The engine session: what to tell the engine for each request, and what to
//! answer the caller once the engine has replied.
//!
//! The session never touches the engine. For each operation it hands out
//! what has to be done, as events to emit and commands to carry out, and it
//! turns the engine's reply into the operation's answer. Whoever owns the
//! engine carries the commands out in order, one caller at a time.
use crate::error::{Error, ErrorView};
use crate::events::{EngineSignal, SpeechEvent, SpeechEventType};
use crate::models::{
    voice_views, GetVoicesRequest, GetVoicesResponse, IsSpeakingResponse, Milli,
    PauseResumeResponse, PauseResumeResponseView, PreviewVoiceRequest, PreviewVoiceRequestView,
    QueueMode, SpeakRequest, SpeakRequestView, SpeakResponse, SpeakResponseView, StopResponse,
    Voice, VoiceView, DEFAULT_PITCH, DEFAULT_RATE, DEFAULT_VOLUME,
};
use crate::rate::{normalize, normalized, RateBounds};
use crate::validator::{
    first_violation, is_valid, preview_as_speak, validate, validate_preview,
    with_clamped_factors, ValidatedSpeakRequest,
};
use crate::voices::{
    filter_voices, first_with_id, matching_voices, resolve_voice, VoiceCache, VoiceCacheView,
};
use vstd::prelude::*;

verus! {

/// Why a pause is refused by an engine that cannot pause.
pub const PAUSE_UNSUPPORTED: &'static str = "Pause is not supported on desktop platform";

/// Why a resume is refused by an engine that cannot pause.
pub const RESUME_UNSUPPORTED: &'static str = "Resume is not supported on desktop platform";

/// What an engine can do beyond speaking. It is asked once, when the session
/// is made.
#[derive(Debug, Clone, Copy, PartialEq, Eq, Structural)]
pub struct EngineCapabilities {
    /// The engine reports when an utterance ends or is stopped.
    pub utterance_callbacks: bool,
    /// The engine can pause speech and take it up again.
    pub pause_resume: bool,
}

impl EngineCapabilities {
    /// Turns what the engine reports of its own accord into the event to
    /// emit. An engine that does not report on its utterances gives rise to
    /// no event. This needs no session, so that a report never waits for a
    /// request that holds the session or the engine.
    pub fn on_signal(&self, signal: EngineSignal, id: Option<u64>) -> (event: Option<SpeechEvent>)
        ensures
            event == if self.utterance_callbacks {
                Some(SpeechEvent { id, event_type: signal.event_type() })
            } else {
                None
            },
    {
        if self.utterance_callbacks {
            match signal {
                EngineSignal::UtteranceEnd => Some(SpeechEvent::finish(id)),
                EngineSignal::UtteranceStop => Some(SpeechEvent::cancel(id)),
            }
        } else {
            None
        }
    }
}

/// One call to the engine.
#[derive(Debug, Clone, PartialEq, Eq)]
pub enum EngineCommand {
    /// Speak with the voice at this position of the list that the engine gave.
    SelectVoice { index: usize },
    /// Speak at this rate, in thousandths of the engine's unit.
    SetRate { native: i64 },
    /// Speak at this pitch, in thousandths of normal pitch.
    SetPitch { pitch: Milli },
    /// Speak at this volume, in thousandths of full volume.
    SetVolume { volume: Milli },
    /// Speak the text, cutting off what is being spoken where `interrupt` is set.
    Speak { text: String, interrupt: bool },
    /// Stop speaking.
    Stop,
    /// Hold speech until it is resumed.
    Pause,
    /// Take up paused speech.
    Resume,
}

/// An [`EngineCommand`] as contracts see it.
pub enum EngineCommandView {
    SelectVoice { index: int },
    SetRate { native: int },
    SetPitch { pitch: int },
    SetVolume { volume: int },
    Speak { text: Seq<char>, interrupt: bool },
    Stop,
    Pause,
    Resume,
}

impl View for EngineCommand {
    type V = EngineCommandView;

    open spec fn view(&self) -> EngineCommandView {
        match self {
            EngineCommand::SelectVoice { index } => EngineCommandView::SelectVoice {
                index: *index as int,
            },
            EngineCommand::SetRate { native } => EngineCommandView::SetRate {
                native: *native as int,
            },
            EngineCommand::SetPitch { pitch } => EngineCommandView::SetPitch {
                pitch: *pitch as int,
            },
            EngineCommand::SetVolume { volume } => EngineCommandView::SetVolume {
                volume: *volume as int,
            },
            EngineCommand::Speak { text, interrupt } => EngineCommandView::Speak {
                text: text@,
                interrupt: *interrupt,
            },
            EngineCommand::Stop => EngineCommandView::Stop,
            EngineCommand::Pause => EngineCommandView::Pause,
            EngineCommand::Resume => EngineCommandView::Resume,
        }
    }
}

impl EngineCommandView {
    /// The command sets rate, pitch or volume.
    pub open spec fn sets_factor(self) -> bool {
        self is SetRate || self is SetPitch || self is SetVolume
    }

    /// The command states a preference, a voice or a factor. Its failure
    /// does not keep the utterance from being spoken.
    pub open spec fn is_best_effort(self) -> bool {
        self is SelectVoice || self.sets_factor()
    }
}

impl EngineCommand {
    /// Whether the command only states a preference, so that the engine's
    /// refusal of it is passed over.
    pub fn is_best_effort(&self) -> (best_effort: bool)
        ensures
            best_effort == self@.is_best_effort(),
    {
        match self {
            EngineCommand::SelectVoice { .. } => true,
            EngineCommand::SetRate { .. } => true,
            EngineCommand::SetPitch { .. } => true,
            EngineCommand::SetVolume { .. } => true,
            _ => false,
        }
    }
}

/// The views of a list of commands, in the list's order.
pub open spec fn command_views(commands: Seq<EngineCommand>) -> Seq<EngineCommandView> {
    Seq::new(commands.len(), |i: int| commands[i]@)
}

/// Rate, pitch and volume all stand at their defaults.
pub open spec fn at_defaults(request: SpeakRequestView) -> bool {
    request.rate == DEFAULT_RATE && request.pitch == DEFAULT_PITCH && request.volume
        == DEFAULT_VOLUME
}

/// The command that selects the voice asked for: none where no voice is
/// asked for or the engine has none with that identifier.
pub open spec fn voice_commands(request: SpeakRequestView, voices: Seq<VoiceView>) -> Seq<
    EngineCommandView,
> {
    match request.voice_id {
        Some(id) => match first_with_id(voices, id) {
            Some(index) => seq![EngineCommandView::SelectVoice { index }],
            None => seq![],
        },
        None => seq![],
    }
}

/// The commands that set rate, pitch and volume. There are none where all
/// three stand at their defaults: an engine is never told to take up the
/// values it already has.
pub open spec fn factor_commands(request: SpeakRequestView, bounds: RateBounds) -> Seq<
    EngineCommandView,
> {
    if at_defaults(request) {
        seq![]
    } else {
        seq![
            EngineCommandView::SetRate { native: normalized(bounds, request.rate) },
            EngineCommandView::SetPitch { pitch: request.pitch },
            EngineCommandView::SetVolume { volume: request.volume },
        ]
    }
}

/// Whether an utterance cuts off what is being spoken: it does unless it
/// asks to be queued.
pub open spec fn interrupts(mode: QueueMode) -> bool {
    mode != QueueMode::Add
}

/// The calls that speak a request, in order: the voice, the factors, then
/// the text.
pub open spec fn speak_commands(
    request: SpeakRequestView,
    bounds: RateBounds,
    voices: Seq<VoiceView>,
) -> Seq<EngineCommandView> {
    voice_commands(request, voices) + factor_commands(request, bounds) + seq![
        EngineCommandView::Speak { text: request.text, interrupt: interrupts(request.queue_mode) },
    ]
}

/// The identifier that follows `id`. After the last one the count starts
/// over.
pub open spec fn following(id: u64) -> u64 {
    if id == u64::MAX {
        0
    } else {
        (id + 1) as u64
    }
}

/// An accepted speak request on its way to the engine.
#[derive(Debug)]
pub struct SpeakPlan {
    utterance: u64,
    request: ValidatedSpeakRequest,
    rate_bounds: RateBounds,
}

/// A [`SpeakPlan`] as contracts see it.
pub struct SpeakPlanView {
    /// The identifier given to the utterance.
    pub utterance: u64,
    /// The request as validated.
    pub request: SpeakRequestView,
    /// The rates of the engine that is to speak.
    pub rate_bounds: RateBounds,
}

impl View for SpeakPlan {
    type V = SpeakPlanView;

    closed spec fn view(&self) -> SpeakPlanView {
        SpeakPlanView {
            utterance: self.utterance,
            request: self.request@,
            rate_bounds: self.rate_bounds,
        }
    }
}

impl SpeakPlan {
    /// The identifier given to the utterance.
    pub fn utterance(&self) -> (id: u64)
        ensures
            id == self@.utterance,
    {
        self.utterance
    }

    /// The request as validated.
    pub fn request(&self) -> (request: &ValidatedSpeakRequest)
        ensures
            request@ == self@.request,
    {
        &self.request
    }

    /// The event to emit before the engine is reserved, so that a queued
    /// utterance does not hold it up.
    pub fn start_event(&self) -> (event: SpeechEvent)
        ensures
            event == (SpeechEvent {
                id: Some(self@.utterance),
                event_type: SpeechEventType::Start,
            }),
    {
        SpeechEvent::start(self.utterance)
    }

    /// Whether the request names a voice, so that the engine's voices have
    /// to be listed before the commands can be made.
    pub fn wants_voice(&self) -> (wanted: bool)
        ensures
            wanted == self@.request.voice_id is Some,
    {
        self.request.voice_id().is_some()
    }

    /// The calls to make, in order, given the voices that the engine lists.
    /// Where no voice is asked for, or the list could not be had, any list
    /// will do, the empty one too.
    pub fn into_commands(self, voices: &Vec<Voice>) -> (commands: Vec<EngineCommand>)
        ensures
            command_views(commands@) == speak_commands(
                self@.request,
                self@.rate_bounds,
                voice_views(voices@),
            ),
    {
        let SpeakPlan { utterance: _, request, rate_bounds } = self;
        let rate = request.rate();
        let pitch = request.pitch();
        let volume = request.volume();
        let interrupt = match request.queue_mode() {
            QueueMode::Add => false,
            QueueMode::Flush => true,
        };
        let ghost wanted = request@;
        let (text, voice_id) = request.into_text_and_voice();
        let mut commands: Vec<EngineCommand> = Vec::new();
        match voice_id {
            Some(id) => {
                match resolve_voice(voices, id.as_str()) {
                    Some(index) => {
                        commands.push(EngineCommand::SelectVoice { index });
                    },
                    None => {},
                }
            },
            None => {},
        }
        assert(command_views(commands@) =~= voice_commands(wanted, voice_views(voices@)));
        if !(rate == DEFAULT_RATE && pitch == DEFAULT_PITCH && volume == DEFAULT_VOLUME) {
            commands.push(EngineCommand::SetRate { native: normalize(rate_bounds, rate) });
            commands.push(EngineCommand::SetPitch { pitch });
            commands.push(EngineCommand::SetVolume { volume });
        }
        assert(command_views(commands@) =~= voice_commands(wanted, voice_views(voices@))
            + factor_commands(wanted, rate_bounds));
        commands.push(EngineCommand::Speak { text, interrupt });
        assert(command_views(commands@) =~= speak_commands(
            wanted,
            rate_bounds,
            voice_views(voices@),
        ));
        commands
    }
}

/// What a stop request sets off.
#[derive(Debug, Clone, PartialEq, Eq)]
pub struct StopPlan {
    /// The event to emit first, whether or not the engine reports the stop
    /// itself.
    pub event: SpeechEvent,
    /// The call to make after that.
    pub command: EngineCommand,
}

/// The session with one engine: what the engine can do, its rates, the
/// voices it listed last, and the count of utterances.
pub struct Tts {
    capabilities: EngineCapabilities,
    rate_bounds: RateBounds,
    voices: VoiceCache,
    next_utterance: u64,
}

/// A [`Tts`] session as contracts see it.
pub struct TtsView {
    pub capabilities: EngineCapabilities,
    pub rate_bounds: RateBounds,
    pub voices: VoiceCacheView,
    /// The identifier that the next accepted speak request gets.
    pub next_utterance: u64,
}

impl View for Tts {
    type V = TtsView;

    closed spec fn view(&self) -> TtsView {
        TtsView {
            capabilities: self.capabilities,
            rate_bounds: self.rate_bounds,
            voices: self.voices@,
            next_utterance: self.next_utterance,
        }
    }
}

/// Makes the session for an engine with the given capabilities and rates. It
/// has listed no voices and spoken nothing yet.
pub fn init(capabilities: EngineCapabilities, rate_bounds: RateBounds) -> (session: Tts)
    ensures
        session@ == (TtsView {
            capabilities,
            rate_bounds,
            voices: VoiceCacheView::empty(),
            next_utterance: 0,
        }),
{
    Tts { capabilities, rate_bounds, voices: VoiceCache::new(), next_utterance: 0 }
}

impl Tts {
    /// What the engine can do.
    pub fn capabilities(&self) -> (capabilities: EngineCapabilities)
        ensures
            capabilities == self@.capabilities,
    {
        self.capabilities
    }

    /// The engine's rates.
    pub fn rate_bounds(&self) -> (bounds: RateBounds)
        ensures
            bounds == self@.rate_bounds,
    {
        self.rate_bounds
    }

    fn plan(&mut self, request: ValidatedSpeakRequest) -> (plan: SpeakPlan)
        ensures
            plan@ == (SpeakPlanView {
                utterance: old(self)@.next_utterance,
                request: request@,
                rate_bounds: old(self)@.rate_bounds,
            }),
            final(self)@ == (TtsView {
                next_utterance: following(old(self)@.next_utterance),
                ..old(self)@
            }),
    {
        let utterance = self.next_utterance;
        self.next_utterance = if utterance == u64::MAX {
            0
        } else {
            utterance + 1
        };
        SpeakPlan { utterance, request, rate_bounds: self.rate_bounds }
    }

    /// Takes up a speak request. A request that breaks a rule is refused
    /// with that rule and leaves the session as it was. An accepted request
    /// gets the next utterance identifier, and the plan holds it with its
    /// factors clamped.
    pub fn speak(&mut self, payload: SpeakRequest) -> (result: Result<SpeakPlan, Error>)
        ensures
            match result {
                Ok(plan) => {
                    &&& first_violation(payload@) is None
                    &&& plan@ == (SpeakPlanView {
                        utterance: old(self)@.next_utterance,
                        request: with_clamped_factors(payload@),
                        rate_bounds: old(self)@.rate_bounds,
                    })
                    &&& is_valid(plan@.request)
                    &&& final(self)@ == (TtsView {
                        next_utterance: following(old(self)@.next_utterance),
                        ..old(self)@
                    })
                },
                Err(error) => {
                    &&& first_violation(payload@) is Some
                    &&& error@ == ErrorView::Validation(first_violation(payload@)->0)
                    &&& final(self)@ == old(self)@
                },
            },
    {
        match validate(payload) {
            Ok(request) => Ok(self.plan(request)),
            Err(error) => Err(Error::Validation(error)),
        }
    }

    /// Takes up a voice preview: a speak request for the sample text in the
    /// voice asked for, at the default rate, pitch and volume, that cuts off
    /// what is being spoken. It is refused and accepted as that speak
    /// request would be.
    pub fn preview_voice(&mut self, payload: PreviewVoiceRequest) -> (result: Result<
        SpeakPlan,
        Error,
    >)
        ensures
            match result {
                Ok(plan) => {
                    &&& first_violation(preview_as_speak(payload@)) is None
                    &&& plan@ == (SpeakPlanView {
                        utterance: old(self)@.next_utterance,
                        request: preview_as_speak(payload@),
                        rate_bounds: old(self)@.rate_bounds,
                    })
                    &&& is_valid(plan@.request)
                    &&& final(self)@ == (TtsView {
                        next_utterance: following(old(self)@.next_utterance),
                        ..old(self)@
                    })
                },
                Err(error) => {
                    &&& first_violation(preview_as_speak(payload@)) is Some
                    &&& error@ == ErrorView::Validation(
                        first_violation(preview_as_speak(payload@))->0,
                    )
                    &&& final(self)@ == old(self)@
                },
            },
    {
        match validate_preview(payload) {
            Ok(request) => Ok(self.plan(request)),
            Err(error) => Err(Error::Validation(error)),
        }
    }

    /// What a stop request sets off: a cancel event, emitted in any case,
    /// and then the call that stops the engine.
    pub fn stop(&self) -> (plan: StopPlan)
        ensures
            plan.event == (SpeechEvent { id: None, event_type: SpeechEventType::Cancel }),
            plan.command@ == EngineCommandView::Stop,
    {
        StopPlan { event: SpeechEvent::cancel(None), command: EngineCommand::Stop }
    }

    /// Answers a query for voices from what the session holds. There is an
    /// answer where the voices were listed less than the time to live before
    /// `now`: the listed voices that pass the query's filter. Otherwise the
    /// engine has to list its voices, for [`Tts::store_voices`].
    pub fn get_voices(&self, payload: &GetVoicesRequest, now: u64) -> (answer: Option<
        GetVoicesResponse,
    >)
        ensures
            match answer {
                Some(response) => self@.voices.lookup(now, payload@.language) == Some(
                    response@.voices,
                ),
                None => self@.voices.lookup(now, payload@.language) is None,
            },
    {
        let filter: Option<&str> = match &payload.language {
            Some(language) => Some(language.as_str()),
            None => None,
        };
        match self.voices.lookup(now, filter) {
            Some(voices) => Some(GetVoicesResponse { voices }),
            None => None,
        }
    }

    /// Takes the voices that the engine listed at `now` in the place of
    /// those held before, and answers the query that made the engine list
    /// them.
    pub fn store_voices(
        &mut self,
        payload: &GetVoicesRequest,
        voices: Vec<Voice>,
        now: u64,
    ) -> (response: GetVoicesResponse)
        ensures
            final(self)@ == (TtsView {
                voices: VoiceCacheView::holding(voice_views(voices@), now),
                ..old(self)@
            }),
            response@.voices == matching_voices(voice_views(voices@), payload@.language),
    {
        let filter: Option<&str> = match &payload.language {
            Some(language) => Some(language.as_str()),
            None => None,
        };
        let kept = filter_voices(&voices, filter);
        self.voices.replace(voices, now);
        GetVoicesResponse { voices: kept }
    }

    /// Passes on the engine's word on whether it is speaking, or its failure
    /// to say.
    pub fn is_speaking(&self, engine_says: Result<bool, String>) -> (result: Result<
        IsSpeakingResponse,
        Error,
    >)
        ensures
            match engine_says {
                Ok(speaking) => result == Ok::<IsSpeakingResponse, Error>(
                    IsSpeakingResponse { speaking },
                ),
                Err(message) => result is Err && result->Err_0@ == ErrorView::Tts(message@),
            },
    {
        match engine_says {
            Ok(speaking) => Ok(IsSpeakingResponse { speaking }),
            Err(message) => Err(Error::Tts(message)),
        }
    }

    /// Decides a pause request. An engine that cannot pause gets no call:
    /// the answer says that nothing was paused, and why. For an engine that
    /// can, there is no answer yet: the engine is to be paused, and
    /// [`pause_resume_response`] makes the answer of its reply.
    pub fn pause_speaking(&self) -> (refusal: Option<PauseResumeResponse>)
        ensures
            self@.capabilities.pause_resume ==> refusal is None,
            !self@.capabilities.pause_resume ==> refusal is Some && refusal->0@ == (
            PauseResumeResponseView { success: false, reason: Some(PAUSE_UNSUPPORTED@) }),
            PAUSE_UNSUPPORTED@.len() > 0,
    {
        proof {
            reveal_strlit("Pause is not supported on desktop platform");
        }
        if self.capabilities.pause_resume {
            None
        } else {
            Some(PauseResumeResponse { success: false, reason: Some(PAUSE_UNSUPPORTED.to_owned()) })
        }
    }

    /// Decides a resume request, as [`Tts::pause_speaking`] decides a pause.
    pub fn resume_speaking(&self) -> (refusal: Option<PauseResumeResponse>)
        ensures
            self@.capabilities.pause_resume ==> refusal is None,
            !self@.capabilities.pause_resume ==> refusal is Some && refusal->0@ == (
            PauseResumeResponseView { success: false, reason: Some(RESUME_UNSUPPORTED@) }),
            RESUME_UNSUPPORTED@.len() > 0,
    {
        proof {
            reveal_strlit("Resume is not supported on desktop platform");
        }
        if self.capabilities.pause_resume {
            None
        } else {
            Some(
                PauseResumeResponse { success: false, reason: Some(RESUME_UNSUPPORTED.to_owned()) },
            )
        }
    }
}

/// The answer to a speak or preview request, given the engine's reply to the
/// call that speaks: success where the engine took the utterance, the
/// engine's error otherwise.
pub fn speak_response(engine_says: Result<(), String>) -> (result: Result<SpeakResponse, Error>)
    ensures
        match engine_says {
            Ok(_) => result is Ok && result->Ok_0@ == (SpeakResponseView {
                success: true,
                warning: None,
            }),
            Err(message) => result is Err && result->Err_0@ == ErrorView::Tts(message@),
        },
{
    match engine_says {
        Ok(_) => Ok(SpeakResponse { success: true, warning: None }),
        Err(message) => Err(Error::Tts(message)),
    }
}

/// The answer to a stop request, given the engine's reply.
pub fn stop_response(engine_says: Result<(), String>) -> (result: Result<StopResponse, Error>)
    ensures
        match engine_says {
            Ok(_) => result == Ok::<StopResponse, Error>(StopResponse { success: true }),
            Err(message) => result is Err && result->Err_0@ == ErrorView::Tts(message@),
        },
{
    match engine_says {
        Ok(_) => Ok(StopResponse { success: true }),
        Err(message) => Err(Error::Tts(message)),
    }
}

/// The answer to a pause or resume request that went to the engine, given
/// the engine's reply.
pub fn pause_resume_response(engine_says: Result<(), String>) -> (result: Result<
    PauseResumeResponse,
    Error,
>)
    ensures
        match engine_says {
            Ok(_) => result is Ok && result->Ok_0@ == (PauseResumeResponseView {
                success: true,
                reason: None,
            }),
            Err(message) => result is Err && result->Err_0@ == ErrorView::Tts(message@),
        },
{
    match engine_says {
        Ok(_) => Ok(PauseResumeResponse { success: true, reason: None }),
        Err(message) => Err(Error::Tts(message)),
    }
}

/// A request with rate, pitch and volume all at their defaults is spoken
/// without a single call that sets rate, pitch or volume.
pub proof fn lemma_defaults_set_no_factor(
    request: SpeakRequestView,
    bounds: RateBounds,
    voices: Seq<VoiceView>,
)
    requires
        at_defaults(request),
    ensures
        forall|i: int|
            0 <= i < speak_commands(request, bounds, voices).len() ==> !(#[trigger] speak_commands(
                request,
                bounds,
                voices,
            )[i]).sets_factor(),
{
}

/// The call that speaks comes last and carries the request's text; it cuts
/// off current speech unless the request asks to be queued. Every call
/// before it is one whose failure is passed over.
pub proof fn lemma_speak_comes_last(
    request: SpeakRequestView,
    bounds: RateBounds,
    voices: Seq<VoiceView>,
)
    ensures
        speak_commands(request, bounds, voices).len() >= 1,
        speak_commands(request, bounds, voices).last() == (EngineCommandView::Speak {
            text: request.text,
            interrupt: request.queue_mode != QueueMode::Add,
        }),
        forall|i: int|
            0 <= i < speak_commands(request, bounds, voices).len() - 1 ==> (
            #[trigger] speak_commands(request, bounds, voices)[i]).is_best_effort(),
{
}

/// A request away from the defaults has its rate set to the normalized
/// rate, and its pitch and volume set as asked, in this order and just
/// before the call that speaks.
pub proof fn lemma_factors_are_set_before_speaking(
    request: SpeakRequestView,
    bounds: RateBounds,
    voices: Seq<VoiceView>,
)
    requires
        !at_defaults(request),
    ensures
        ({
            let commands = speak_commands(request, bounds, voices);
            let n = commands.len();
            &&& n >= 4
            &&& commands[n - 4] == (EngineCommandView::SetRate {
                native: normalized(bounds, request.rate),
            })
            &&& commands[n - 3] == (EngineCommandView::SetPitch { pitch: request.pitch })
            &&& commands[n - 2] == (EngineCommandView::SetVolume { volume: request.volume })
        }),
{
}

/// A voice preview always cuts off what is being spoken and never sets
/// rate, pitch or volume.
pub proof fn lemma_preview_interrupts_at_defaults(
    preview: PreviewVoiceRequestView,
    bounds: RateBounds,
    voices: Seq<VoiceView>,
)
    ensures
        at_defaults(preview_as_speak(preview)),
        speak_commands(preview_as_speak(preview), bounds, voices).last() == (
        EngineCommandView::Speak { text: preview.sample_text(), interrupt: true }),
{
}

/// Two utterances in a row never share an identifier.
pub proof fn lemma_following_differs(id: u64)
    ensures
        following(id) != id,
{
}

} // verus!
