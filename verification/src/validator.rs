//! Checks a request before it may reach the engine: text and identifiers are
//! accepted or refused, scale factors are clamped into their ranges.
use crate::error::ValidationError;
use crate::models::{
    Milli, PreviewVoiceRequest, PreviewVoiceRequestView, QueueMode, SpeakRequest, SpeakRequestView,
    DEFAULT_PITCH, DEFAULT_RATE, DEFAULT_SAMPLE_TEXT, DEFAULT_VOLUME,
};
use vstd::prelude::*;
use vstd::utf8::encode_utf8;

verus! {

/// The most bytes that a text to speak may take in UTF-8.
pub const MAX_TEXT_LENGTH: usize = 10000;

/// The most characters that a voice identifier may have.
pub const MAX_VOICE_ID_LENGTH: usize = 256;

/// The most characters that a language tag may have.
pub const MAX_LANGUAGE_LENGTH: usize = 35;

/// The slowest rate that a request may ask for.
pub const MIN_RATE: Milli = 100;

/// The fastest rate that a request may ask for.
pub const MAX_RATE: Milli = 4000;

/// The lowest pitch that a request may ask for.
pub const MIN_PITCH: Milli = 500;

/// The highest pitch that a request may ask for.
pub const MAX_PITCH: Milli = 2000;

/// The lowest volume that a request may ask for.
pub const MIN_VOLUME: Milli = 0;

/// The highest volume that a request may ask for.
pub const MAX_VOLUME: Milli = 1000;

/// The characters of a voice identifier: ASCII letters and digits, full
/// stop, underscore and hyphen.
pub open spec fn allowed_in_voice_id(c: char) -> bool {
    ||| 'A' <= c <= 'Z'
    ||| 'a' <= c <= 'z'
    ||| '0' <= c <= '9'
    ||| c == '.'
    ||| c == '_'
    ||| c == '-'
}

/// What is wrong with a text to speak, if anything: emptiness first, then
/// length in bytes.
pub open spec fn text_violation(text: Seq<char>) -> Option<ValidationError> {
    if text.len() == 0 {
        Some(ValidationError::EmptyText)
    } else if encode_utf8(text).len() > MAX_TEXT_LENGTH {
        Some(
            ValidationError::TextTooLong {
                len: encode_utf8(text).len() as usize,
                max: MAX_TEXT_LENGTH,
            },
        )
    } else {
        None
    }
}

/// What is wrong with a voice identifier, if anything: length first, then
/// the characters.
pub open spec fn voice_id_violation(voice_id: Seq<char>) -> Option<ValidationError> {
    if voice_id.len() > MAX_VOICE_ID_LENGTH {
        Some(ValidationError::VoiceIdTooLong)
    } else if exists|i: int| 0 <= i < voice_id.len() && !allowed_in_voice_id(voice_id[i]) {
        Some(ValidationError::InvalidVoiceId)
    } else {
        None
    }
}

/// What is wrong with a language tag, if anything.
pub open spec fn language_violation(language: Seq<char>) -> Option<ValidationError> {
    if language.len() > MAX_LANGUAGE_LENGTH {
        Some(ValidationError::LanguageTooLong)
    } else {
        None
    }
}

/// The first rule that a request breaks, if any. The text is judged first,
/// then the voice identifier where there is one, then the language tag where
/// there is one. Rate, pitch and volume never break a rule.
pub open spec fn first_violation(request: SpeakRequestView) -> Option<ValidationError> {
    if text_violation(request.text) is Some {
        text_violation(request.text)
    } else if request.voice_id is Some && voice_id_violation(request.voice_id->0) is Some {
        voice_id_violation(request.voice_id->0)
    } else if request.language is Some {
        language_violation(request.language->0)
    } else {
        None
    }
}

/// `value` moved to the nearest point of the range from `low` to `high`.
pub open spec fn clamped(value: int, low: int, high: int) -> int {
    if value < low {
        low
    } else if value > high {
        high
    } else {
        value
    }
}

/// A request with rate, pitch and volume clamped into their ranges and all
/// else unchanged.
pub open spec fn with_clamped_factors(request: SpeakRequestView) -> SpeakRequestView {
    SpeakRequestView {
        rate: clamped(request.rate, MIN_RATE as int, MAX_RATE as int),
        pitch: clamped(request.pitch, MIN_PITCH as int, MAX_PITCH as int),
        volume: clamped(request.volume, MIN_VOLUME as int, MAX_VOLUME as int),
        ..request
    }
}

/// A request that breaks no rule and whose factors lie in their ranges.
pub open spec fn is_valid(request: SpeakRequestView) -> bool {
    &&& first_violation(request) is None
    &&& MIN_RATE <= request.rate <= MAX_RATE
    &&& MIN_PITCH <= request.pitch <= MAX_PITCH
    &&& MIN_VOLUME <= request.volume <= MAX_VOLUME
}

/// The speak request that a voice preview stands for: the sample text in
/// the voice asked for, every factor at its default, pending speech flushed.
pub open spec fn preview_as_speak(request: PreviewVoiceRequestView) -> SpeakRequestView {
    SpeakRequestView {
        text: request.sample_text(),
        language: None,
        voice_id: Some(request.voice_id),
        rate: DEFAULT_RATE as int,
        pitch: DEFAULT_PITCH as int,
        volume: DEFAULT_VOLUME as int,
        queue_mode: QueueMode::Flush,
    }
}

/// A request that passed validation. It can only be made by [`validate`] and
/// [`validate_preview`], so every value of this type is valid.
#[derive(Debug)]
pub struct ValidatedSpeakRequest {
    text: String,
    language: Option<String>,
    voice_id: Option<String>,
    rate: Milli,
    pitch: Milli,
    volume: Milli,
    queue_mode: QueueMode,
}

impl View for ValidatedSpeakRequest {
    type V = SpeakRequestView;

    closed spec fn view(&self) -> SpeakRequestView {
        SpeakRequestView {
            text: self.text@,
            language: self.language.deep_view(),
            voice_id: self.voice_id.deep_view(),
            rate: self.rate as int,
            pitch: self.pitch as int,
            volume: self.volume as int,
            queue_mode: self.queue_mode,
        }
    }
}

impl ValidatedSpeakRequest {
    #[verifier::type_invariant]
    closed spec fn holds_valid_request(&self) -> bool {
        is_valid(self@)
    }

    /// The text to speak.
    pub fn text(&self) -> (text: &str)
        ensures
            text@ == self@.text,
            is_valid(self@),
    {
        proof {
            use_type_invariant(self);
        }
        self.text.as_str()
    }

    /// The language tag, where the request has one.
    pub fn language(&self) -> (language: Option<&str>)
        ensures
            language.deep_view() == self@.language,
            is_valid(self@),
    {
        proof {
            use_type_invariant(self);
        }
        match &self.language {
            Some(language) => Some(language.as_str()),
            None => None,
        }
    }

    /// The voice identifier, where the request has one.
    pub fn voice_id(&self) -> (voice_id: Option<&str>)
        ensures
            voice_id.deep_view() == self@.voice_id,
            is_valid(self@),
    {
        proof {
            use_type_invariant(self);
        }
        match &self.voice_id {
            Some(voice_id) => Some(voice_id.as_str()),
            None => None,
        }
    }

    /// The rate, within its range.
    pub fn rate(&self) -> (rate: Milli)
        ensures
            rate == self@.rate,
            MIN_RATE <= rate <= MAX_RATE,
            is_valid(self@),
    {
        proof {
            use_type_invariant(self);
        }
        self.rate
    }

    /// The pitch, within its range.
    pub fn pitch(&self) -> (pitch: Milli)
        ensures
            pitch == self@.pitch,
            MIN_PITCH <= pitch <= MAX_PITCH,
            is_valid(self@),
    {
        proof {
            use_type_invariant(self);
        }
        self.pitch
    }

    /// The volume, within its range.
    pub fn volume(&self) -> (volume: Milli)
        ensures
            volume == self@.volume,
            MIN_VOLUME <= volume <= MAX_VOLUME,
            is_valid(self@),
    {
        proof {
            use_type_invariant(self);
        }
        self.volume
    }

    /// Whether to interrupt or to queue.
    pub fn queue_mode(&self) -> (mode: QueueMode)
        ensures
            mode == self@.queue_mode,
            is_valid(self@),
    {
        proof {
            use_type_invariant(self);
        }
        self.queue_mode
    }

    /// Gives up the request's text and voice identifier to the one caller
    /// that speaks it.
    pub fn into_text_and_voice(self) -> (parts: (String, Option<String>))
        ensures
            parts.0@ == self@.text,
            parts.1.deep_view() == self@.voice_id,
            is_valid(self@),
    {
        proof {
            use_type_invariant(&self);
        }
        (self.text, self.voice_id)
    }
}

/// Whether `c` may stand in a voice identifier.
pub fn is_voice_id_char(c: char) -> (allowed: bool)
    ensures
        allowed == allowed_in_voice_id(c),
{
    ('A' <= c && c <= 'Z') || ('a' <= c && c <= 'z') || ('0' <= c && c <= '9') || c == '.' || c
        == '_' || c == '-'
}

/// `value` moved to the nearest point of the range from `low` to `high`.
pub fn clamp(value: Milli, low: Milli, high: Milli) -> (result: Milli)
    requires
        low <= high,
    ensures
        result == clamped(value as int, low as int, high as int),
        low <= result <= high,
{
    if value < low {
        low
    } else if value > high {
        high
    } else {
        value
    }
}

/// Judges a text to speak.
pub fn check_text(text: &str) -> (fault: Option<ValidationError>)
    ensures
        fault == text_violation(text@),
{
    if text.is_empty() {
        return Some(ValidationError::EmptyText);
    }
    let len: usize = text.as_bytes().len();
    if len > MAX_TEXT_LENGTH {
        Some(ValidationError::TextTooLong { len, max: MAX_TEXT_LENGTH })
    } else {
        None
    }
}

/// Judges a voice identifier.
pub fn check_voice_id(voice_id: &str) -> (fault: Option<ValidationError>)
    ensures
        fault == voice_id_violation(voice_id@),
{
    if voice_id.unicode_len() > MAX_VOICE_ID_LENGTH {
        return Some(ValidationError::VoiceIdTooLong);
    }
    let mut all_allowed = true;
    for c in it: voice_id.chars()
        invariant
            it.seq() == voice_id@,
            all_allowed == (forall|i: int| 0 <= i < it.index() ==> allowed_in_voice_id(voice_id@[i])),
    {
        if !is_voice_id_char(c) {
            all_allowed = false;
        }
    }
    if all_allowed {
        None
    } else {
        Some(ValidationError::InvalidVoiceId)
    }
}

/// Judges a language tag.
pub fn check_language(language: &str) -> (fault: Option<ValidationError>)
    ensures
        fault == language_violation(language@),
{
    if language.unicode_len() > MAX_LANGUAGE_LENGTH {
        Some(ValidationError::LanguageTooLong)
    } else {
        None
    }
}

/// Judges a request: the first rule it breaks, if any.
pub fn check_request(request: &SpeakRequest) -> (fault: Option<ValidationError>)
    ensures
        fault == first_violation(request@),
{
    let text_fault = check_text(request.text.as_str());
    if text_fault.is_some() {
        return text_fault;
    }
    match &request.voice_id {
        Some(voice_id) => {
            let voice_fault = check_voice_id(voice_id.as_str());
            if voice_fault.is_some() {
                return voice_fault;
            }
        },
        None => {},
    }
    match &request.language {
        Some(language) => check_language(language.as_str()),
        None => None,
    }
}

/// Validates a speak request. It is refused with the first rule it breaks;
/// otherwise it is accepted with rate, pitch and volume clamped into their
/// ranges and everything else as given.
pub fn validate(request: SpeakRequest) -> (result: Result<ValidatedSpeakRequest, ValidationError>)
    ensures
        match result {
            Ok(validated) => {
                &&& first_violation(request@) is None
                &&& validated@ == with_clamped_factors(request@)
                &&& is_valid(validated@)
            },
            Err(error) => first_violation(request@) == Some(error),
        },
{
    match check_request(&request) {
        Some(error) => Err(error),
        None => {
            let SpeakRequest { text, language, voice_id, rate, pitch, volume, queue_mode } = request;
            Ok(
                ValidatedSpeakRequest {
                    text,
                    language,
                    voice_id,
                    rate: clamp(rate, MIN_RATE, MAX_RATE),
                    pitch: clamp(pitch, MIN_PITCH, MAX_PITCH),
                    volume: clamp(volume, MIN_VOLUME, MAX_VOLUME),
                    queue_mode,
                },
            )
        },
    }
}

/// Validates a voice preview as the speak request that it stands for: the
/// voice identifier is judged as in a speak request, and so is the sample
/// text. The accepted request speaks at the default rate, pitch and volume
/// and flushes pending speech.
pub fn validate_preview(request: PreviewVoiceRequest) -> (result: Result<
    ValidatedSpeakRequest,
    ValidationError,
>)
    ensures
        match result {
            Ok(validated) => {
                &&& first_violation(preview_as_speak(request@)) is None
                &&& validated@ == preview_as_speak(request@)
                &&& is_valid(validated@)
            },
            Err(error) => first_violation(preview_as_speak(request@)) == Some(error),
        },
{
    let text: String = request.sample_text().to_owned();
    let speak = SpeakRequest {
        text,
        language: None,
        voice_id: Some(request.voice_id),
        rate: DEFAULT_RATE,
        pitch: DEFAULT_PITCH,
        volume: DEFAULT_VOLUME,
        queue_mode: QueueMode::Flush,
    };
    validate(speak)
}

/// A text takes at least one byte and at most four for each character.
pub proof fn lemma_utf8_length_bounds(text: Seq<char>)
    ensures
        text.len() <= encode_utf8(text).len() <= 4 * text.len(),
    decreases text.len(),
{
    if text.len() > 0 {
        lemma_utf8_length_bounds(text.drop_first());
    }
}

/// The default sample passes the rules for a text to speak.
pub proof fn lemma_default_sample_is_speakable()
    ensures
        text_violation(DEFAULT_SAMPLE_TEXT@) is None,
{
    reveal_strlit("Hello! This is a sample of how this voice sounds.");
    lemma_utf8_length_bounds(DEFAULT_SAMPLE_TEXT@);
}

/// The empty text is always refused as empty, whatever else the request
/// holds.
pub proof fn lemma_empty_text_is_refused(request: SpeakRequestView)
    requires
        request.text.len() == 0,
    ensures
        first_violation(request) == Some(ValidationError::EmptyText),
{
}

/// A text of more bytes than the limit is always refused as too long,
/// whatever else the request holds; one byte over the limit is enough.
pub proof fn lemma_overlong_text_is_refused(request: SpeakRequestView)
    requires
        encode_utf8(request.text).len() > MAX_TEXT_LENGTH,
    ensures
        first_violation(request) == Some(
            ValidationError::TextTooLong {
                len: encode_utf8(request.text).len() as usize,
                max: MAX_TEXT_LENGTH,
            },
        ),
{
    lemma_utf8_length_bounds(request.text);
}

/// A voice identifier with a character outside the allowed set is refused
/// as invalid, provided the text is in order and the identifier is not over
/// its length limit: those two rules are judged first.
pub proof fn lemma_bad_voice_id_is_refused(request: SpeakRequestView, at: int)
    requires
        text_violation(request.text) is None,
        request.voice_id is Some,
        request.voice_id->0.len() <= MAX_VOICE_ID_LENGTH,
        0 <= at < request.voice_id->0.len(),
        !allowed_in_voice_id(request.voice_id->0[at]),
    ensures
        first_violation(request) == Some(ValidationError::InvalidVoiceId),
{
}

/// Rate, pitch and volume never decide whether a request is refused: two
/// requests that differ in nothing else break the same rule or none. What
/// is accepted has each factor inside its range.
pub proof fn lemma_factors_are_clamped_not_refused(request: SpeakRequestView, rate: int, pitch: int, volume: int)
    ensures
        first_violation(SpeakRequestView { rate, pitch, volume, ..request }) == first_violation(
            request,
        ),
        first_violation(request) is None ==> is_valid(
            with_clamped_factors(SpeakRequestView { rate, pitch, volume, ..request }),
        ),
{
}

/// Validating what was already validated changes nothing.
pub proof fn lemma_clamping_is_idempotent(request: SpeakRequestView)
    ensures
        with_clamped_factors(with_clamped_factors(request)) == with_clamped_factors(request),
{
}

} // verus!
