//! Errors of the speech control surface, each with a stable code and a
//! message for the caller.
use crate::text::{decimal, push_decimal};
use vstd::prelude::*;

verus! {

/// Why a request was turned away before it reached the engine.
#[derive(Debug, Clone, Copy, PartialEq, Eq, Structural)]
pub enum ValidationError {
    /// The text is empty.
    EmptyText,
    /// The text takes `len` bytes, more than the `max` allowed.
    TextTooLong { len: usize, max: usize },
    /// The voice identifier has too many characters.
    VoiceIdTooLong,
    /// The voice identifier holds a character that no identifier may hold.
    InvalidVoiceId,
    /// The language tag has too many characters.
    LanguageTooLong,
}

impl ValidationError {
    /// The request field that the error is about, under its name on the wire.
    pub open spec fn field_text(self) -> Seq<char> {
        match self {
            ValidationError::EmptyText => "text"@,
            ValidationError::TextTooLong { .. } => "text"@,
            ValidationError::VoiceIdTooLong => "voiceId"@,
            ValidationError::InvalidVoiceId => "voiceId"@,
            ValidationError::LanguageTooLong => "language"@,
        }
    }

    /// The sentence that tells the caller what is wrong.
    pub open spec fn message_text(self) -> Seq<char> {
        match self {
            ValidationError::EmptyText => "text must not be empty"@,
            ValidationError::TextTooLong { len, max } => "text is too long: "@ + decimal(
                len as nat,
            ) + " bytes, the limit is "@ + decimal(max as nat),
            ValidationError::VoiceIdTooLong => "voice id is too long"@,
            ValidationError::InvalidVoiceId => "voice id holds a character other than letters, digits, '.', '_' and '-'"@,
            ValidationError::LanguageTooLong => "language tag is too long"@,
        }
    }

    /// The request field that the error is about, under its name on the wire.
    pub fn field(&self) -> (name: &'static str)
        ensures
            name@ == self.field_text(),
    {
        match self {
            ValidationError::EmptyText => "text",
            ValidationError::TextTooLong { .. } => "text",
            ValidationError::VoiceIdTooLong => "voiceId",
            ValidationError::InvalidVoiceId => "voiceId",
            ValidationError::LanguageTooLong => "language",
        }
    }

    /// The sentence that tells the caller what is wrong.
    pub fn message(&self) -> (message: String)
        ensures
            message@ == self.message_text(),
    {
        match self {
            ValidationError::EmptyText => "text must not be empty".to_owned(),
            ValidationError::TextTooLong { len, max } => {
                let mut message = "text is too long: ".to_owned();
                push_decimal(&mut message, *len);
                message.append(" bytes, the limit is ");
                push_decimal(&mut message, *max);
                message
            },
            ValidationError::VoiceIdTooLong => "voice id is too long".to_owned(),
            ValidationError::InvalidVoiceId => "voice id holds a character other than letters, digits, '.', '_' and '-'".to_owned(),
            ValidationError::LanguageTooLong => "language tag is too long".to_owned(),
        }
    }
}

/// What can go wrong in an operation of the speech control surface.
#[derive(Debug, Clone, PartialEq)]
pub enum Error {
    /// Input or output failed; the payload is the system's message.
    Io(String),
    /// The call into a mobile speech service failed; the payload is its message.
    PluginInvoke(String),
    /// The native engine refused a call; the payload is its message.
    Tts(String),
    /// The engine could not be reserved for the call.
    LockError,
    /// An earlier call broke off while it held the engine.
    MutexPoisoned,
    /// There is no engine session yet.
    NotInitialized,
    /// The request was malformed.
    Validation(ValidationError),
    /// The operation failed for the reason given.
    OperationFailed(String),
}

/// An [`Error`] as contracts see it.
pub enum ErrorView {
    Io(Seq<char>),
    PluginInvoke(Seq<char>),
    Tts(Seq<char>),
    LockError,
    MutexPoisoned,
    NotInitialized,
    Validation(ValidationError),
    OperationFailed(Seq<char>),
}

impl View for Error {
    type V = ErrorView;

    open spec fn view(&self) -> ErrorView {
        match self {
            Error::Io(message) => ErrorView::Io(message@),
            Error::PluginInvoke(message) => ErrorView::PluginInvoke(message@),
            Error::Tts(message) => ErrorView::Tts(message@),
            Error::LockError => ErrorView::LockError,
            Error::MutexPoisoned => ErrorView::MutexPoisoned,
            Error::NotInitialized => ErrorView::NotInitialized,
            Error::Validation(error) => ErrorView::Validation(*error),
            Error::OperationFailed(message) => ErrorView::OperationFailed(message@),
        }
    }
}

impl ErrorView {
    /// The code that names the kind of error; it never changes for a kind.
    pub open spec fn code(self) -> Seq<char> {
        match self {
            ErrorView::Io(_) => "IO_ERROR"@,
            ErrorView::PluginInvoke(_) => "PLUGIN_INVOKE_ERROR"@,
            ErrorView::Tts(_) => "TTS_ENGINE_ERROR"@,
            ErrorView::LockError => "LOCK_ERROR"@,
            ErrorView::MutexPoisoned => "MUTEX_POISONED"@,
            ErrorView::NotInitialized => "NOT_INITIALIZED"@,
            ErrorView::Validation(_) => "VALIDATION_ERROR"@,
            ErrorView::OperationFailed(_) => "OPERATION_FAILED"@,
        }
    }

    /// The sentence that tells the caller what went wrong.
    pub open spec fn message(self) -> Seq<char> {
        match self {
            ErrorView::Io(message) => message,
            ErrorView::PluginInvoke(message) => message,
            ErrorView::Tts(message) => "TTS error: "@ + message,
            ErrorView::LockError => "Failed to acquire lock on TTS engine"@,
            ErrorView::MutexPoisoned => "TTS engine mutex was poisoned - internal state may be corrupted"@,
            ErrorView::NotInitialized => "TTS not initialized"@,
            ErrorView::Validation(error) => "Validation error: "@ + error.message_text(),
            ErrorView::OperationFailed(message) => "TTS operation failed: "@ + message,
        }
    }
}

/// The form in which an error crosses to the caller: its code and its message.
#[derive(Debug, Clone, PartialEq, Eq)]
pub struct ErrorPayload {
    pub code: String,
    pub message: String,
}

/// An [`ErrorPayload`] as contracts see it.
pub struct ErrorPayloadView {
    pub code: Seq<char>,
    pub message: Seq<char>,
}

impl View for ErrorPayload {
    type V = ErrorPayloadView;

    open spec fn view(&self) -> ErrorPayloadView {
        ErrorPayloadView { code: self.code@, message: self.message@ }
    }
}

impl Error {
    /// The code that names the kind of error.
    pub fn code(&self) -> (code: &'static str)
        ensures
            code@ == self@.code(),
    {
        match self {
            Error::Io(_) => "IO_ERROR",
            Error::PluginInvoke(_) => "PLUGIN_INVOKE_ERROR",
            Error::Tts(_) => "TTS_ENGINE_ERROR",
            Error::LockError => "LOCK_ERROR",
            Error::MutexPoisoned => "MUTEX_POISONED",
            Error::NotInitialized => "NOT_INITIALIZED",
            Error::Validation(_) => "VALIDATION_ERROR",
            Error::OperationFailed(_) => "OPERATION_FAILED",
        }
    }

    /// The sentence that tells the caller what went wrong.
    pub fn message(&self) -> (message: String)
        ensures
            message@ == self@.message(),
    {
        match self {
            Error::Io(message) => message.clone(),
            Error::PluginInvoke(message) => message.clone(),
            Error::Tts(message) => {
                let mut text = "TTS error: ".to_owned();
                text.append(message.as_str());
                text
            },
            Error::LockError => "Failed to acquire lock on TTS engine".to_owned(),
            Error::MutexPoisoned => "TTS engine mutex was poisoned - internal state may be corrupted".to_owned(),
            Error::NotInitialized => "TTS not initialized".to_owned(),
            Error::Validation(error) => {
                let mut text = "Validation error: ".to_owned();
                let detail = error.message();
                text.append(detail.as_str());
                text
            },
            Error::OperationFailed(message) => {
                let mut text = "TTS operation failed: ".to_owned();
                text.append(message.as_str());
                text
            },
        }
    }

    /// The error as it crosses to the caller: the pair of its code and its
    /// message.
    pub fn serialize(&self) -> (payload: ErrorPayload)
        ensures
            payload@ == (ErrorPayloadView { code: self@.code(), message: self@.message() }),
    {
        ErrorPayload { code: self.code().to_owned(), message: self.message() }
    }
}

} // verus!
