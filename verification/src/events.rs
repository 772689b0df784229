//! The events that tell listeners how an utterance fares. Each kind of event
//! goes out on a channel of its own.
use vstd::prelude::*;

verus! {

/// What happened to an utterance.
#[derive(Debug, Clone, Copy, PartialEq, Eq, Structural)]
pub enum SpeechEventType {
    /// A speak request was taken up.
    Start,
    /// The engine spoke the utterance to its end.
    Finish,
    /// The utterance was cut short.
    Cancel,
}

impl SpeechEventType {
    /// The word for this kind of event.
    pub open spec fn label_text(self) -> Seq<char> {
        match self {
            SpeechEventType::Start => "start"@,
            SpeechEventType::Finish => "finish"@,
            SpeechEventType::Cancel => "cancel"@,
        }
    }

    /// The name of the channel on which events of this kind go out.
    pub open spec fn channel_text(self) -> Seq<char> {
        match self {
            SpeechEventType::Start => "speech:start"@,
            SpeechEventType::Finish => "speech:finish"@,
            SpeechEventType::Cancel => "speech:cancel"@,
        }
    }

    /// The word for this kind of event.
    pub fn label(&self) -> (label: &'static str)
        ensures
            label@ == self.label_text(),
    {
        match self {
            SpeechEventType::Start => "start",
            SpeechEventType::Finish => "finish",
            SpeechEventType::Cancel => "cancel",
        }
    }

    /// The name of the channel on which events of this kind go out.
    pub fn channel(&self) -> (channel: &'static str)
        ensures
            channel@ == self.channel_text(),
    {
        match self {
            SpeechEventType::Start => "speech:start",
            SpeechEventType::Finish => "speech:finish",
            SpeechEventType::Cancel => "speech:cancel",
        }
    }
}

/// A notice to listeners about one utterance.
#[derive(Debug, Clone, Copy, PartialEq, Eq, Structural)]
pub struct SpeechEvent {
    /// The utterance that the notice is about, where it is known.
    pub id: Option<u64>,
    /// What happened to it.
    pub event_type: SpeechEventType,
}

impl SpeechEvent {
    /// The notice that a speak request with the given identifier was taken up.
    pub fn start(id: u64) -> (event: Self)
        ensures
            event == (SpeechEvent { id: Some(id), event_type: SpeechEventType::Start }),
    {
        SpeechEvent { id: Some(id), event_type: SpeechEventType::Start }
    }

    /// The notice that an utterance was spoken to its end.
    pub fn finish(id: Option<u64>) -> (event: Self)
        ensures
            event == (SpeechEvent { id, event_type: SpeechEventType::Finish }),
    {
        SpeechEvent { id, event_type: SpeechEventType::Finish }
    }

    /// The notice that an utterance was cut short.
    pub fn cancel(id: Option<u64>) -> (event: Self)
        ensures
            event == (SpeechEvent { id, event_type: SpeechEventType::Cancel }),
    {
        SpeechEvent { id, event_type: SpeechEventType::Cancel }
    }

    /// The name of the channel on which this notice goes out.
    pub fn channel(&self) -> (channel: &'static str)
        ensures
            channel@ == self.event_type.channel_text(),
    {
        self.event_type.channel()
    }
}

/// What an engine that reports on its utterances tells of its own accord.
#[derive(Debug, Clone, Copy, PartialEq, Eq, Structural)]
pub enum EngineSignal {
    /// The engine spoke an utterance to its end.
    UtteranceEnd,
    /// The engine was stopped while it had utterances left.
    UtteranceStop,
}

impl EngineSignal {
    /// The kind of event that this signal is passed on as.
    pub open spec fn event_type(self) -> SpeechEventType {
        match self {
            EngineSignal::UtteranceEnd => SpeechEventType::Finish,
            EngineSignal::UtteranceStop => SpeechEventType::Cancel,
        }
    }
}

} // verus!
