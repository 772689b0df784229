//! The engine's voices: filtering by language, finding a voice by its
//! identifier, and a cache that spares the engine a fresh enumeration for a
//! while.
use crate::models::{voice_views, Voice, VoiceView};
use crate::text::{contains_ignore_case, contains_ignoring_case};
use vstd::prelude::*;

verus! {

/// How long a captured list of voices stays good, in milliseconds.
pub const VOICE_CACHE_TTL_MS: u64 = 60000;

/// Whether a voice passes a language filter: its language tag contains the
/// filter when case is set aside. Every voice passes where there is no
/// filter.
pub open spec fn matches_language(voice: VoiceView, filter: Option<Seq<char>>) -> bool {
    match filter {
        Some(wanted) => contains_ignoring_case(voice.language, wanted),
        None => true,
    }
}

/// The test that a language filter applies to each voice.
pub open spec fn language_filter(filter: Option<Seq<char>>) -> spec_fn(VoiceView) -> bool {
    |voice: VoiceView| matches_language(voice, filter)
}

/// The voices that pass a language filter, in their order.
pub open spec fn matching_voices(voices: Seq<VoiceView>, filter: Option<Seq<char>>) -> Seq<
    VoiceView,
> {
    voices.filter(language_filter(filter))
}

/// The position of the first voice with the given identifier at or after
/// `from`, if there is one.
pub open spec fn first_with_id_from(voices: Seq<VoiceView>, id: Seq<char>, from: int) -> Option<
    int,
>
    decreases voices.len() - from,
{
    if from < 0 || from >= voices.len() {
        None
    } else if voices[from].id == id {
        Some(from)
    } else {
        first_with_id_from(voices, id, from + 1)
    }
}

/// The position of the first voice with the given identifier, if there is
/// one.
pub open spec fn first_with_id(voices: Seq<VoiceView>, id: Seq<char>) -> Option<int> {
    first_with_id_from(voices, id, 0)
}

/// Whether a voice passes a language filter.
pub fn voice_matches(voice: &Voice, filter: Option<&str>) -> (passes: bool)
    ensures
        passes == matches_language(voice@, filter.deep_view()),
{
    match filter {
        Some(wanted) => contains_ignore_case(voice.language.as_str(), wanted),
        None => true,
    }
}

/// The voices that pass a language filter, in their order.
pub fn filter_voices(voices: &Vec<Voice>, filter: Option<&str>) -> (kept: Vec<Voice>)
    ensures
        voice_views(kept@) == matching_voices(voice_views(voices@), filter.deep_view()),
{
    let ghost all = voice_views(voices@);
    let ghost test = language_filter(filter.deep_view());
    let mut kept: Vec<Voice> = Vec::new();
    let mut i: usize = 0;
    proof {
        reveal(Seq::filter);
        assert(all.take(0).filter(test) =~= voice_views(kept@));
    }
    while i < voices.len()
        invariant
            i <= voices.len(),
            all == voice_views(voices@),
            test == language_filter(filter.deep_view()),
            voice_views(kept@) == all.take(i as int).filter(test),
        decreases voices.len() - i,
    {
        let ghost before = voice_views(kept@);
        let passes = voice_matches(&voices[i], filter);
        if passes {
            kept.push(voices[i].clone());
        }
        proof {
            reveal(Seq::filter);
            let upto = all.take(i + 1);
            assert(upto.drop_last() =~= all.take(i as int));
            assert(upto.last() == voices@[i as int]@);
            if passes {
                assert(voice_views(kept@) =~= before.push(voices@[i as int]@));
            } else {
                assert(voice_views(kept@) =~= before);
            }
        }
        i += 1;
    }
    proof {
        assert(all.take(voices.len() as int) =~= all);
    }
    kept
}

/// The position of the first voice with the given identifier, if there is
/// one.
pub fn resolve_voice(voices: &Vec<Voice>, id: &str) -> (found: Option<usize>)
    ensures
        match found {
            Some(i) => first_with_id(voice_views(voices@), id@) == Some(i as int),
            None => first_with_id(voice_views(voices@), id@) is None,
        },
{
    let wanted: String = id.to_owned();
    let ghost all = voice_views(voices@);
    let mut i: usize = 0;
    while i < voices.len()
        invariant
            i <= voices.len(),
            all == voice_views(voices@),
            wanted@ == id@,
            first_with_id(all, id@) == first_with_id_from(all, id@, i as int),
        decreases voices.len() - i,
    {
        if voices[i].id == wanted {
            return Some(i);
        }
        i += 1;
    }
    None
}

/// A list of voices and the time at which it was captured.
struct Snapshot {
    voices: Vec<Voice>,
    captured_at: u64,
}

/// A [`VoiceCache`] as contracts see it: nothing, or the captured voices
/// with the time of capture in milliseconds.
pub struct VoiceCacheView {
    pub snapshot: Option<SnapshotView>,
}

/// A captured list of voices with the time of its capture.
pub struct SnapshotView {
    pub voices: Seq<VoiceView>,
    pub captured_at: u64,
}

impl VoiceCacheView {
    /// The cache that holds nothing.
    pub open spec fn empty() -> VoiceCacheView {
        VoiceCacheView { snapshot: None }
    }

    /// The cache that holds `voices` as captured at `now`.
    pub open spec fn holding(voices: Seq<VoiceView>, now: u64) -> VoiceCacheView {
        VoiceCacheView { snapshot: Some(SnapshotView { voices, captured_at: now }) }
    }

    /// The cache holds voices that were captured less than the time to live
    /// before `now`.
    pub open spec fn fresh_at(self, now: u64) -> bool {
        match self.snapshot {
            Some(snapshot) => now - snapshot.captured_at < VOICE_CACHE_TTL_MS,
            None => false,
        }
    }

    /// What a query at `now` gets from the cache alone: the voices that pass
    /// the filter where the cache is fresh, nothing otherwise.
    pub open spec fn lookup(self, now: u64, filter: Option<Seq<char>>) -> Option<Seq<VoiceView>> {
        if self.fresh_at(now) {
            Some(matching_voices(self.snapshot->0.voices, filter))
        } else {
            None
        }
    }
}

/// The voices that the engine listed last, kept for a while so that
/// queries need not ask the engine again. Times are milliseconds on a clock
/// that does not run backwards.
pub struct VoiceCache {
    snapshot: Option<Snapshot>,
}

impl View for VoiceCache {
    type V = VoiceCacheView;

    closed spec fn view(&self) -> VoiceCacheView {
        match self.snapshot {
            Some(snapshot) => VoiceCacheView::holding(
                voice_views(snapshot.voices@),
                snapshot.captured_at,
            ),
            None => VoiceCacheView::empty(),
        }
    }
}

impl VoiceCache {
    /// A cache that holds nothing.
    pub fn new() -> (cache: Self)
        ensures
            cache@ == VoiceCacheView::empty(),
    {
        VoiceCache { snapshot: None }
    }

    /// Whether the cache can answer a query at `now`.
    pub fn is_fresh(&self, now: u64) -> (fresh: bool)
        ensures
            fresh == self@.fresh_at(now),
    {
        match &self.snapshot {
            Some(snapshot) => now < snapshot.captured_at || now - snapshot.captured_at
                < VOICE_CACHE_TTL_MS,
            None => false,
        }
    }

    /// Answers a query from the cache alone. Where the cache is fresh, the
    /// answer holds the cached voices that pass the filter; otherwise there
    /// is no answer and the engine has to be asked.
    pub fn lookup(&self, now: u64, filter: Option<&str>) -> (answer: Option<Vec<Voice>>)
        ensures
            match answer {
                Some(voices) => self@.lookup(now, filter.deep_view()) == Some(voice_views(voices@)),
                None => self@.lookup(now, filter.deep_view()) is None,
            },
    {
        match &self.snapshot {
            Some(snapshot) => {
                if now < snapshot.captured_at || now - snapshot.captured_at < VOICE_CACHE_TTL_MS {
                    Some(filter_voices(&snapshot.voices, filter))
                } else {
                    None
                }
            },
            None => None,
        }
    }

    /// Puts a freshly captured list in the place of whatever the cache held.
    pub fn replace(&mut self, voices: Vec<Voice>, now: u64)
        ensures
            final(self)@ == VoiceCacheView::holding(voice_views(voices@), now),
    {
        self.snapshot = Some(Snapshot { voices, captured_at: now });
    }
}

/// Where there is no filter, every voice passes.
pub proof fn lemma_no_filter_keeps_all(voices: Seq<VoiceView>)
    ensures
        matching_voices(voices, None) == voices,
    decreases voices.len(),
{
    reveal(Seq::filter);
    if voices.len() > 0 {
        lemma_no_filter_keeps_all(voices.drop_last());
        assert(voices.drop_last().push(voices.last()) =~= voices);
    }
}

/// The voices that pass a filter are exactly those of the list whose
/// language contains the filter, case set aside: none is made up, none is
/// left out.
pub proof fn lemma_matching_voices_are_the_matches(
    voices: Seq<VoiceView>,
    filter: Option<Seq<char>>,
    voice: VoiceView,
)
    ensures
        matching_voices(voices, filter).contains(voice) <==> voices.contains(voice)
            && matches_language(voice, filter),
{
    let test = language_filter(filter);
    let kept = voices.filter(test);
    if kept.contains(voice) {
        let i = choose|i: int| 0 <= i < kept.len() && kept[i] == voice;
        voices.lemma_filter_pred(test, i);
        voices.lemma_filter_contains_rev(test, voice);
    }
    if voices.contains(voice) && matches_language(voice, filter) {
        let i = choose|i: int| 0 <= i < voices.len() && voices[i] == voice;
        voices.lemma_filter_contains(test, i);
    }
}

/// What `first_with_id` finds carries the identifier, and no voice before
/// it does; where it finds nothing, no voice carries the identifier.
pub proof fn lemma_first_with_id(voices: Seq<VoiceView>, id: Seq<char>)
    ensures
        match first_with_id(voices, id) {
            Some(i) => {
                &&& 0 <= i < voices.len()
                &&& voices[i].id == id
                &&& forall|j: int| 0 <= j < i ==> voices[j].id != id
            },
            None => forall|j: int| 0 <= j < voices.len() ==> voices[j].id != id,
        },
{
    lemma_first_with_id_from(voices, id, 0);
}

proof fn lemma_first_with_id_from(voices: Seq<VoiceView>, id: Seq<char>, from: int)
    requires
        0 <= from,
    ensures
        match first_with_id_from(voices, id, from) {
            Some(i) => {
                &&& from <= i < voices.len()
                &&& voices[i].id == id
                &&& forall|j: int| from <= j < i ==> voices[j].id != id
            },
            None => forall|j: int| from <= j < voices.len() ==> voices[j].id != id,
        },
    decreases voices.len() - from,
{
    if from < voices.len() && voices[from].id != id {
        lemma_first_with_id_from(voices, id, from + 1);
    }
}

/// A query that comes less than the time to live after a capture is
/// answered from the cache, with the captured voices that pass its filter:
/// the engine is not asked again. Two such queries with the same filter get
/// the same voices.
pub proof fn lemma_fresh_cache_answers(
    voices: Seq<VoiceView>,
    captured_at: u64,
    first: u64,
    second: u64,
    filter: Option<Seq<char>>,
)
    requires
        first - captured_at < VOICE_CACHE_TTL_MS,
        second - captured_at < VOICE_CACHE_TTL_MS,
    ensures
        VoiceCacheView::holding(voices, captured_at).lookup(first, filter) == Some(
            matching_voices(voices, filter),
        ),
        VoiceCacheView::holding(voices, captured_at).lookup(second, filter)
            == VoiceCacheView::holding(voices, captured_at).lookup(first, filter),
{
}

/// A query that comes the time to live or more after the capture gets
/// nothing from the cache, and neither does a query to a cache that holds
/// nothing: the engine has to be asked.
pub proof fn lemma_stale_cache_is_silent(
    voices: Seq<VoiceView>,
    captured_at: u64,
    now: u64,
    filter: Option<Seq<char>>,
)
    ensures
        now - captured_at >= VOICE_CACHE_TTL_MS ==> VoiceCacheView::holding(
            voices,
            captured_at,
        ).lookup(now, filter) is None,
        VoiceCacheView::empty().lookup(now, filter) is None,
{
}

} // verus!
