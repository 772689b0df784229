use tauri_plugin_tts::error::ValidationError;
use tauri_plugin_tts::models::{PreviewVoiceRequest, QueueMode, SpeakRequest};
use tauri_plugin_tts::validator::{
    check_language, check_request, check_text, check_voice_id, clamp, is_voice_id_char, validate,
    validate_preview, MAX_LANGUAGE_LENGTH, MAX_PITCH, MAX_RATE, MAX_TEXT_LENGTH,
    MAX_VOICE_ID_LENGTH, MAX_VOLUME, MIN_PITCH, MIN_RATE, MIN_VOLUME,
};

fn request(text: &str) -> SpeakRequest {
    SpeakRequest::new(text.to_string())
}

#[test]
fn limits_have_their_documented_values() {
    assert_eq!(MAX_TEXT_LENGTH, 10_000);
    assert_eq!(MAX_VOICE_ID_LENGTH, 256);
    assert_eq!(MAX_LANGUAGE_LENGTH, 35);
    assert_eq!((MIN_RATE, MAX_RATE), (100, 4000));
    assert_eq!((MIN_PITCH, MAX_PITCH), (500, 2000));
    assert_eq!((MIN_VOLUME, MAX_VOLUME), (0, 1000));
}

#[test]
fn empty_text_is_refused() {
    assert_eq!(validate(request("")).unwrap_err(), ValidationError::EmptyText);
    assert_eq!(check_text(""), Some(ValidationError::EmptyText));
}

#[test]
fn empty_text_is_refused_before_anything_else_is_judged() {
    let mut bad = request("");
    bad.voice_id = Some("not a voice!".to_string());
    bad.language = Some("x".repeat(100));
    bad.rate = -7;
    assert_eq!(validate(bad).unwrap_err(), ValidationError::EmptyText);
}

#[test]
fn text_of_the_maximum_length_is_accepted() {
    let text = "a".repeat(10_000);
    let validated = validate(request(&text)).unwrap();
    assert_eq!(validated.text(), text);
}

#[test]
fn text_one_byte_over_the_maximum_is_refused() {
    let text = "a".repeat(10_001);
    assert_eq!(
        validate(request(&text)).unwrap_err(),
        ValidationError::TextTooLong { len: 10_001, max: 10_000 }
    );
}

#[test]
fn text_length_is_counted_in_bytes() {
    // 5000 two-byte characters fill the limit exactly; one more goes over.
    let fits = "é".repeat(5000);
    assert_eq!(check_text(&fits), None);
    let over = "é".repeat(5001);
    assert_eq!(check_text(&over), Some(ValidationError::TextTooLong { len: 10_002, max: 10_000 }));
    let wide = "\u{1F600}".repeat(2501);
    assert_eq!(check_text(&wide), Some(ValidationError::TextTooLong { len: 10_004, max: 10_000 }));
}

#[test]
fn voice_id_charset_is_letters_digits_dot_underscore_hyphen() {
    for c in ['A', 'Z', 'a', 'z', 'm', '0', '9', '5', '.', '_', '-'] {
        assert!(is_voice_id_char(c), "{c:?}");
    }
    for c in ['@', '[', '`', '{', '/', ':', ' ', '!', '+', ',', 'é', 'Ω', '\0', '\u{1F600}'] {
        assert!(!is_voice_id_char(c), "{c:?}");
    }
}

#[test]
fn valid_voice_id_is_accepted() {
    let mut r = request("Hi");
    r.voice_id = Some("com.apple.voice.enhanced.pt-BR".to_string());
    let validated = validate(r).unwrap();
    assert_eq!(validated.voice_id(), Some("com.apple.voice.enhanced.pt-BR"));
    assert_eq!(check_voice_id(""), None);
    assert_eq!(check_voice_id(&"v".repeat(256)), None);
}

#[test]
fn voice_id_with_a_foreign_character_is_refused() {
    for id in ["bad voice", "voice!", "a/b", "é", "voice\n", "semi;colon", "a\u{1F600}"] {
        let mut r = request("Hi");
        r.voice_id = Some(id.to_string());
        assert_eq!(validate(r).unwrap_err(), ValidationError::InvalidVoiceId, "{id:?}");
    }
    // A single bad character at any place is enough.
    let mut id = "v".repeat(255);
    id.push('*');
    assert_eq!(check_voice_id(&id), Some(ValidationError::InvalidVoiceId));
    let mut id = String::from("*");
    id.push_str(&"v".repeat(255));
    assert_eq!(check_voice_id(&id), Some(ValidationError::InvalidVoiceId));
}

#[test]
fn overlong_voice_id_is_refused_as_too_long() {
    assert_eq!(check_voice_id(&"v".repeat(257)), Some(ValidationError::VoiceIdTooLong));
    // Length is judged before the characters.
    assert_eq!(check_voice_id(&"!".repeat(257)), Some(ValidationError::VoiceIdTooLong));
}

#[test]
fn voice_id_length_is_counted_in_characters() {
    // 200 two-byte characters are 400 bytes but only 200 characters: the
    // identifier is not too long, it is invalid.
    assert_eq!(check_voice_id(&"é".repeat(200)), Some(ValidationError::InvalidVoiceId));
    assert_eq!(check_voice_id(&"é".repeat(257)), Some(ValidationError::VoiceIdTooLong));
}

#[test]
fn language_is_limited_to_thirty_five_characters() {
    assert_eq!(check_language(&"x".repeat(35)), None);
    assert_eq!(check_language(&"x".repeat(36)), Some(ValidationError::LanguageTooLong));
    assert_eq!(check_language(&"é".repeat(35)), None);
    assert_eq!(check_language(""), None);
    let mut r = request("Hi");
    r.language = Some("x".repeat(36));
    assert_eq!(validate(r).unwrap_err(), ValidationError::LanguageTooLong);
}

#[test]
fn the_first_broken_rule_wins() {
    let mut r = request(&"a".repeat(10_001));
    r.voice_id = Some("!".to_string());
    r.language = Some("x".repeat(36));
    assert_eq!(
        check_request(&r),
        Some(ValidationError::TextTooLong { len: 10_001, max: 10_000 })
    );
    r.text = "Hi".to_string();
    assert_eq!(check_request(&r), Some(ValidationError::InvalidVoiceId));
    r.voice_id = Some("v".repeat(300));
    assert_eq!(check_request(&r), Some(ValidationError::VoiceIdTooLong));
    r.voice_id = Some("v".to_string());
    assert_eq!(check_request(&r), Some(ValidationError::LanguageTooLong));
    r.language = None;
    assert_eq!(check_request(&r), None);
}

#[test]
fn factors_out_of_range_are_clamped_not_refused() {
    let mut r = request("Hi");
    r.rate = 50;
    r.pitch = 100;
    r.volume = -5;
    let low = validate(r).unwrap();
    assert_eq!((low.rate(), low.pitch(), low.volume()), (100, 500, 0));

    let mut r = request("Hi");
    r.rate = 5000;
    r.pitch = 3000;
    r.volume = 1500;
    let high = validate(r).unwrap();
    assert_eq!((high.rate(), high.pitch(), high.volume()), (4000, 2000, 1000));

    let mut r = request("Hi");
    r.rate = i64::MIN;
    r.pitch = i64::MAX;
    r.volume = i64::MIN;
    let extreme = validate(r).unwrap();
    assert_eq!((extreme.rate(), extreme.pitch(), extreme.volume()), (100, 2000, 0));
}

#[test]
fn factors_in_range_are_kept() {
    let mut r = request("Hi");
    r.rate = 800;
    r.pitch = 1200;
    r.volume = 900;
    r.language = Some("pt-BR".to_string());
    r.queue_mode = QueueMode::Add;
    let v = validate(r).unwrap();
    assert_eq!(v.text(), "Hi");
    assert_eq!(v.language(), Some("pt-BR"));
    assert_eq!(v.voice_id(), None);
    assert_eq!((v.rate(), v.pitch(), v.volume()), (800, 1200, 900));
    assert_eq!(v.queue_mode(), QueueMode::Add);

    for (rate, pitch, volume) in [(100, 500, 0), (4000, 2000, 1000), (1000, 1000, 1000)] {
        let mut r = request("Hi");
        r.rate = rate;
        r.pitch = pitch;
        r.volume = volume;
        let v = validate(r).unwrap();
        assert_eq!((v.rate(), v.pitch(), v.volume()), (rate, pitch, volume));
    }
}

#[test]
fn clamp_moves_to_the_nearest_end() {
    assert_eq!(clamp(5, 10, 20), 10);
    assert_eq!(clamp(25, 10, 20), 20);
    assert_eq!(clamp(15, 10, 20), 15);
    assert_eq!(clamp(10, 10, 20), 10);
    assert_eq!(clamp(20, 10, 20), 20);
    assert_eq!(clamp(-3, 7, 7), 7);
}

#[test]
fn validated_request_gives_up_its_text_and_voice() {
    let mut r = request("Hi there");
    r.voice_id = Some("anna".to_string());
    let (text, voice) = validate(r).unwrap().into_text_and_voice();
    assert_eq!(text, "Hi there");
    assert_eq!(voice, Some("anna".to_string()));
}

#[test]
fn preview_without_text_speaks_the_default_sample() {
    let v = validate_preview(PreviewVoiceRequest { voice_id: "anna".to_string(), text: None })
        .unwrap();
    assert_eq!(v.text(), "Hello! This is a sample of how this voice sounds.");
    assert_eq!(v.voice_id(), Some("anna"));
    assert_eq!(v.language(), None);
    assert_eq!((v.rate(), v.pitch(), v.volume()), (1000, 1000, 1000));
    assert_eq!(v.queue_mode(), QueueMode::Flush);
}

#[test]
fn preview_with_text_speaks_it_verbatim() {
    let v = validate_preview(PreviewVoiceRequest {
        voice_id: "anna".to_string(),
        text: Some("Guten Tag".to_string()),
    })
    .unwrap();
    assert_eq!(v.text(), "Guten Tag");
    assert_eq!(v.queue_mode(), QueueMode::Flush);
}

#[test]
fn preview_text_falls_under_the_rules_for_text() {
    let empty = PreviewVoiceRequest { voice_id: "anna".to_string(), text: Some(String::new()) };
    assert_eq!(validate_preview(empty).unwrap_err(), ValidationError::EmptyText);
    let long =
        PreviewVoiceRequest { voice_id: "anna".to_string(), text: Some("a".repeat(10_001)) };
    assert_eq!(
        validate_preview(long).unwrap_err(),
        ValidationError::TextTooLong { len: 10_001, max: 10_000 }
    );
    let fits = PreviewVoiceRequest { voice_id: "anna".to_string(), text: Some("a".repeat(10_000)) };
    assert!(validate_preview(fits).is_ok());
}

#[test]
fn preview_voice_falls_under_the_rules_for_voice_ids() {
    let bad = PreviewVoiceRequest { voice_id: "anna banana".to_string(), text: None };
    assert_eq!(validate_preview(bad).unwrap_err(), ValidationError::InvalidVoiceId);
    let long = PreviewVoiceRequest { voice_id: "v".repeat(257), text: None };
    assert_eq!(validate_preview(long).unwrap_err(), ValidationError::VoiceIdTooLong);
    let both = PreviewVoiceRequest { voice_id: "!".to_string(), text: Some(String::new()) };
    assert_eq!(validate_preview(both).unwrap_err(), ValidationError::EmptyText);
}
