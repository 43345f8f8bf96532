use whisper::Device;
use whisper::Error;
use whisper::Language;
use whisper::ModelSize;
use whisper::RawSegment;
use whisper::RawTranscription;
use whisper::Segment;
use whisper::Transcription;

fn raw_segment(text: &str, start: f32, end: f32) -> RawSegment {
    RawSegment {
        text: Some(text.to_string()),
        start: Some(start.to_bits()),
        end: Some(end.to_bits()),
    }
}

#[test]
fn well_formed_response_converts() {
    let raw = RawTranscription {
        text: Some("one two three".to_string()),
        segments: Some(vec![
            raw_segment("one", 0.0, 0.4),
            raw_segment("two", 0.4, 0.9),
            raw_segment("three", 0.9, 1.5),
        ]),
        language: Some("german".to_string()),
    };
    let t = match Transcription::from_raw(raw) {
        Ok(t) => t,
        Err(_) => panic!("well-formed response must convert"),
    };
    assert_eq!(t.text, "one two three");
    assert_eq!(t.segments.len(), 3);
    assert_eq!(t.segments[0].text, "one");
    assert_eq!(t.segments[1].text, "two");
    assert_eq!(t.segments[2].text, "three");
    assert_eq!(t.segments[0].start, 0.0f32.to_bits());
    assert_eq!(t.segments[2].end, 1.5f32.to_bits());
    assert_eq!(t.language, Language::German);
}

#[test]
fn empty_segment_list_converts() {
    let raw = RawTranscription {
        text: Some(String::new()),
        segments: Some(vec![]),
        language: Some("english".to_string()),
    };
    let t = match Transcription::from_raw(raw) {
        Ok(t) => t,
        Err(_) => panic!("empty segment list must convert"),
    };
    assert_eq!(t.segments.len(), 0);
}

#[test]
fn missing_text_key() {
    let raw = RawTranscription {
        text: None,
        segments: Some(vec![raw_segment("hi", 0.0, 1.0)]),
        language: Some("english".to_string()),
    };
    match Transcription::from_raw(raw) {
        Err(Error::MissingResult(f)) => assert_eq!(f, "text"),
        _ => panic!("expected MissingResult"),
    }
}

#[test]
fn missing_segments_key() {
    let raw = RawTranscription {
        text: Some("hi".to_string()),
        segments: None,
        language: Some("english".to_string()),
    };
    match Transcription::from_raw(raw) {
        Err(Error::MissingResult(f)) => assert_eq!(f, "segments"),
        _ => panic!("expected MissingResult"),
    }
}

#[test]
fn missing_segment_fields() {
    let mut incomplete = raw_segment("hi", 0.0, 1.0);
    incomplete.text = None;
    let raw = RawTranscription {
        text: Some("hi".to_string()),
        segments: Some(vec![raw_segment("ok", 0.0, 0.5), incomplete]),
        language: Some("english".to_string()),
    };
    match Transcription::from_raw(raw) {
        Err(Error::MissingResult(f)) => assert_eq!(f, "segment text"),
        _ => panic!("expected MissingResult"),
    }

    let mut incomplete = raw_segment("hi", 0.0, 1.0);
    incomplete.start = None;
    let raw = RawTranscription {
        text: Some("hi".to_string()),
        segments: Some(vec![incomplete]),
        language: Some("english".to_string()),
    };
    match Transcription::from_raw(raw) {
        Err(Error::MissingResult(f)) => assert_eq!(f, "segment start"),
        _ => panic!("expected MissingResult"),
    }

    let mut incomplete = raw_segment("hi", 0.0, 1.0);
    incomplete.end = None;
    let raw = RawTranscription {
        text: Some("hi".to_string()),
        segments: Some(vec![incomplete]),
        language: Some("english".to_string()),
    };
    match Transcription::from_raw(raw) {
        Err(Error::MissingResult(f)) => assert_eq!(f, "segment end"),
        _ => panic!("expected MissingResult"),
    }
}

#[test]
fn missing_language_key() {
    let raw = RawTranscription {
        text: Some("hi".to_string()),
        segments: Some(vec![raw_segment("hi", 0.0, 1.0)]),
        language: None,
    };
    match Transcription::from_raw(raw) {
        Err(Error::MissingResult(f)) => assert_eq!(f, "language"),
        _ => panic!("expected MissingResult"),
    }
}

#[test]
fn unknown_language_in_response() {
    let raw = RawTranscription {
        text: Some("hi".to_string()),
        segments: Some(vec![raw_segment("hi", 0.0, 1.0)]),
        language: Some("klingon".to_string()),
    };
    match Transcription::from_raw(raw) {
        Err(Error::InvalidLanguageString(s)) => assert_eq!(s, "klingon"),
        _ => panic!("expected InvalidLanguageString"),
    }
}

#[test]
fn base_cpu_scenario() {
    // The configuration half of the scenario: the canonical names that a
    // Base-sized, CPU-bound, in-memory load would hand the external loader.
    assert_eq!(ModelSize::Base.to_string(), "base");
    assert_eq!(Device::Cpu.to_string(), "cpu");

    let raw = RawTranscription {
        text: Some("Hello world.".to_string()),
        segments: Some(vec![raw_segment("Hello world.", 0.0, 1.2)]),
        language: Some("english".to_string()),
    };
    let t = match Transcription::from_raw(raw) {
        Ok(t) => t,
        Err(_) => panic!("scenario response must convert"),
    };
    let expected = Transcription {
        text: "Hello world.".to_string(),
        segments: vec![Segment {
            text: "Hello world.".to_string(),
            start: 0.0f32.to_bits(),
            end: 1.2f32.to_bits(),
        }],
        language: Language::English,
    };
    assert_eq!(t, expected);
}
