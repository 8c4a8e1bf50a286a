use desktop_lyrics::{FuriganaSegment, LyricsPayload};

fn word(s: &str) -> Option<String> {
    Some(s.to_string())
}

fn ruby(original: &str, reading: &str) -> FuriganaSegment {
    FuriganaSegment {
        original: word(original),
        annotation: word(reading),
        segment_type: word("ruby"),
    }
}

fn full_payload() -> LyricsPayload {
    LyricsPayload {
        track_id: word("track-7"),
        title: word("夜に駆ける"),
        artist: word("YOASOBI"),
        active_line: word("沈むように"),
        next_line: word("溶けてゆくように"),
        position_ms: Some(61_250),
        is_playing: Some(true),
        active_segments: Some(vec![ruby("沈", "しず"), FuriganaSegment {
            original: word("むように"),
            annotation: None,
            segment_type: word("plain"),
        }]),
        next_segments: Some(vec![]),
        active_translation: word("as if sinking"),
        next_translation: None,
        show_translation: Some(false),
    }
}

#[test]
fn default_payload_has_every_field_absent() {
    let p = LyricsPayload::default();
    assert!(p.track_id.is_none());
    assert!(p.title.is_none());
    assert!(p.artist.is_none());
    assert!(p.active_line.is_none());
    assert!(p.next_line.is_none());
    assert!(p.position_ms.is_none());
    assert!(p.is_playing.is_none());
    assert!(p.active_segments.is_none());
    assert!(p.next_segments.is_none());
    assert!(p.active_translation.is_none());
    assert!(p.next_translation.is_none());
    assert!(p.show_translation.is_none());
}

#[test]
fn default_segment_has_every_field_absent() {
    let s = FuriganaSegment::default();
    assert!(s.original.is_none());
    assert!(s.annotation.is_none());
    assert!(s.segment_type.is_none());
}

#[test]
fn clone_keeps_every_field() {
    let p = full_payload();
    let q = p.clone();
    assert_eq!(q.track_id.as_deref(), Some("track-7"));
    assert_eq!(q.title.as_deref(), Some("夜に駆ける"));
    assert_eq!(q.artist.as_deref(), Some("YOASOBI"));
    assert_eq!(q.active_line.as_deref(), Some("沈むように"));
    assert_eq!(q.next_line.as_deref(), Some("溶けてゆくように"));
    assert_eq!(q.position_ms, Some(61_250));
    assert_eq!(q.is_playing, Some(true));
    let runs = q.active_segments.as_ref().unwrap();
    assert_eq!(runs.len(), 2);
    assert_eq!(runs[0].original.as_deref(), Some("沈"));
    assert_eq!(runs[0].annotation.as_deref(), Some("しず"));
    assert_eq!(runs[0].segment_type.as_deref(), Some("ruby"));
    assert_eq!(runs[1].original.as_deref(), Some("むように"));
    assert_eq!(runs[1].annotation, None);
    assert_eq!(runs[1].segment_type.as_deref(), Some("plain"));
    assert_eq!(q.next_segments.as_ref().unwrap().len(), 0);
    assert_eq!(q.active_translation.as_deref(), Some("as if sinking"));
    assert_eq!(q.next_translation, None);
    assert_eq!(q.show_translation, Some(false));
    assert!(q == p);
}

#[test]
fn equal_payloads_compare_equal() {
    assert!(full_payload() == full_payload());
    assert!(LyricsPayload::default() == LyricsPayload::default());
}

#[test]
fn a_difference_in_any_one_field_is_seen() {
    let base = full_payload();

    let mut p = full_payload();
    p.track_id = None;
    assert!(p != base);

    let mut p = full_payload();
    p.title = word("other");
    assert!(p != base);

    let mut p = full_payload();
    p.artist = None;
    assert!(p != base);

    let mut p = full_payload();
    p.active_line = word("");
    assert!(p != base);

    let mut p = full_payload();
    p.next_line = None;
    assert!(p != base);

    let mut p = full_payload();
    p.position_ms = Some(61_251);
    assert!(p != base);

    let mut p = full_payload();
    p.is_playing = Some(false);
    assert!(p != base);

    let mut p = full_payload();
    p.active_segments = None;
    assert!(p != base);

    let mut p = full_payload();
    p.next_segments = None;
    assert!(p != base);

    let mut p = full_payload();
    p.active_translation = None;
    assert!(p != base);

    let mut p = full_payload();
    p.next_translation = word("x");
    assert!(p != base);

    let mut p = full_payload();
    p.show_translation = None;
    assert!(p != base);
}

#[test]
fn absent_and_empty_are_different() {
    let mut some_empty = LyricsPayload::default();
    some_empty.active_line = word("");
    assert!(some_empty != LyricsPayload::default());

    let mut no_runs = LyricsPayload::default();
    no_runs.active_segments = Some(vec![]);
    assert!(no_runs != LyricsPayload::default());
}

#[test]
fn run_lists_compare_by_length_order_and_content() {
    let mut a = LyricsPayload::default();
    let mut b = LyricsPayload::default();
    a.active_segments = Some(vec![ruby("君", "きみ"), ruby("夜", "よる")]);
    b.active_segments = Some(vec![ruby("君", "きみ"), ruby("夜", "よる")]);
    assert!(a == b);

    b.active_segments = Some(vec![ruby("夜", "よる"), ruby("君", "きみ")]);
    assert!(a != b);

    b.active_segments = Some(vec![ruby("君", "きみ")]);
    assert!(a != b);

    b.active_segments = Some(vec![ruby("君", "きみ"), ruby("夜", "よ")]);
    assert!(a != b);
}

#[test]
fn segments_compare_field_by_field() {
    assert!(ruby("君", "きみ") == ruby("君", "きみ"));
    assert!(ruby("君", "きみ") != ruby("君", "くん"));
    assert!(ruby("君", "きみ") != ruby("僕", "きみ"));
    let mut plain = ruby("君", "きみ");
    plain.segment_type = None;
    assert!(plain != ruby("君", "きみ"));
    assert!(ruby("君", "きみ").clone() == ruby("君", "きみ"));
}
