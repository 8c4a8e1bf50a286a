use desktop_lyrics::{FuriganaSegment, LyricsPayload, Store};

fn line(active: &str, playing: bool) -> LyricsPayload {
    let mut p = LyricsPayload::default();
    p.active_line = Some(active.to_string());
    p.is_playing = Some(playing);
    p
}

#[test]
fn new_store_holds_the_empty_record() {
    assert!(Store::new().get() == LyricsPayload::default());
    assert!(Store::default().get() == LyricsPayload::default());
}

#[test]
fn get_after_replace_returns_what_was_replaced() {
    let mut store = Store::new();
    let stored = store.replace(line("hello", true));
    assert!(stored == line("hello", true));
    assert!(store.get() == line("hello", true));
}

#[test]
fn replace_overwrites_and_does_not_merge() {
    let mut store = Store::new();
    let mut first = LyricsPayload::default();
    first.title = Some("Song".to_string());
    first.position_ms = Some(1_000);
    first.active_segments = Some(vec![FuriganaSegment {
        original: Some("君".to_string()),
        annotation: Some("きみ".to_string()),
        segment_type: None,
    }]);
    store.replace(first);

    store.replace(line("only this", false));
    let now = store.get();
    assert_eq!(now.title, None);
    assert_eq!(now.position_ms, None);
    assert!(now.active_segments.is_none());
    assert_eq!(now.active_line.as_deref(), Some("only this"));
    assert_eq!(now.is_playing, Some(false));
}

#[test]
fn replacing_with_the_empty_record_clears_everything() {
    let mut store = Store::new();
    store.replace(line("something", true));
    store.replace(LyricsPayload::default());
    assert!(store.get() == LyricsPayload::default());
}

#[test]
fn of_two_writers_the_later_one_is_read_back_whole() {
    let a = || {
        let mut p = line("from a", true);
        p.title = Some("A".to_string());
        p
    };
    let b = || {
        let mut p = line("from b", false);
        p.artist = Some("B".to_string());
        p
    };

    let mut store = Store::new();
    store.replace(a());
    store.replace(b());
    assert!(store.get() == b());

    let mut store = Store::new();
    store.replace(b());
    store.replace(a());
    assert!(store.get() == a());
}

#[test]
fn replacing_twice_with_the_same_record_changes_nothing_more() {
    let mut store = Store::new();
    store.replace(line("again", true));
    let after_one = store.get();
    store.replace(line("again", true));
    assert!(store.get() == after_one);
}

#[test]
fn get_hands_out_a_copy() {
    let mut store = Store::new();
    store.replace(line("kept", true));
    let mut copy = store.get();
    copy.active_line = Some("changed outside".to_string());
    assert!(store.get() == line("kept", true));
}
