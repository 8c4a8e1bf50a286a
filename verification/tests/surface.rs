use desktop_lyrics::{
    clone_payload, get_lyrics_state, update_lyrics, update_payload, Level, LockUse,
    LyricsPayload, Note, Store, SyncError, UPDATE_EVENT,
};

fn line(active: &str, playing: bool) -> LyricsPayload {
    let mut p = LyricsPayload::default();
    p.active_line = Some(active.to_string());
    p.is_playing = Some(playing);
    p
}

/// Serves one update against a store and a list of records that stands for
/// what a listener has received. `failure` is the reason the announcer gives
/// when it cannot deliver.
fn serve_update(
    guard: Option<&mut Store>,
    payload: LyricsPayload,
    heard: &mut Vec<(String, LyricsPayload)>,
    failure: Option<&str>,
    log: &mut Vec<Note>,
) -> Result<LyricsPayload, SyncError> {
    let announcement = update_payload(guard, payload)?;
    let delivery = match failure {
        None => {
            heard.push((announcement.event().to_string(), announcement.payload().clone()));
            Ok(())
        }
        Some(reason) => Err(reason.to_string()),
    };
    let settled = announcement.settle(delivery);
    log.extend(settled.note);
    settled.result
}

#[test]
fn update_event_is_named_lyrics_update() {
    assert_eq!(UPDATE_EVENT, "lyrics:update");
}

#[test]
fn reading_through_a_sound_guard_copies_the_record() {
    let mut store = Store::new();
    store.replace(line("la la", true));
    let read = clone_payload(Some(&store));
    assert!(read == Ok(line("la la", true)));
}

#[test]
fn reading_through_a_broken_guard_is_lock_unavailable() {
    assert!(clone_payload(None) == Err(SyncError::LockUnavailable(LockUse::Read)));
}

#[test]
fn updating_through_a_sound_guard_stores_and_owes_one_announcement() {
    let mut store = Store::new();
    let owed = update_payload(Some(&mut store), line("hello", true));
    let announcement = owed.unwrap();
    assert_eq!(announcement.event(), "lyrics:update");
    assert!(*announcement.payload() == line("hello", true));
    assert!(store.get() == line("hello", true));
}

#[test]
fn updating_through_a_broken_guard_is_lock_unavailable() {
    let owed = update_payload(None, line("hello", true));
    assert_eq!(owed.unwrap_err(), SyncError::LockUnavailable(LockUse::Write));
}

#[test]
fn a_delivered_announcement_gives_the_stored_record() {
    let mut store = Store::new();
    let announcement = update_payload(Some(&mut store), line("hello", true)).unwrap();
    let settled = announcement.settle(Ok(()));
    assert!(settled.result == Ok(line("hello", true)));
    assert_eq!(settled.note, None);
}

#[test]
fn a_failed_announcement_is_reported_and_logged_but_the_record_stays() {
    let mut store = Store::new();
    let announcement = update_payload(Some(&mut store), line("hello", true)).unwrap();
    let settled = announcement.settle(Err("no listeners left".to_string()));
    assert!(settled.result == Err(SyncError::BroadcastFailure("no listeners left".to_string())));
    assert_eq!(
        settled.note,
        Some(Note { level: Level::Error, text: "广播歌词更新失败: no listeners left".to_string() })
    );
    assert!(store.get() == line("hello", true));
}

#[test]
fn every_update_that_takes_hold_is_heard_once_with_its_record() {
    let mut store = Store::new();
    let mut heard = Vec::new();
    let mut log = Vec::new();

    let r = serve_update(Some(&mut store), line("one", true), &mut heard, None, &mut log);
    assert!(r == Ok(line("one", true)));
    assert_eq!(heard.len(), 1);

    let r = serve_update(None, line("lost", true), &mut heard, None, &mut log);
    assert!(r == Err(SyncError::LockUnavailable(LockUse::Write)));
    assert_eq!(heard.len(), 1);

    let r = serve_update(Some(&mut store), line("two", false), &mut heard, None, &mut log);
    assert!(r == Ok(line("two", false)));

    assert_eq!(heard.len(), 2);
    assert_eq!(heard[0].0, "lyrics:update");
    assert!(heard[0].1 == line("one", true));
    assert_eq!(heard[1].0, "lyrics:update");
    assert!(heard[1].1 == line("two", false));
    assert!(store.get() == line("two", false));
    assert!(log.is_empty());
}

#[test]
fn the_same_record_twice_is_heard_twice() {
    let mut store = Store::new();
    let mut heard = Vec::new();
    let mut log = Vec::new();
    let first = serve_update(Some(&mut store), line("same", true), &mut heard, None, &mut log);
    let after_first = store.get();
    let second = serve_update(Some(&mut store), line("same", true), &mut heard, None, &mut log);
    assert!(first == Ok(line("same", true)));
    assert!(second == Ok(line("same", true)));
    assert!(store.get() == after_first);
    assert_eq!(heard.len(), 2);
    assert!(heard[0].1 == line("same", true));
    assert!(heard[1].1 == line("same", true));
}

#[test]
fn get_lyrics_state_returns_the_record() {
    let mut store = Store::new();
    store.replace(line("now", false));
    assert!(get_lyrics_state(Some(&store)) == Ok(line("now", false)));
}

#[test]
fn get_lyrics_state_on_a_fresh_store_returns_the_empty_record() {
    let store = Store::new();
    assert!(get_lyrics_state(Some(&store)) == Ok(LyricsPayload::default()));
}

#[test]
fn get_lyrics_state_reports_a_broken_guard_in_words() {
    assert!(get_lyrics_state(None) == Err("无法读取歌词状态".to_string()));
}

#[test]
fn update_lyrics_says_nothing_on_success() {
    assert_eq!(update_lyrics(Ok(line("x", true))), Ok(()));
}

#[test]
fn update_lyrics_reports_a_broken_guard_in_words() {
    assert_eq!(
        update_lyrics(Err(SyncError::LockUnavailable(LockUse::Write))),
        Err("无法获取歌词状态锁".to_string())
    );
}

#[test]
fn update_lyrics_reports_a_failed_announcement_with_the_announcers_words() {
    let mut store = Store::new();
    let mut heard = Vec::new();
    let mut log = Vec::new();
    let ended =
        serve_update(Some(&mut store), line("x", true), &mut heard, Some("bus closed"), &mut log);
    assert_eq!(update_lyrics(ended), Err("bus closed".to_string()));
    assert!(store.get() == line("x", true));
    assert_eq!(log.len(), 1);
    assert_eq!(log[0].level, Level::Error);
    assert_eq!(log[0].text, "广播歌词更新失败: bus closed");
}

#[test]
fn command_write_then_command_read_returns_what_was_written() {
    let mut store = Store::new();
    let mut heard = Vec::new();
    let mut log = Vec::new();
    let ended = serve_update(Some(&mut store), line("cmd", true), &mut heard, None, &mut log);
    assert_eq!(update_lyrics(ended), Ok(()));
    assert!(get_lyrics_state(Some(&store)) == Ok(line("cmd", true)));
}
