//! The operations behind both front doors: read the record, replace it, and
//! the replies the in-process commands give.
//!
//! The store sits behind a guard that the host takes before it calls in
//! here. What the host got is handed over as an `Option`: the store when the
//! guard was sound, `None` when it was found broken.

use crate::fanout::{outcome_view, Announcement};
use crate::fault::{message_of, LockUse, SyncError, SyncErrorView};
use crate::payload::{LyricsPayload, PayloadView};
use crate::store::{replaced, Store};
use vstd::prelude::*;

verus! {

/// Mathematical value of what taking the guard for reading gave.
pub open spec fn guard_view(guard: Option<&Store>) -> Option<PayloadView> {
    match guard {
        Some(s) => Some(s@),
        None => None,
    }
}

/// What a read comes to: the record as it stands, or a refusal when the
/// guard is broken.
pub open spec fn read_outcome(guard: Option<PayloadView>) -> Result<PayloadView, SyncErrorView> {
    match guard {
        Some(record) => Ok(record),
        None => Err(SyncErrorView::LockUnavailable(LockUse::Read)),
    }
}

/// What a replacement comes to before it is announced: the new record, now
/// stored, or a refusal when the guard is broken.
pub open spec fn write_outcome(held: bool, new: PayloadView) -> Result<PayloadView, SyncErrorView> {
    if held {
        Ok(new)
    } else {
        Err(SyncErrorView::LockUnavailable(LockUse::Write))
    }
}

/// Mathematical value of an announcement or the failure that prevented it.
pub open spec fn owed_view(owed: Result<Announcement, SyncError>) -> Result<
    PayloadView,
    SyncErrorView,
> {
    match owed {
        Ok(a) => Ok(a@),
        Err(e) => Err(e@),
    }
}

/// What a command that returns the record tells its caller: the record, or
/// the failure's text.
pub open spec fn state_reply(outcome: Result<PayloadView, SyncErrorView>) -> Result<
    PayloadView,
    Seq<char>,
> {
    match outcome {
        Ok(record) => Ok(record),
        Err(e) => Err(message_of(e)),
    }
}

/// What a command that returns nothing tells its caller: that it worked, or
/// the failure's text.
pub open spec fn plain_reply(outcome: Result<PayloadView, SyncErrorView>) -> Result<(), Seq<char>> {
    match outcome {
        Ok(_) => Ok(()),
        Err(e) => Err(message_of(e)),
    }
}

/// Mathematical value of a record or a failure's text.
pub open spec fn state_reply_view(reply: Result<LyricsPayload, String>) -> Result<
    PayloadView,
    Seq<char>,
> {
    match reply {
        Ok(p) => Ok(p@),
        Err(e) => Err(e@),
    }
}

/// Mathematical value of a bare success or a failure's text.
pub open spec fn plain_reply_view(reply: Result<(), String>) -> Result<(), Seq<char>> {
    match reply {
        Ok(_) => Ok(()),
        Err(e) => Err(e@),
    }
}

/// Reads the record through the guard: a full copy of it when the guard was
/// sound, `LockUnavailable` when it was broken.
pub fn clone_payload(guard: Option<&Store>) -> (res: Result<LyricsPayload, SyncError>)
    ensures
        outcome_view(res) == read_outcome(guard_view(guard)),
{
    match guard {
        Some(store) => Ok(store.get()),
        None => Err(SyncError::LockUnavailable(LockUse::Read)),
    }
}

/// Replaces the record through the guard and says what is now owed to the
/// listeners.
///
/// With a sound guard the store holds exactly `payload` afterwards and the
/// result is the one announcement of it. With a broken guard nothing is
/// stored and nothing is owed.
pub fn update_payload(guard: Option<&mut Store>, payload: LyricsPayload) -> (res: Result<
    Announcement,
    SyncError,
>)
    ensures
        match guard {
            Some(store) => final(store)@ == replaced(store@, payload@),
            None => true,
        },
        owed_view(res) == write_outcome(guard is Some, payload@),
{
    match guard {
        Some(store) => Ok(Announcement::owed(store.replace(payload))),
        None => Err(SyncError::LockUnavailable(LockUse::Write)),
    }
}

/// The `getLyricsState` command: the current record, or the text of the
/// failure that kept it from being read.
pub fn get_lyrics_state(guard: Option<&Store>) -> (res: Result<LyricsPayload, String>)
    ensures
        state_reply_view(res) == state_reply(read_outcome(guard_view(guard))),
{
    match clone_payload(guard) {
        Ok(record) => Ok(record),
        Err(e) => Err(e.message()),
    }
}

/// The reply of the `updateLyrics` command, given how the update ended:
/// nothing to report when the record was stored and announced, the failure's
/// text otherwise.
pub fn update_lyrics(outcome: Result<LyricsPayload, SyncError>) -> (res: Result<(), String>)
    ensures
        plain_reply_view(res) == plain_reply(outcome_view(outcome)),
{
    match outcome {
        Ok(_) => Ok(()),
        Err(e) => Err(e.message()),
    }
}

} // verus!
