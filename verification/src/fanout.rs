//! Announcing a stored record to everyone who listens for it.
//!
//! The listeners live with the host; this module decides what is announced
//! and what a failed announcement means for the caller.

use crate::fault::{SyncError, SyncErrorView};
use crate::note::{note_view, Level, Note, NoteView};
use crate::payload::{LyricsPayload, PayloadView};
use vstd::prelude::*;

verus! {

/// Name of the event under which every stored record is announced.
pub const UPDATE_EVENT: &'static str = "lyrics:update";

/// Mathematical value of what the host reports of a delivery: done, or the
/// reason it failed.
pub open spec fn delivery_view(delivery: Result<(), String>) -> Result<(), Seq<char>> {
    match delivery {
        Ok(_) => Ok(()),
        Err(e) => Err(e@),
    }
}

/// Mathematical value of a record or the failure that stood in its way.
pub open spec fn outcome_view(outcome: Result<LyricsPayload, SyncError>) -> Result<
    PayloadView,
    SyncErrorView,
> {
    match outcome {
        Ok(p) => Ok(p@),
        Err(e) => Err(e@),
    }
}

/// What the caller of an update is told once the announcement was attempted:
/// the stored record when it went out, the announcer's failure when it did
/// not. The record stays stored either way.
pub open spec fn settled_outcome(announced: PayloadView, delivery: Result<(), Seq<char>>) -> Result<
    PayloadView,
    SyncErrorView,
> {
    match delivery {
        Ok(_) => Ok(announced),
        Err(e) => Err(SyncErrorView::BroadcastFailure(e)),
    }
}

/// The log line a delivery calls for: none when it went out, an error line
/// naming the reason when it did not.
pub open spec fn settled_note(delivery: Result<(), Seq<char>>) -> Option<NoteView> {
    match delivery {
        Ok(_) => None,
        Err(e) => Some(NoteView { level: Level::Error, text: "广播歌词更新失败: "@ + e }),
    }
}

/// One record that has been stored and is now owed to the listeners.
///
/// Only a replacement that took hold makes one, and settling consumes it, so
/// each stands for exactly one announcement.
#[derive(Debug)]
pub struct Announcement {
    payload: LyricsPayload,
}

impl View for Announcement {
    type V = PayloadView;

    closed spec fn view(&self) -> PayloadView {
        self.payload@
    }
}

/// An update after its announcement was attempted.
#[derive(Debug)]
pub struct Settled {
    /// What the caller is told.
    pub result: Result<LyricsPayload, SyncError>,
    /// What the host writes to its log, if anything.
    pub note: Option<Note>,
}

impl Announcement {
    /// The announcement owed for `payload`, which the caller has just stored.
    pub(crate) fn owed(payload: LyricsPayload) -> (res: Announcement)
        ensures
            res@ == payload@,
    {
        Announcement { payload }
    }

    /// The event name to announce under.
    pub fn event(&self) -> (res: &'static str)
        ensures
            res@ == UPDATE_EVENT@,
    {
        UPDATE_EVENT
    }

    /// The record to announce.
    pub fn payload(&self) -> (res: &LyricsPayload)
        ensures
            res@ == self@,
    {
        &self.payload
    }

    /// Closes the update once the host has tried to deliver the announcement.
    ///
    /// A delivery that went out gives the caller the stored record. One that
    /// failed gives the caller the announcer's reason and the host an error
    /// line for its log; the record is not taken back.
    pub fn settle(self, delivery: Result<(), String>) -> (res: Settled)
        ensures
            outcome_view(res.result) == settled_outcome(self@, delivery_view(delivery)),
            note_view(res.note) == settled_note(delivery_view(delivery)),
    {
        match delivery {
            Ok(_) => Settled { result: Ok(self.payload), note: None },
            Err(reason) => {
                let note = Note::headed(Level::Error, "广播歌词更新失败: ", reason.as_str());
                Settled { result: Err(SyncError::BroadcastFailure(reason)), note: Some(note) }
            },
        }
    }
}

} // verus!
