//! Synchronisation core of a desktop lyrics display: one shared record of the
//! line currently shown, the rule that every replacement is announced once,
//! and the two front doors (commands and loopback HTTP) that reach it.
//!
//! Nothing here touches the network, the window system or a lock. The host
//! takes the guard, delivers announcements and moves windows; this crate
//! decides what is stored, what is announced, what is asked of the window
//! system next, and what every caller is told.

pub mod fanout;
pub mod fault;
pub mod history;
pub mod http;
pub mod note;
pub mod payload;
pub mod store;
pub mod surface;
pub mod window;

pub use fanout::{Announcement, Settled, UPDATE_EVENT};
pub use fault::{LockUse, SyncError, SyncErrorView};
pub use http::{
    handle_get_lyrics, handle_health, handle_post_lyrics, handle_show_window, listen_address,
    startup_note, Body, BodyView, Endpoint, ListenAddress, Method, Response, ResponseView,
    LYRICS_SERVER_PORT,
};
pub use note::{Level, Note, NoteView};
pub use payload::{FuriganaSegment, LyricsPayload, PayloadView, SegmentView};
pub use store::Store;
pub use surface::{clone_payload, get_lyrics_state, update_lyrics, update_payload};
pub use window::{Report, ReportView, ShowFlow, ShowStep, ShowStepView, WindowAction, MAIN_WINDOW};
