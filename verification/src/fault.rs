//! What can go wrong at the front doors, and the words each failure is
//! reported with.

use vstd::prelude::*;
use vstd::string::*;

verus! {

/// What the store's guard was wanted for when it turned out to be broken.
#[derive(Debug, Clone, Copy, PartialEq, Eq, Structural)]
pub enum LockUse {
    Read,
    Write,
}

/// Mathematical value of a [`SyncError`].
pub enum SyncErrorView {
    LockUnavailable(LockUse),
    BroadcastFailure(Seq<char>),
    WindowNotFound,
    WindowFailure(Seq<char>),
    BindFailure(Seq<char>),
    ServerStopped(Seq<char>),
}

/// A failure of one of the front doors.
#[derive(Debug, PartialEq, Eq)]
pub enum SyncError {
    /// The store's guard is broken: an earlier holder died while holding it.
    LockUnavailable(LockUse),
    /// The record was stored, but announcing it failed; holds the announcer's
    /// own account of the failure.
    BroadcastFailure(String),
    /// There is no main window to bring forward.
    WindowNotFound,
    /// The main window exists but could not be shown; holds the window
    /// system's account of the failure.
    WindowFailure(String),
    /// The listener could not take its port; holds the reason given.
    BindFailure(String),
    /// The listener stopped serving; holds the reason given.
    ServerStopped(String),
}

impl View for SyncError {
    type V = SyncErrorView;

    open spec fn view(&self) -> SyncErrorView {
        match *self {
            SyncError::LockUnavailable(u) => SyncErrorView::LockUnavailable(u),
            SyncError::BroadcastFailure(s) => SyncErrorView::BroadcastFailure(s@),
            SyncError::WindowNotFound => SyncErrorView::WindowNotFound,
            SyncError::WindowFailure(s) => SyncErrorView::WindowFailure(s@),
            SyncError::BindFailure(s) => SyncErrorView::BindFailure(s@),
            SyncError::ServerStopped(s) => SyncErrorView::ServerStopped(s@),
        }
    }
}

/// The text a failure is reported with.
pub open spec fn message_of(e: SyncErrorView) -> Seq<char> {
    match e {
        SyncErrorView::LockUnavailable(LockUse::Read) => "无法读取歌词状态"@,
        SyncErrorView::LockUnavailable(LockUse::Write) => "无法获取歌词状态锁"@,
        SyncErrorView::BroadcastFailure(s) => s,
        SyncErrorView::WindowNotFound => "找不到桌面歌词窗口"@,
        SyncErrorView::WindowFailure(s) => s,
        SyncErrorView::BindFailure(s) => "绑定桌面歌词端口失败: "@ + s,
        SyncErrorView::ServerStopped(s) => "桌面歌词服务意外退出: "@ + s,
    }
}

/// The HTTP status a failure is answered with: 404 where the thing asked for
/// does not exist, 500 for everything else.
pub open spec fn status_of(e: SyncErrorView) -> u16 {
    match e {
        SyncErrorView::WindowNotFound => 404,
        _ => 500,
    }
}

impl SyncError {
    /// The text this failure is reported with.
    pub fn message(&self) -> (res: String)
        ensures
            res@ == message_of(self@),
    {
        match self {
            SyncError::LockUnavailable(LockUse::Read) => String::from_str("无法读取歌词状态"),
            SyncError::LockUnavailable(LockUse::Write) => String::from_str("无法获取歌词状态锁"),
            SyncError::BroadcastFailure(s) => s.clone(),
            SyncError::WindowNotFound => String::from_str("找不到桌面歌词窗口"),
            SyncError::WindowFailure(s) => s.clone(),
            SyncError::BindFailure(s) => String::from_str("绑定桌面歌词端口失败: ").concat(
                s.as_str(),
            ),
            SyncError::ServerStopped(s) => String::from_str("桌面歌词服务意外退出: ").concat(
                s.as_str(),
            ),
        }
    }

    /// The HTTP status this failure is answered with.
    pub fn status(&self) -> (res: u16)
        ensures
            res == status_of(self@),
    {
        match self {
            SyncError::WindowNotFound => 404,
            _ => 500,
        }
    }
}

impl Clone for SyncError {
    fn clone(&self) -> (res: Self)
        ensures
            res@ == self@,
    {
        match self {
            SyncError::LockUnavailable(u) => SyncError::LockUnavailable(*u),
            SyncError::BroadcastFailure(s) => SyncError::BroadcastFailure(s.clone()),
            SyncError::WindowNotFound => SyncError::WindowNotFound,
            SyncError::WindowFailure(s) => SyncError::WindowFailure(s.clone()),
            SyncError::BindFailure(s) => SyncError::BindFailure(s.clone()),
            SyncError::ServerStopped(s) => SyncError::ServerStopped(s.clone()),
        }
    }
}

} // verus!
