//! Bringing the main window forward: what to ask of the window system, in
//! which order, and what each answer leads to.
//!
//! The window belongs to the host. The flow here only says which step comes
//! next; the host performs it and reports back.

use crate::fault::{SyncError, SyncErrorView};
use crate::note::{note_view, Level, Note, NoteView};
use vstd::prelude::*;

verus! {

/// Logical name of the window that is brought forward.
pub const MAIN_WINDOW: &'static str = "main";

/// One thing the host is asked to do with the main window.
#[derive(Debug, Clone, Copy, PartialEq, Eq, Structural)]
pub enum WindowAction {
    /// Look the window up by [`MAIN_WINDOW`].
    Locate,
    /// Move it to the middle of the screen.
    Center,
    /// Make it visible.
    Reveal,
    /// Give it the input focus.
    Focus,
}

/// Mathematical value of a [`Report`].
pub enum ReportView {
    Done,
    Missing,
    Failed(Seq<char>),
}

/// What the host found when it did what it was asked.
#[derive(Debug, PartialEq, Eq)]
pub enum Report {
    /// It worked.
    Done,
    /// There is no such window.
    Missing,
    /// It failed, for the reason given.
    Failed(String),
}

impl View for Report {
    type V = ReportView;

    open spec fn view(&self) -> ReportView {
        match *self {
            Report::Done => ReportView::Done,
            Report::Missing => ReportView::Missing,
            Report::Failed(e) => ReportView::Failed(e@),
        }
    }
}

/// How far a request to show the main window has come: the step whose
/// report is awaited.
#[derive(Debug, Clone, Copy, PartialEq, Eq, Structural)]
pub enum ShowFlow {
    /// Waiting to hear whether the window exists.
    Locating,
    /// Waiting to hear whether it was centred.
    Centering,
    /// Waiting to hear whether it was made visible.
    Revealing,
    /// Waiting to hear whether it took the focus.
    Focusing,
}

/// Mathematical value of a [`ShowStep`].
pub enum ShowStepView {
    Next { flow: ShowFlow, note: Option<NoteView> },
    Done { outcome: Result<(), SyncErrorView>, note: Option<NoteView> },
}

/// What a report leads to: the next step to wait for, or the end of the
/// flow. Either may leave a line for the log.
#[derive(Debug, PartialEq, Eq)]
pub enum ShowStep {
    Next { flow: ShowFlow, note: Option<Note> },
    Done { outcome: Result<(), SyncError>, note: Option<Note> },
}

/// Mathematical value of the end of a flow.
pub open spec fn shown_view(outcome: Result<(), SyncError>) -> Result<(), SyncErrorView> {
    match outcome {
        Ok(_) => Ok(()),
        Err(e) => Err(e@),
    }
}

impl View for ShowStep {
    type V = ShowStepView;

    open spec fn view(&self) -> ShowStepView {
        match *self {
            ShowStep::Next { flow, note } => ShowStepView::Next { flow, note: note_view(note) },
            ShowStep::Done { outcome, note } => ShowStepView::Done {
                outcome: shown_view(outcome),
                note: note_view(note),
            },
        }
    }
}

/// What the host is asked to do while the flow stands at `flow`.
pub open spec fn action_of(flow: ShowFlow) -> WindowAction {
    match flow {
        ShowFlow::Locating => WindowAction::Locate,
        ShowFlow::Centering => WindowAction::Center,
        ShowFlow::Revealing => WindowAction::Reveal,
        ShowFlow::Focusing => WindowAction::Focus,
    }
}

/// The warning logged when centring or focusing failed for `reason`.
pub open spec fn warning_of(flow: ShowFlow, reason: Seq<char>) -> NoteView {
    NoteView {
        level: Level::Warn,
        text: if flow == ShowFlow::Centering {
            "居中桌面歌词窗口失败: "@
        } else {
            "设置桌面歌词窗口焦点失败: "@
        } + reason,
    }
}

/// Where the flow goes on the host's report about the pending action.
///
/// A window that was not found ends the flow. A window that cannot be made
/// visible ends it too. Failing to centre it or to focus it only leaves a
/// warning: the flow goes on as if the step had worked.
pub open spec fn after_report(flow: ShowFlow, report: ReportView) -> ShowStepView {
    match flow {
        ShowFlow::Locating => match report {
            ReportView::Done => ShowStepView::Next { flow: ShowFlow::Centering, note: None },
            _ => ShowStepView::Done { outcome: Err(SyncErrorView::WindowNotFound), note: None },
        },
        ShowFlow::Centering => ShowStepView::Next {
            flow: ShowFlow::Revealing,
            note: match report {
                ReportView::Failed(e) => Some(warning_of(flow, e)),
                _ => None,
            },
        },
        ShowFlow::Revealing => match report {
            ReportView::Failed(e) => ShowStepView::Done {
                outcome: Err(SyncErrorView::WindowFailure(e)),
                note: None,
            },
            _ => ShowStepView::Next { flow: ShowFlow::Focusing, note: None },
        },
        ShowFlow::Focusing => ShowStepView::Done {
            outcome: Ok(()),
            note: match report {
                ReportView::Failed(e) => Some(warning_of(flow, e)),
                _ => None,
            },
        },
    }
}

impl ShowFlow {
    /// A new request: the window has yet to be located.
    pub fn begin() -> (res: ShowFlow)
        ensures
            res == ShowFlow::Locating,
    {
        ShowFlow::Locating
    }

    /// What the host must do next.
    pub fn action(&self) -> (res: WindowAction)
        ensures
            res == action_of(*self),
    {
        match self {
            ShowFlow::Locating => WindowAction::Locate,
            ShowFlow::Centering => WindowAction::Center,
            ShowFlow::Revealing => WindowAction::Reveal,
            ShowFlow::Focusing => WindowAction::Focus,
        }
    }

    /// Takes the host's report on the pending action and says what follows.
    pub fn step(self, report: Report) -> (res: ShowStep)
        ensures
            res@ == after_report(self, report@),
    {
        match self {
            ShowFlow::Locating => match report {
                Report::Done => ShowStep::Next { flow: ShowFlow::Centering, note: None },
                _ => ShowStep::Done { outcome: Err(SyncError::WindowNotFound), note: None },
            },
            ShowFlow::Centering => match report {
                Report::Failed(reason) => ShowStep::Next {
                    flow: ShowFlow::Revealing,
                    note: Some(Note::headed(Level::Warn, "居中桌面歌词窗口失败: ", reason.as_str())),
                },
                _ => ShowStep::Next { flow: ShowFlow::Revealing, note: None },
            },
            ShowFlow::Revealing => match report {
                Report::Failed(reason) => ShowStep::Done {
                    outcome: Err(SyncError::WindowFailure(reason)),
                    note: None,
                },
                _ => ShowStep::Next { flow: ShowFlow::Focusing, note: None },
            },
            ShowFlow::Focusing => match report {
                Report::Failed(reason) => ShowStep::Done {
                    outcome: Ok(()),
                    note: Some(
                        Note::headed(Level::Warn, "设置桌面歌词窗口焦点失败: ", reason.as_str()),
                    ),
                },
                _ => ShowStep::Done { outcome: Ok(()), note: None },
            },
        }
    }
}

/// A flow played through: what the host was asked to do, in order, what it
/// was told to log, in order, and how the flow ended if it did.
pub struct ShowRun {
    pub asked: Seq<WindowAction>,
    pub logged: Seq<NoteView>,
    pub outcome: Option<Result<(), SyncErrorView>>,
}

/// The lines of a log that gained at most one more line.
pub open spec fn with_note(logged: Seq<NoteView>, note: Option<NoteView>) -> Seq<NoteView> {
    match note {
        Some(n) => logged.push(n),
        None => logged,
    }
}

/// Plays a flow from `flow` on against the host's reports, taken in order.
/// Reports left over once the flow has ended are not looked at.
pub open spec fn show_run(flow: ShowFlow, reports: Seq<ReportView>) -> ShowRun
    decreases reports.len(),
{
    if reports.len() == 0 {
        ShowRun { asked: Seq::empty(), logged: Seq::empty(), outcome: None }
    } else {
        match after_report(flow, reports[0]) {
            ShowStepView::Done { outcome, note } => ShowRun {
                asked: seq![action_of(flow)],
                logged: with_note(Seq::empty(), note),
                outcome: Some(outcome),
            },
            ShowStepView::Next { flow: next, note } => {
                let rest = show_run(next, reports.drop_first());
                ShowRun {
                    asked: seq![action_of(flow)] + rest.asked,
                    logged: with_note(Seq::empty(), note) + rest.logged,
                    outcome: rest.outcome,
                }
            },
        }
    }
}

/// What a request to show the window comes to, told from two reports alone:
/// not found unless the window was located, the window system's failure when
/// it could not be made visible, success otherwise.
pub open spec fn show_outcome(located: ReportView, revealed: ReportView) -> Result<
    (),
    SyncErrorView,
> {
    if located != ReportView::Done {
        Err(SyncErrorView::WindowNotFound)
    } else {
        match revealed {
            ReportView::Failed(e) => Err(SyncErrorView::WindowFailure(e)),
            _ => Ok(()),
        }
    }
}

/// A window that is not there ends the flow at once: the host is asked to
/// locate it and nothing more, nothing is logged, and the request fails with
/// `WindowNotFound`.
pub proof fn lemma_missing_window_ends_flow(reports: Seq<ReportView>)
    requires
        reports.len() >= 1,
        reports[0] != ReportView::Done,
    ensures
        show_run(ShowFlow::Locating, reports).asked == seq![WindowAction::Locate],
        show_run(ShowFlow::Locating, reports).logged == Seq::<NoteView>::empty(),
        show_run(ShowFlow::Locating, reports).outcome == Some(
            Err::<(), SyncErrorView>(SyncErrorView::WindowNotFound),
        ),
{
}

/// A window that cannot be made visible ends the flow there: the host is
/// never asked to focus it, and the request fails with the window system's
/// reason. A failure to centre it beforehand is logged and changes nothing
/// else.
pub proof fn lemma_hidden_window_ends_flow(reports: Seq<ReportView>, reason: Seq<char>)
    requires
        reports.len() >= 3,
        reports[0] == ReportView::Done,
        reports[2] == ReportView::Failed(reason),
    ensures
        show_run(ShowFlow::Locating, reports).asked == seq![
            WindowAction::Locate,
            WindowAction::Center,
            WindowAction::Reveal,
        ],
        show_run(ShowFlow::Locating, reports).outcome == Some(
            Err::<(), SyncErrorView>(SyncErrorView::WindowFailure(reason)),
        ),
        show_run(ShowFlow::Locating, reports).logged == match reports[1] {
            ReportView::Failed(e) => seq![warning_of(ShowFlow::Centering, e)],
            _ => Seq::<NoteView>::empty(),
        },
{
    let r1 = reports.drop_first();
    let r2 = r1.drop_first();
    assert(r1[0] == reports[1]);
    assert(r2[0] == reports[2]);
    let run2 = show_run(ShowFlow::Revealing, r2);
    assert(run2.asked == seq![WindowAction::Reveal]);
    assert(run2.logged =~= Seq::<NoteView>::empty());
    let run1 = show_run(ShowFlow::Centering, r1);
    assert(run1.asked =~= seq![WindowAction::Center, WindowAction::Reveal]);
    assert(run1.logged =~= match reports[1] {
        ReportView::Failed(e) => seq![warning_of(ShowFlow::Centering, e)],
        _ => Seq::<NoteView>::empty(),
    });
    let run0 = show_run(ShowFlow::Locating, reports);
    assert(run0.asked =~= seq![WindowAction::Locate, WindowAction::Center, WindowAction::Reveal]);
    assert(run0.logged =~= run1.logged);
}

/// Four reports always end a flow, and how it ends depends only on whether
/// the window was located and whether it could be made visible.
pub proof fn lemma_show_flow_finishes(reports: Seq<ReportView>)
    requires
        reports.len() >= 4,
    ensures
        show_run(ShowFlow::Locating, reports).outcome == Some(
            show_outcome(reports[0], reports[2]),
        ),
        show_run(ShowFlow::Locating, reports).asked.len() <= 4,
{
    let r1 = reports.drop_first();
    let r2 = r1.drop_first();
    let r3 = r2.drop_first();
    assert(r1[0] == reports[1]);
    assert(r2[0] == reports[2]);
    assert(r3[0] == reports[3]);
    let run3 = show_run(ShowFlow::Focusing, r3);
    assert(run3.outcome == Some(Ok::<(), SyncErrorView>(())));
    assert(run3.asked.len() == 1);
    let run2 = show_run(ShowFlow::Revealing, r2);
    assert(run2.asked.len() <= 2);
    let run1 = show_run(ShowFlow::Centering, r1);
    assert(run1.asked.len() <= 3);
}

/// A flow in which every step works asks for all four actions in order, logs
/// nothing and succeeds.
pub proof fn lemma_show_flow_in_full()
    ensures
        show_run(
            ShowFlow::Locating,
            seq![ReportView::Done, ReportView::Done, ReportView::Done, ReportView::Done],
        ) == (ShowRun {
            asked: seq![
                WindowAction::Locate,
                WindowAction::Center,
                WindowAction::Reveal,
                WindowAction::Focus,
            ],
            logged: Seq::empty(),
            outcome: Some(Ok(())),
        }),
{
    let reports = seq![ReportView::Done, ReportView::Done, ReportView::Done, ReportView::Done];
    let r1 = reports.drop_first();
    let r2 = r1.drop_first();
    let r3 = r2.drop_first();
    let run3 = show_run(ShowFlow::Focusing, r3);
    assert(run3.asked =~= seq![WindowAction::Focus]);
    assert(run3.logged =~= Seq::<NoteView>::empty());
    let run2 = show_run(ShowFlow::Revealing, r2);
    assert(run2.asked =~= seq![WindowAction::Reveal, WindowAction::Focus]);
    assert(run2.logged =~= Seq::<NoteView>::empty());
    let run1 = show_run(ShowFlow::Centering, r1);
    assert(run1.asked =~= seq![WindowAction::Center, WindowAction::Reveal, WindowAction::Focus]);
    assert(run1.logged =~= Seq::<NoteView>::empty());
    let run0 = show_run(ShowFlow::Locating, reports);
    assert(run0.asked =~= seq![
        WindowAction::Locate,
        WindowAction::Center,
        WindowAction::Reveal,
        WindowAction::Focus,
    ]);
    assert(run0.logged =~= Seq::<NoteView>::empty());
}

} // verus!
