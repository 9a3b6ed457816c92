//! The background sync, a task beside the daemon.

use crate::args::DaemonArgs;
use crate::notice::{joined, say, LogLevel, LogLine};
use crate::sync::{backfill_options, SyncOptions};
use crate::text::append_decimal;
use vstd::prelude::*;

#[allow(unused_imports)]
use crate::notice::{log_text, texts, told};
#[allow(unused_imports)]
use crate::text::decimal;

verus! {

/// Seconds that the task waits, so that the listener is established before it begins.
pub const BACKFILL_DELAY_SECONDS: u64 = 2;

/// Where the task stands.
#[derive(Clone, Copy, Debug, PartialEq, Eq, Structural)]
pub enum BackfillStage {
    Begin,
    AwaitDelay,
    AwaitApp,
    AwaitSync,
    Finished,
}

/// The task.
#[derive(Clone, Copy, Debug, PartialEq, Eq, Structural)]
pub struct BackfillTask {
    pub stage: BackfillStage,
}

/// How far the background sync is, as the daemon sees it.
#[derive(Clone, Copy, Debug, PartialEq, Eq, Structural)]
pub enum BackfillPhase {
    /// It has not begun.
    Pending,
    /// It may write to the archive.
    Running,
    /// It has ended, well or badly, and does not begin again.
    Over,
}

/// What happened outside.
#[derive(Debug)]
pub enum BackfillEvent {
    Started,
    /// The delay is over; `stopping` tells that the daemon was asked to stop meanwhile.
    DelayOver { stopping: bool },
    /// The daemon was asked to stop during the delay.
    Cancelled,
    AppOpened,
    /// The application could not be opened a second time.
    AppFailed,
    Synced { chats_stored: u64, messages_stored: u64 },
    /// The sync failed, with the error's text; `stopping` tells that the daemon was asked to
    /// stop meanwhile.
    SyncFailed { error: String, stopping: bool },
}

/// What is to be done next.
#[derive(Debug)]
pub enum BackfillAction {
    Delay { seconds: u64 },
    OpenApp,
    Sync { options: SyncOptions },
    Done,
    /// Report what failed.
    Fail,
}

/// What the task says on the terminal, what goes to the log, and what is to be done next.
#[derive(Debug)]
pub struct BackfillStep {
    pub notices: Vec<String>,
    pub log: Option<LogLine>,
    pub action: BackfillAction,
}

/// What is said of a background sync that came to its end.
pub open spec fn synced_text(chats_stored: nat, messages_stored: nat) -> Seq<char> {
    "Background sync complete: "@ + decimal(chats_stored) + " chats, "@ + decimal(messages_stored)
        + " messages"@
}

fn synced(chats_stored: u64, messages_stored: u64) -> (res: String)
    ensures
        res@ == synced_text(chats_stored as nat, messages_stored as nat),
{
    let mut text = "Background sync complete: ".to_string();
    append_decimal(&mut text, chats_stored);
    text.append(" chats, ");
    append_decimal(&mut text, messages_stored);
    text.append(" messages");
    text
}

impl BackfillStep {
    /// The step says these lines, unless the daemon is quiet, and logs nothing.
    pub open spec fn says(self, args: DaemonArgs, lines: Seq<Seq<char>>) -> bool {
        &&& texts(self.notices@) == told(args, lines)
        &&& self.log is None
    }
}

impl BackfillTask {
    /// How far the background sync is.
    pub open spec fn progress(self) -> BackfillPhase {
        match self.stage {
            BackfillStage::Begin => BackfillPhase::Pending,
            BackfillStage::AwaitDelay => BackfillPhase::Pending,
            BackfillStage::AwaitApp => BackfillPhase::Running,
            BackfillStage::AwaitSync => BackfillPhase::Running,
            BackfillStage::Finished => BackfillPhase::Over,
        }
    }

    /// How far the background sync is.
    pub fn phase(&self) -> (res: BackfillPhase)
        ensures
            res == self.progress(),
    {
        match self.stage {
            BackfillStage::Begin => BackfillPhase::Pending,
            BackfillStage::AwaitDelay => BackfillPhase::Pending,
            BackfillStage::AwaitApp => BackfillPhase::Running,
            BackfillStage::AwaitSync => BackfillPhase::Running,
            BackfillStage::Finished => BackfillPhase::Over,
        }
    }

    /// The event is one that the task awaits.
    pub open spec fn admits(self, event: BackfillEvent) -> bool {
        match (self.stage, event) {
            (BackfillStage::Begin, BackfillEvent::Started) => true,
            (BackfillStage::AwaitDelay, BackfillEvent::DelayOver { stopping }) => true,
            (BackfillStage::AwaitDelay, BackfillEvent::Cancelled) => true,
            (BackfillStage::AwaitApp, BackfillEvent::AppOpened) => true,
            (BackfillStage::AwaitApp, BackfillEvent::AppFailed) => true,
            (BackfillStage::AwaitSync, BackfillEvent::Synced { chats_stored, messages_stored }) =>
                true,
            (BackfillStage::AwaitSync, BackfillEvent::SyncFailed { error, stopping }) => true,
            _ => false,
        }
    }

    /// How an event moves the task on, what it says, and what the event calls for.
    pub open spec fn moves(
        self,
        args: DaemonArgs,
        event: BackfillEvent,
        next: BackfillTask,
        step: BackfillStep,
    ) -> bool {
        match event {
            BackfillEvent::Started => {
                &&& next == (BackfillTask { stage: BackfillStage::AwaitDelay })
                &&& step.says(args, seq![])
                &&& step.action == (BackfillAction::Delay { seconds: BACKFILL_DELAY_SECONDS })
            },
            BackfillEvent::DelayOver { stopping: false } => {
                &&& next == (BackfillTask { stage: BackfillStage::AwaitApp })
                &&& step.says(args, seq!["Background sync starting..."@])
                &&& step.action is OpenApp
            },
            BackfillEvent::DelayOver { stopping: true } | BackfillEvent::Cancelled => {
                &&& next == (BackfillTask { stage: BackfillStage::Finished })
                &&& step.says(args, seq![])
                &&& step.action is Done
            },
            BackfillEvent::AppOpened => {
                &&& next == (BackfillTask { stage: BackfillStage::AwaitSync })
                &&& step.says(args, seq![])
                &&& step.action matches BackfillAction::Sync { options }
                &&& options.is_daemon_sync(args)
                &&& options.show_progress == !args.quiet
                &&& options.active_since is None
            },
            BackfillEvent::AppFailed => {
                &&& next == (BackfillTask { stage: BackfillStage::Finished })
                &&& step.says(args, seq![])
                &&& step.action is Fail
            },
            BackfillEvent::Synced { chats_stored, messages_stored } => {
                &&& next == (BackfillTask { stage: BackfillStage::Finished })
                &&& step.says(
                    args,
                    seq![synced_text(chats_stored as nat, messages_stored as nat)],
                )
                &&& step.action is Done
            },
            BackfillEvent::SyncFailed { error, stopping } => {
                let said = "Background sync failed: "@ + error@;
                &&& next == (BackfillTask { stage: BackfillStage::Finished })
                &&& step.action is Done
                &&& if stopping {
                    step.says(args, seq![])
                } else {
                    &&& texts(step.notices@) == told(args, seq![said])
                    &&& log_text(step.log) == Some((LogLevel::Error, said))
                }
            },
        }
    }

    /// A task that has not begun.
    pub fn new() -> (res: BackfillTask)
        ensures
            res == (BackfillTask { stage: BackfillStage::Begin }),
    {
        BackfillTask { stage: BackfillStage::Begin }
    }
}

fn saying(args: &DaemonArgs, line: Option<String>, log: Option<LogLine>, action: BackfillAction) -> (res:
    BackfillStep)
    ensures
        texts(res.notices@) == told(
            *args,
            match line {
                Some(text) => seq![text@],
                None => seq![],
            },
        ),
        res.log == log,
        res.action == action,
{
    let mut notices: Vec<String> = Vec::new();
    match line {
        Some(text) => {
            let ghost said = text@;
            say(args, &mut notices, text);
            assert(texts(notices@) =~= told(*args, seq![said]));
        },
        None => {
            assert(texts(notices@) =~= seq![]);
        },
    }
    BackfillStep { notices, log, action }
}

/// Runs the background sync: moves the task on by what happened outside, and returns what it
/// says and what is to be done next.
pub fn run_backfill(args: &DaemonArgs, task: &mut BackfillTask, event: BackfillEvent) -> (res:
    BackfillStep)
    requires
        old(task).admits(event),
    ensures
        old(task).moves(*args, event, *final(task), res),
{
    match event {
        BackfillEvent::Started => {
            task.stage = BackfillStage::AwaitDelay;
            saying(args, None, None, BackfillAction::Delay { seconds: BACKFILL_DELAY_SECONDS })
        },
        BackfillEvent::DelayOver { stopping } => if stopping {
            task.stage = BackfillStage::Finished;
            saying(args, None, None, BackfillAction::Done)
        } else {
            task.stage = BackfillStage::AwaitApp;
            saying(
                args,
                Some("Background sync starting...".to_string()),
                None,
                BackfillAction::OpenApp,
            )
        },
        BackfillEvent::Cancelled => {
            task.stage = BackfillStage::Finished;
            saying(args, None, None, BackfillAction::Done)
        },
        BackfillEvent::AppOpened => {
            task.stage = BackfillStage::AwaitSync;
            saying(args, None, None, BackfillAction::Sync { options: backfill_options(args) })
        },
        BackfillEvent::AppFailed => {
            task.stage = BackfillStage::Finished;
            saying(args, None, None, BackfillAction::Fail)
        },
        BackfillEvent::Synced { chats_stored, messages_stored } => {
            task.stage = BackfillStage::Finished;
            saying(args, Some(synced(chats_stored, messages_stored)), None, BackfillAction::Done)
        },
        BackfillEvent::SyncFailed { error, stopping } => {
            task.stage = BackfillStage::Finished;
            if stopping {
                saying(args, None, None, BackfillAction::Done)
            } else {
                let said = joined("Background sync failed: ", error.as_str());
                let log = Some(LogLine { level: LogLevel::Error, text: said.clone() });
                saying(args, Some(said), log, BackfillAction::Done)
            }
        },
    }
}

/// The order of the phases.
pub open spec fn phase_order(phase: BackfillPhase) -> int {
    match phase {
        BackfillPhase::Pending => 0,
        BackfillPhase::Running => 1,
        BackfillPhase::Over => 2,
    }
}

/// The background sync goes through its phases in order: one that was stopped during the delay
/// never ran, one that has ended, well or badly, runs no more, and one that is over awaits
/// nothing. A quiet one says nothing.
pub proof fn phases_go_forward(
    args: DaemonArgs,
    task: BackfillTask,
    event: BackfillEvent,
    next: BackfillTask,
    step: BackfillStep,
)
    requires
        task.admits(event),
        task.moves(args, event, next, step),
    ensures
        phase_order(task.progress()) <= phase_order(next.progress()),
        !(task.progress() is Over),
        step.action is Done || step.action is Fail <==> next.progress() is Over,
        args.quiet ==> step.notices@.len() == 0,
{
    assert(args.quiet ==> texts(step.notices@).len() == 0);
}

} // verus!
