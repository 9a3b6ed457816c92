//! The daemon: live updates, stored as they arrive, and reconciliations between them.

use crate::args::DaemonArgs;
use crate::backfill::BackfillPhase;
use crate::ingest::{count, persist_message_update, PersistAction, PersistEvent, PersistRun};
use crate::message::{deleted_messages, MessageUpdate, RawUpdate};
use crate::notice::{joined, say, LogLevel, LogLine};
use crate::onboarding::Health;
use crate::report::{
    report, ReportAction, ReportEvent, ReportRun, ReportStep, REPORT_INTERVAL_SECONDS,
};
use crate::stream::deletion_line;
use crate::sync::{reconcile_recent_history, ReconcileAction, ReconcileEvent, ReconcileRun};
use crate::text::{append_decimal, contains_text};
use std::collections::HashSet;
use vstd::prelude::*;

#[allow(unused_imports)]
use crate::ingest::counted;
#[allow(unused_imports)]
use crate::json::{is_one_line, object_text};
#[allow(unused_imports)]
use crate::message::raw_deletion;
#[allow(unused_imports)]
use crate::notice::{log_text, optional_log, texts, told};
#[allow(unused_imports)]
use crate::stream::deletion_fields;
#[allow(unused_imports)]
use crate::text::{decimal, occurs_in, text_of};

verus! {

/// Seconds that the daemon waits for the background sync when it stops.
pub const BACKFILL_TIMEOUT_SECONDS: u64 = 5;

/// An update as it arrives.
#[derive(Debug)]
pub enum LiveUpdate {
    NewMessage(MessageUpdate),
    MessageEdited(MessageUpdate),
    MessageDeleted(RawUpdate),
    /// Any other update, none of the daemon's business.
    Other,
}

/// Messages that were deleted in a channel.
#[derive(Debug)]
pub struct Deletion {
    pub chat_id: i64,
    pub messages: Vec<i32>,
}

/// Where the daemon stands.
#[derive(Clone, Copy, Debug, PartialEq, Eq, Structural)]
pub enum DaemonStage {
    Begin,
    AwaitApp,
    StartupSync,
    AwaitReceiver,
    AwaitStream,
    AwaitSpawn,
    AwaitTimer,
    /// It listens: for the end, for updates, and for the timer where `ticks` says so.
    Listening { ticks: bool },
    PeriodicSync,
    Reporting,
    Storing,
    AwaitDeletionChat,
    AwaitLine,
    AwaitBackfill,
    AwaitSession,
    Finished,
}

/// The daemon: its arguments, where it stands, and its counters.
#[derive(Debug)]
pub struct DaemonRun {
    pub args: DaemonArgs,
    pub ignore_set: HashSet<i64>,
    pub stage: DaemonStage,
    /// The reconciliation under way, or the last one.
    pub reconcile: ReconcileRun,
    /// The update that is being stored, or the last one.
    pub persist: Option<PersistRun>,
    /// The deletion whose chat is looked up, or the last one.
    pub deletion: Option<Deletion>,
    pub report: ReportRun,
    pub messages_received: u64,
    pub messages_stored: u64,
}

/// What happened outside.
#[derive(Debug)]
pub enum DaemonEvent {
    Started,
    /// The application is open; this is the health that it last reported.
    AppOpened { health: Health },
    /// A reconciliation went on.
    Reconciled { event: ReconcileEvent },
    /// What a reconciliation awaited failed, with the error's text.
    ReconcileFailed { error: String },
    ReceiverTaken,
    StreamStarted,
    BackfillSpawned,
    /// The timers run, and the immediate tick of the first is consumed.
    TimerStarted,
    StopRequested,
    TimerTicked,
    /// It is time for a report.
    ReportTicked,
    /// A report went on.
    Reported { event: ReportEvent },
    UpdateReceived { update: LiveUpdate },
    /// The stream of updates reported an error.
    StreamFailed { error: String },
    /// The storing of an update went on.
    Persisted { event: PersistEvent },
    /// The chat of a deletion was looked up: its kind, if the archive knows it.
    DeletionChatFound { kind: Option<String> },
    LineWritten,
    /// The background sync ended, or the wait for it did.
    BackfillAwaited,
    SessionSynced,
    /// The application could not be opened, or has no receiver of updates.
    Failed,
}

/// What is to be done next.
#[derive(Debug)]
pub enum DaemonAction {
    OpenApp,
    Reconcile { action: ReconcileAction },
    TakeReceiver,
    StartStream { catch_up: bool },
    SpawnBackfill,
    /// Start the timers of the reconciliations and of the reports, both of which skip missed
    /// ticks, and consume the immediate tick of the first.
    StartTimer { period_seconds: u64, report_seconds: u64 },
    Listen { ticks: bool },
    /// Open the archive, for an update to be stored.
    OpenStore,
    Persist { action: PersistAction },
    Report { action: ReportAction },
    /// Look the chat of a deletion up in the archive.
    FindDeletionChat { chat_id: i64 },
    WriteLine { line: String },
    AwaitBackfill { timeout_seconds: u64 },
    SyncSession,
    Done,
    /// Report what failed, under the context if there is one.
    Fail { context: Option<String> },
}

/// What the daemon says on the terminal, what goes to the log, and what is to be done next.
#[derive(Debug)]
pub struct DaemonStep {
    pub notices: Vec<String>,
    pub log: Option<LogLine>,
    pub action: DaemonAction,
}

/// What is said when the daemon starts to listen.
pub open spec fn starting_lines(args: DaemonArgs) -> Seq<Seq<char>> {
    let lines = seq!["Daemon starting..."@, "  Listening for real-time updates"@];
    if args.no_backfill {
        lines
    } else {
        lines.push("  Background sync will start after connection established"@)
    }
}

/// What is said at the end.
pub open spec fn stopped_text(messages_received: nat, messages_stored: nat) -> Seq<char> {
    "Daemon stopped. Updates received: "@ + decimal(messages_received) + ", stored: "@ + decimal(
        messages_stored,
    )
}

impl DaemonStep {
    /// The step says these lines, unless the daemon is quiet, and logs nothing.
    pub open spec fn says(self, args: DaemonArgs, lines: Seq<Seq<char>>) -> bool {
        &&& texts(self.notices@) == told(args, lines)
        &&& self.log is None
    }

    /// The step says and logs that something failed.
    pub open spec fn complains(
        self,
        args: DaemonArgs,
        lines: Seq<Seq<char>>,
        level: LogLevel,
        logged: Seq<char>,
    ) -> bool {
        &&& texts(self.notices@) == told(args, lines)
        &&& log_text(self.log) == Some((level, logged))
    }
}

fn step_saying(args: &DaemonArgs, line: &str, action: DaemonAction) -> (res: DaemonStep)
    ensures
        res.says(*args, seq![line@]),
        res.action == action,
{
    let mut notices: Vec<String> = Vec::new();
    say(args, &mut notices, line.to_string());
    assert(texts(notices@) =~= told(*args, seq![line@]));
    DaemonStep { notices, log: None, action }
}

fn silent_step(action: DaemonAction) -> (res: DaemonStep)
    ensures
        forall|args: DaemonArgs| res.says(args, seq![]),
        res.action == action,
{
    let notices: Vec<String> = Vec::new();
    assert(texts(notices@) =~= seq![]);
    DaemonStep { notices, log: None, action }
}

impl DaemonRun {
    pub open spec fn wf(self) -> bool {
        &&& self.ignore_set@ == self.args.ignore_chat_ids@.to_set()
        &&& self.stage is StartupSync || self.stage is PeriodicSync ==> self.reconcile.stage
            is AwaitDialogs || self.reconcile.stage is AwaitSync
        &&& self.stage is Reporting ==> self.report.wf() && !(self.report.stage is Resting)
        &&& !(self.stage is Reporting) ==> self.report.stage is Resting
        &&& self.stage is AwaitDeletionChat ==> self.deletion is Some
        &&& self.stage is Storing ==> (self.persist matches Some(run) && run.wf() && !(run.stage
            is Finished))
    }

    /// The timer is listened to.
    pub open spec fn ticks(self, backfill: BackfillPhase) -> bool {
        self.args.reconcile_interval_seconds > 0 && !(backfill is Running)
    }

    /// History may be imported: no background sync writes, now or later.
    pub open spec fn imports(self, backfill: BackfillPhase) -> bool {
        self.args.no_backfill || backfill is Over
    }

    /// The event is one that the daemon awaits.
    pub open spec fn admits(self, event: DaemonEvent) -> bool {
        match (self.stage, event) {
            (DaemonStage::Begin, DaemonEvent::Started) => true,
            (DaemonStage::AwaitApp, DaemonEvent::AppOpened { health }) => true,
            (DaemonStage::AwaitApp, DaemonEvent::Failed) => true,
            (
                DaemonStage::StartupSync | DaemonStage::PeriodicSync,
                DaemonEvent::Reconciled { event },
            ) => !(event is Failed) && self.reconcile.admits(event),
            (
                DaemonStage::StartupSync | DaemonStage::PeriodicSync,
                DaemonEvent::ReconcileFailed { error },
            ) => true,
            (DaemonStage::AwaitReceiver, DaemonEvent::ReceiverTaken) => true,
            (DaemonStage::AwaitReceiver, DaemonEvent::Failed) => true,
            (DaemonStage::AwaitStream, DaemonEvent::StreamStarted) => true,
            (DaemonStage::AwaitSpawn, DaemonEvent::BackfillSpawned) => true,
            (DaemonStage::AwaitTimer, DaemonEvent::TimerStarted) => true,
            (DaemonStage::Listening { ticks }, DaemonEvent::StopRequested) => true,
            (DaemonStage::Listening { ticks }, DaemonEvent::TimerTicked) => ticks,
            (DaemonStage::Listening { ticks }, DaemonEvent::ReportTicked) => true,
            (DaemonStage::Reporting, DaemonEvent::Reported { event }) => self.report.admits(event),
            (DaemonStage::AwaitDeletionChat, DaemonEvent::DeletionChatFound { kind }) => true,
            (DaemonStage::Listening { ticks }, DaemonEvent::UpdateReceived { update }) => match update {
                LiveUpdate::NewMessage(message) => message.located(),
                LiveUpdate::MessageEdited(message) => message.located(),
                _ => true,
            },
            (DaemonStage::Listening { ticks }, DaemonEvent::StreamFailed { error }) => true,
            (DaemonStage::Storing, DaemonEvent::Persisted { event }) => self.persist->0.admits(
                self.args,
                self.ignore_set@,
                event,
            ),
            (DaemonStage::AwaitLine, DaemonEvent::LineWritten) => true,
            (DaemonStage::AwaitBackfill, DaemonEvent::BackfillAwaited) => true,
            (DaemonStage::AwaitSession, DaemonEvent::SessionSynced) => true,
            _ => false,
        }
    }

    /// The daemon is the same but for where it stands.
    pub open spec fn at(self, stage: DaemonStage) -> DaemonRun {
        DaemonRun { stage, ..self }
    }

    /// The daemon goes on from the health that was last reported.
    pub open spec fn knowing(self, health: Health) -> DaemonRun {
        DaemonRun { report: ReportRun { health, ..self.report }, ..self }
    }

    /// The daemon listens again.
    pub open spec fn listens(
        self,
        backfill: BackfillPhase,
        next: DaemonRun,
        action: DaemonAction,
    ) -> bool {
        let ticks = self.ticks(backfill);
        &&& next == self.at(DaemonStage::Listening { ticks })
        &&& action == DaemonAction::Listen { ticks }
    }

    /// The daemon says that it is ready, and starts its timer.
    pub open spec fn gets_ready(self, next: DaemonRun, step: DaemonStep) -> bool {
        &&& next == self.at(DaemonStage::AwaitTimer)
        &&& step.says(self.args, seq!["Daemon ready. Press Ctrl+C to stop."@])
        &&& step.action matches DaemonAction::StartTimer { period_seconds, report_seconds }
        &&& report_seconds == REPORT_INTERVAL_SECONDS
        &&& period_seconds == if self.args.reconcile_interval_seconds > 1 {
            self.args.reconcile_interval_seconds
        } else {
            1
        }
    }

    /// The daemon stops listening: it waits for the background sync, if there is one, or else
    /// writes its session down. What it says comes after the given lines.
    pub open spec fn winds_down(
        self,
        backfill: BackfillPhase,
        said: Seq<Seq<char>>,
        next: DaemonRun,
        step: DaemonStep,
    ) -> bool {
        if !self.args.no_backfill {
            &&& next == self.at(DaemonStage::AwaitBackfill)
            &&& step.action == DaemonAction::AwaitBackfill {
                timeout_seconds: BACKFILL_TIMEOUT_SECONDS,
            }
            &&& texts(step.notices@) == told(
                self.args,
                if backfill is Running {
                    said.push("Waiting for background sync to complete..."@)
                } else {
                    said
                },
            )
        } else {
            &&& next == self.at(DaemonStage::AwaitSession)
            &&& step.action == DaemonAction::SyncSession
            &&& texts(step.notices@) == told(
                self.args,
                said.push("Syncing session state..."@),
            )
        }
    }

    /// A reconciliation went on: to its next action, or to its end, after which the daemon
    /// turns to what comes then.
    pub open spec fn reconciles(
        self,
        event: ReconcileEvent,
        next: DaemonRun,
        step: DaemonStep,
        then: DaemonStage,
        then_action: DaemonAction,
    ) -> bool {
        &&& next == (DaemonRun { stage: next.stage, reconcile: next.reconcile, ..self })
        &&& exists|action: ReconcileAction|
            {
                &&& #[trigger] self.reconcile.moves(self.args, event, next.reconcile, action)
                &&& match action {
                    ReconcileAction::Finish { log, notice } => {
                        &&& next.stage == then
                        &&& step.action == then_action
                        &&& texts(step.notices@) == (match notice {
                            Some(text) => seq![text@],
                            None => seq![],
                        })
                        &&& log_text(step.log) == Some((LogLevel::Info, log@))
                    },
                    _ => {
                        &&& next.stage == self.stage
                        &&& step.action == (DaemonAction::Reconcile { action })
                        &&& step.says(self.args, seq![])
                    },
                }
            }
    }

    /// A reconciliation failed, after which the daemon turns to what comes then.
    pub open spec fn reconcile_fails(
        self,
        next: DaemonRun,
        then: DaemonStage,
    ) -> bool {
        &&& next == (DaemonRun { stage: then, reconcile: next.reconcile, ..self })
        &&& next.reconcile.phase == self.reconcile.phase
        &&& next.reconcile.stage is Finished
    }

    /// Deleted messages are told of in the stream.
    pub open spec fn tells_of_deletion(
        self,
        chat_id: Option<i64>,
        messages: Seq<i32>,
        next: DaemonRun,
        action: DaemonAction,
    ) -> bool {
        &&& next == self.at(DaemonStage::AwaitLine)
        &&& action matches DaemonAction::WriteLine { line }
        &&& line@ == object_text(deletion_fields(chat_id, messages))
        &&& is_one_line(line@)
    }

    /// Messages were deleted: where there is a stream it tells of them, unless their chat is one
    /// to skip. Where channels are to be skipped, the archive is asked for the chat's kind first.
    pub open spec fn hears_of_deletion(
        self,
        chat_id: Option<i64>,
        messages: Seq<i32>,
        backfill: BackfillPhase,
        next: DaemonRun,
        action: DaemonAction,
    ) -> bool {
        match chat_id {
            _ if !self.args.stream => self.listens(backfill, next, action),
            Some(id) if self.ignore_set@.contains(id) => self.listens(backfill, next, action),
            Some(id) if self.args.ignore_channels => {
                &&& next == (DaemonRun {
                    stage: DaemonStage::AwaitDeletionChat,
                    deletion: next.deletion,
                    ..self
                })
                &&& next.deletion matches Some(deletion)
                &&& deletion.chat_id == id
                &&& deletion.messages@ == messages
                &&& action == (DaemonAction::FindDeletionChat { chat_id: id })
            },
            _ => self.tells_of_deletion(chat_id, messages, next, action),
        }
    }

    /// The daemon goes on with a report: to its next action, or to its end, after which the
    /// daemon listens again.
    pub open spec fn reports(
        self,
        event: ReportEvent,
        backfill: BackfillPhase,
        next: DaemonRun,
        step: DaemonStep,
    ) -> bool {
        let reported = DaemonRun { report: next.report, ..self };
        &&& texts(step.notices@) == Seq::<Seq<char>>::empty()
        &&& exists|inner: ReportStep|
            {
                &&& #[trigger] self.report.moves(self.imports(backfill), event, next.report, inner)
                &&& step.log == inner.log
                &&& if inner.action is Rest {
                    reported.listens(backfill, next, step.action)
                } else {
                    &&& next == reported.at(DaemonStage::Reporting)
                    &&& step.action == (DaemonAction::Report { action: inner.action })
                }
            }
    }

    /// An update arrived: a message is stored, a deletion is told of where there is a stream,
    /// and anything else leaves the daemon listening. Every update is counted.
    pub open spec fn receives(
        self,
        update: LiveUpdate,
        backfill: BackfillPhase,
        next: DaemonRun,
        step: DaemonStep,
    ) -> bool {
        let heard = DaemonRun { messages_received: counted(self.messages_received), ..self };
        &&& step.says(self.args, seq![])
        &&& match update {
            LiveUpdate::NewMessage(message) => heard.begins_storing(message, false, next, step),
            LiveUpdate::MessageEdited(message) => heard.begins_storing(message, true, next, step),
            LiveUpdate::MessageDeleted(raw) => match raw_deletion(raw) {
                Some((chat_id, messages)) => heard.hears_of_deletion(
                    chat_id,
                    messages,
                    backfill,
                    next,
                    step.action,
                ),
                None => heard.listens(backfill, next, step.action),
            },
            LiveUpdate::Other => heard.listens(backfill, next, step.action),
        }
    }

    /// The daemon begins to store a message.
    pub open spec fn begins_storing(
        self,
        message: MessageUpdate,
        is_edit: bool,
        next: DaemonRun,
        step: DaemonStep,
    ) -> bool {
        &&& next == (DaemonRun { stage: DaemonStage::Storing, persist: next.persist, ..self })
        &&& next.persist matches Some(run)
        &&& run.stage is AwaitStore
        &&& run.message == message
        &&& run.is_edit == is_edit
        &&& run.existing is None
        &&& run.edit_ts is None
        &&& run.media_path is None
        &&& step.action == DaemonAction::OpenStore
    }

    /// The storing of an update went on: to its next action, to its end, after which the
    /// daemon listens again, or to a failure, which ends the daemon.
    pub open spec fn stores(
        self,
        event: PersistEvent,
        backfill: BackfillPhase,
        next: DaemonRun,
        step: DaemonStep,
    ) -> bool {
        let stored = DaemonRun {
            persist: next.persist,
            messages_stored: self.persist->0.stored_after(event, self.messages_stored),
            ..self
        };
        &&& next.persist is Some
        &&& texts(step.notices@) == Seq::<Seq<char>>::empty()
        &&& exists|action: PersistAction|
            {
                &&& #[trigger] self.persist->0.moves(
                    self.args,
                    self.ignore_set@,
                    event,
                    next.persist->0,
                    action,
                )
                &&& match action {
                    PersistAction::Finish { warning } => {
                        &&& stored.listens(backfill, next, step.action)
                        &&& log_text(step.log) == optional_log(LogLevel::Warn, text_of(warning))
                    },
                    PersistAction::Fail { context } => {
                        &&& next == stored.at(DaemonStage::Finished)
                        &&& step.action == (DaemonAction::Fail { context })
                        &&& step.log is None
                    },
                    _ => {
                        &&& next == stored
                        &&& step.action == (DaemonAction::Persist { action })
                        &&& step.log is None
                    },
                }
            }
    }

    /// How an event moves the daemon on, what it says, and what the event calls for.
    pub open spec fn moves(
        self,
        event: DaemonEvent,
        backfill: BackfillPhase,
        next: DaemonRun,
        step: DaemonStep,
    ) -> bool {
        match (self.stage, event) {
            (DaemonStage::Begin, _) => {
                &&& next == self.at(DaemonStage::AwaitApp)
                &&& step.says(self.args, seq![])
                &&& step.action is OpenApp
            },
            (DaemonStage::AwaitApp, DaemonEvent::AppOpened { health }) => if self.args.no_startup_catchup {
                &&& next == self.knowing(health).at(DaemonStage::AwaitReceiver)
                &&& step.says(self.args, seq![])
                &&& step.action is TakeReceiver
            } else {
                &&& next == (DaemonRun {
                    stage: DaemonStage::StartupSync,
                    reconcile: next.reconcile,
                    ..self.knowing(health)
                })
                &&& step.says(self.args, seq!["Startup catch-up sync..."@])
                &&& step.action matches DaemonAction::Reconcile { action }
                &&& next.reconcile.has_begun(self.args, "Startup"@, action)
            },
            (DaemonStage::StartupSync, DaemonEvent::Reconciled { event }) => self.reconciles(
                event,
                next,
                step,
                DaemonStage::AwaitReceiver,
                DaemonAction::TakeReceiver,
            ),
            (DaemonStage::StartupSync, DaemonEvent::ReconcileFailed { error }) => {
                &&& self.reconcile_fails(next, DaemonStage::AwaitReceiver)
                &&& step.action is TakeReceiver
                &&& step.complains(
                    self.args,
                    seq!["Startup catch-up failed (continuing): "@ + error@],
                    LogLevel::Warn,
                    "startup catch-up failed (continuing to live listen): "@ + error@,
                )
            },
            (DaemonStage::AwaitReceiver, DaemonEvent::ReceiverTaken) => {
                &&& next == self.at(DaemonStage::AwaitStream)
                &&& step.says(self.args, starting_lines(self.args))
                &&& step.action == (DaemonAction::StartStream { catch_up: true })
            },
            (DaemonStage::AwaitReceiver, _) => {
                &&& next == self.at(DaemonStage::Finished)
                &&& step.says(self.args, seq![])
                &&& step.action matches DaemonAction::Fail { context }
                &&& text_of(context) == Some("Updates receiver not available"@)
            },
            (DaemonStage::AwaitStream, _) => if self.args.no_backfill {
                self.gets_ready(next, step)
            } else {
                &&& next == self.at(DaemonStage::AwaitSpawn)
                &&& step.says(self.args, seq![])
                &&& step.action is SpawnBackfill
            },
            (DaemonStage::AwaitSpawn, _) => self.gets_ready(next, step),
            (DaemonStage::AwaitTimer, _) => {
                &&& self.listens(backfill, next, step.action)
                &&& step.says(self.args, seq![])
            },
            (DaemonStage::Listening { ticks }, DaemonEvent::StopRequested) => {
                &&& self.winds_down(
                    backfill,
                    seq!["\nShutting down gracefully..."@],
                    next,
                    step,
                )
                &&& step.log is None
            },
            (DaemonStage::Listening { ticks }, DaemonEvent::TimerTicked) => {
                &&& next == (DaemonRun {
                    stage: DaemonStage::PeriodicSync,
                    reconcile: next.reconcile,
                    ..self
                })
                &&& step.says(self.args, seq!["Periodic reconciliation sync..."@])
                &&& step.action matches DaemonAction::Reconcile { action }
                &&& next.reconcile.has_begun(self.args, "Periodic"@, action)
            },
            (DaemonStage::Listening { ticks }, DaemonEvent::ReportTicked) => self.reports(
                ReportEvent::TimerTicked,
                backfill,
                next,
                step,
            ),
            (DaemonStage::Reporting, DaemonEvent::Reported { event }) => self.reports(
                event,
                backfill,
                next,
                step,
            ),
            (DaemonStage::AwaitDeletionChat, DaemonEvent::DeletionChatFound { kind }) => {
                &&& step.says(self.args, seq![])
                &&& self.deletion matches Some(deletion)
                &&& if kind is None || kind->0@ == "channel"@ {
                    self.listens(backfill, next, step.action)
                } else {
                    self.tells_of_deletion(
                        Some(deletion.chat_id),
                        deletion.messages@,
                        next,
                        step.action,
                    )
                }
            },
            (DaemonStage::Listening { ticks }, DaemonEvent::UpdateReceived { update }) =>
                self.receives(update, backfill, next, step),
            (DaemonStage::Listening { ticks }, DaemonEvent::StreamFailed { error }) => {
                let said = "Update stream error: "@ + error@;
                &&& log_text(step.log) == Some((LogLevel::Error, said))
                &&& if occurs_in(error@, "Dropped"@) {
                    self.winds_down(backfill, seq![said], next, step)
                } else {
                    &&& self.listens(backfill, next, step.action)
                    &&& texts(step.notices@) == told(self.args, seq![said])
                }
            },
            (DaemonStage::PeriodicSync, DaemonEvent::Reconciled { event }) => self.reconciles(
                event,
                next,
                step,
                DaemonStage::Listening { ticks: self.ticks(backfill) },
                DaemonAction::Listen { ticks: self.ticks(backfill) },
            ),
            (DaemonStage::PeriodicSync, DaemonEvent::ReconcileFailed { error }) => {
                &&& self.reconcile_fails(
                    next,
                    DaemonStage::Listening { ticks: self.ticks(backfill) },
                )
                &&& step.action == (DaemonAction::Listen { ticks: self.ticks(backfill) })
                &&& step.complains(
                    self.args,
                    seq!["Periodic reconciliation failed (will retry): "@ + error@],
                    LogLevel::Warn,
                    "periodic reconciliation failed (will retry): "@ + error@,
                )
            },
            (DaemonStage::Storing, DaemonEvent::Persisted { event }) => self.stores(
                event,
                backfill,
                next,
                step,
            ),
            (DaemonStage::AwaitLine, _) => {
                &&& self.listens(backfill, next, step.action)
                &&& step.says(self.args, seq![])
            },
            (DaemonStage::AwaitBackfill, _) => {
                &&& next == self.at(DaemonStage::AwaitSession)
                &&& step.says(self.args, seq!["Syncing session state..."@])
                &&& step.action is SyncSession
            },
            (DaemonStage::AwaitSession, _) => {
                &&& next == self.at(DaemonStage::Finished)
                &&& step.says(
                    self.args,
                    seq![stopped_text(self.messages_received as nat, self.messages_stored as nat)],
                )
                &&& step.action is Done
            },
            _ => {
                &&& next == self.at(DaemonStage::Finished)
                &&& step.says(self.args, seq![])
                &&& step.action == (DaemonAction::Fail { context: None })
            },
        }
    }

    /// A daemon that has not begun.
    pub fn new(args: DaemonArgs) -> (res: DaemonRun)
        ensures
            res.wf(),
            res.args == args,
            res.stage is Begin,
            res.persist is None,
            res.deletion is None,
            res.report.stage is Resting,
            res.report.health.connected_at is None,
            res.report.health.capture_checked_at is None,
            res.report.health.account_id is None,
            res.report.health.error is None,
            res.messages_received == 0,
            res.messages_stored == 0,
    {
        let ignore_set = args.ignore_set();
        let health = Health::default();
        assert(health@.connected_at == text_of(health.connected_at));
        assert(health@.capture_checked_at == text_of(health.capture_checked_at));
        assert(health@.account_id == text_of(health.account_id));
        assert(health@.error == text_of(health.error));
        DaemonRun {
            args,
            ignore_set,
            stage: DaemonStage::Begin,
            reconcile: ReconcileRun::start("Startup"),
            persist: None,
            deletion: None,
            report: ReportRun::new(health),
            messages_received: 0,
            messages_stored: 0,
        }
    }

    fn may_tick(&self, backfill: BackfillPhase) -> (res: bool)
        ensures
            res == self.ticks(backfill),
    {
        self.args.reconciliation_enabled() && match backfill {
            BackfillPhase::Running => false,
            _ => true,
        }
    }

    fn may_import(&self, backfill: BackfillPhase) -> (res: bool)
        ensures
            res == self.imports(backfill),
    {
        self.args.no_backfill || match backfill {
            BackfillPhase::Over => true,
            _ => false,
        }
    }

    fn listen(&mut self, backfill: BackfillPhase) -> (res: DaemonAction)
        requires
            old(self).ignore_set@ == old(self).args.ignore_chat_ids@.to_set(),
            old(self).report.stage is Resting,
        ensures
            final(self).wf(),
            old(self).listens(backfill, *final(self), res),
    {
        let ticks = self.may_tick(backfill);
        self.stage = DaemonStage::Listening { ticks };
        DaemonAction::Listen { ticks }
    }

    fn get_ready(&mut self) -> (res: DaemonStep)
        requires
            old(self).wf(),
            !(old(self).stage is Reporting),
        ensures
            final(self).wf(),
            old(self).gets_ready(*final(self), res),
    {
        self.stage = DaemonStage::AwaitTimer;
        step_saying(
            &self.args,
            "Daemon ready. Press Ctrl+C to stop.",
            DaemonAction::StartTimer {
                period_seconds: self.args.reconciliation_period(),
                report_seconds: REPORT_INTERVAL_SECONDS,
            },
        )
    }

    fn wind_down(&mut self, backfill: BackfillPhase, first: String, log: Option<LogLine>) -> (res:
        DaemonStep)
        requires
            old(self).wf(),
            !(old(self).stage is Reporting),
        ensures
            final(self).wf(),
            old(self).winds_down(backfill, seq![first@], *final(self), res),
            res.log == log,
    {
        let mut notices: Vec<String> = Vec::new();
        let ghost said = seq![first@];
        say(&self.args, &mut notices, first);
        assert(texts(notices@) =~= told(self.args, said));
        if !self.args.no_backfill {
            if backfill == BackfillPhase::Running {
                say(
                    &self.args,
                    &mut notices,
                    "Waiting for background sync to complete...".to_string(),
                );
                assert(texts(notices@) =~= told(
                    self.args,
                    said.push("Waiting for background sync to complete..."@),
                ));
            }
            self.stage = DaemonStage::AwaitBackfill;
            DaemonStep {
                notices,
                log,
                action: DaemonAction::AwaitBackfill { timeout_seconds: BACKFILL_TIMEOUT_SECONDS },
            }
        } else {
            say(&self.args, &mut notices, "Syncing session state...".to_string());
            assert(texts(notices@) =~= told(
                self.args,
                said.push("Syncing session state..."@),
            ));
            self.stage = DaemonStage::AwaitSession;
            DaemonStep { notices, log, action: DaemonAction::SyncSession }
        }
    }

    fn begin_reconcile(&mut self, phase: &'static str, stage: DaemonStage, line: &str) -> (res:
        DaemonStep)
        requires
            old(self).wf(),
            !(old(self).stage is Reporting),
            stage is StartupSync || stage is PeriodicSync,
        ensures
            final(self).wf(),
            *final(self) == (DaemonRun {
                stage,
                reconcile: final(self).reconcile,
                ..*old(self)
            }),
            res.says(old(self).args, seq![line@]),
            res.action matches DaemonAction::Reconcile { action }
                && final(self).reconcile.has_begun(old(self).args, phase@, action),
    {
        self.stage = stage;
        self.reconcile = ReconcileRun::start(phase);
        let action = reconcile_recent_history(
            &self.args,
            &mut self.reconcile,
            ReconcileEvent::Started,
        );
        step_saying(&self.args, line, DaemonAction::Reconcile { action })
    }

    fn go_on_reconciling(&mut self, event: ReconcileEvent, then: DaemonStage, then_action: DaemonAction)
        -> (res: DaemonStep)
        requires
            old(self).wf(),
            old(self).stage is StartupSync || old(self).stage is PeriodicSync,
            !(event is Failed),
            old(self).reconcile.admits(event),
            then is AwaitReceiver || then is Listening,
        ensures
            final(self).wf(),
            old(self).reconciles(event, *final(self), res, then, then_action),
    {
        let action = reconcile_recent_history(&self.args, &mut self.reconcile, event);
        assert(old(self).reconcile.moves(self.args, event, self.reconcile, action));
        match action {
            ReconcileAction::Finish { log, notice } => {
                self.stage = then;
                let mut notices: Vec<String> = Vec::new();
                match notice {
                    Some(text) => {
                        let ghost line = text@;
                        notices.push(text);
                        assert(texts(notices@) =~= seq![line]);
                    },
                    None => {
                        assert(texts(notices@) =~= seq![]);
                    },
                }
                DaemonStep {
                    notices,
                    log: Some(LogLine { level: LogLevel::Info, text: log }),
                    action: then_action,
                }
            },
            action => silent_step(DaemonAction::Reconcile { action }),
        }
    }

    fn give_up_reconciling(&mut self, then: DaemonStage, action: DaemonAction, said: String, logged:
        String) -> (res: DaemonStep)
        requires
            old(self).wf(),
            old(self).stage is StartupSync || old(self).stage is PeriodicSync,
            then is AwaitReceiver || then is Listening,
        ensures
            final(self).wf(),
            old(self).reconcile_fails(*final(self), then),
            res.action == action,
            res.complains(old(self).args, seq![said@], LogLevel::Warn, logged@),
    {
        let _ = reconcile_recent_history(&self.args, &mut self.reconcile, ReconcileEvent::Failed);
        self.stage = then;
        let mut notices: Vec<String> = Vec::new();
        let ghost line = said@;
        say(&self.args, &mut notices, said);
        assert(texts(notices@) =~= told(self.args, seq![line]));
        DaemonStep { notices, log: Some(LogLine { level: LogLevel::Warn, text: logged }), action }
    }

    fn begin_storing(&mut self, message: MessageUpdate, is_edit: bool) -> (res: DaemonStep)
        requires
            old(self).wf(),
            old(self).stage is Listening,
            message.located(),
        ensures
            final(self).wf(),
            old(self).begins_storing(message, is_edit, *final(self), res),
            res.says(old(self).args, seq![]),
    {
        self.persist = PersistRun::start(message, is_edit);
        self.stage = DaemonStage::Storing;
        silent_step(DaemonAction::OpenStore)
    }

    fn tell_of_deletion(&mut self, chat_id: Option<i64>, messages: Vec<i32>) -> (res: DaemonAction)
        requires
            old(self).wf(),
            !(old(self).stage is Reporting),
        ensures
            final(self).wf(),
            old(self).tells_of_deletion(chat_id, messages@, *final(self), res),
    {
        self.stage = DaemonStage::AwaitLine;
        DaemonAction::WriteLine { line: deletion_line(chat_id, messages) }
    }

    fn hear_of_deletion(
        &mut self,
        chat_id: Option<i64>,
        messages: Vec<i32>,
        backfill: BackfillPhase,
    ) -> (res: DaemonAction)
        requires
            old(self).wf(),
            old(self).stage is Listening,
        ensures
            final(self).wf(),
            old(self).hears_of_deletion(chat_id, messages@, backfill, *final(self), res),
    {
        broadcast use vstd::std_specs::hash::group_hash_axioms;

        if !self.args.stream {
            return self.listen(backfill);
        }
        if let Some(id) = chat_id {
            if self.ignore_set.contains(&id) {
                return self.listen(backfill);
            }
            if self.args.ignore_channels {
                self.stage = DaemonStage::AwaitDeletionChat;
                self.deletion = Some(Deletion { chat_id: id, messages });
                return DaemonAction::FindDeletionChat { chat_id: id };
            }
        }
        self.tell_of_deletion(chat_id, messages)
    }

    fn judge_deletion(&mut self, kind: Option<String>, backfill: BackfillPhase) -> (res: DaemonAction)
        requires
            old(self).wf(),
            old(self).stage is AwaitDeletionChat,
        ensures
            final(self).wf(),
            kind is None || kind->0@ == "channel"@ ==> old(self).listens(
                backfill,
                *final(self),
                res,
            ),
            kind matches Some(text) && text@ != "channel"@ ==> old(self).tells_of_deletion(
                Some(old(self).deletion->0.chat_id),
                old(self).deletion->0.messages@,
                *final(self),
                res,
            ),
    {
        let is_channel = match kind {
            Some(text) => text == "channel".to_string(),
            None => true,
        };
        if !is_channel {
            if let Some(deletion) = &self.deletion {
                let chat_id = Some(deletion.chat_id);
                let messages = deletion.messages.clone();
                return self.tell_of_deletion(chat_id, messages);
            }
        }
        self.listen(backfill)
    }

    fn go_on_reporting(&mut self, event: ReportEvent, backfill: BackfillPhase) -> (res: DaemonStep)
        requires
            old(self).wf(),
            old(self).report.wf(),
            old(self).report.admits(event),
            old(self).stage is Reporting || old(self).stage is Listening,
        ensures
            final(self).wf(),
            old(self).reports(event, backfill, *final(self), res),
    {
        let imports = self.may_import(backfill);
        let inner = report(&mut self.report, imports, event);
        assert(old(self).report.moves(imports, event, self.report, inner));
        let notices: Vec<String> = Vec::new();
        assert(texts(notices@) =~= Seq::<Seq<char>>::empty());
        match inner.action {
            ReportAction::Rest => {
                let action = self.listen(backfill);
                DaemonStep { notices, log: inner.log, action }
            },
            action => {
                self.stage = DaemonStage::Reporting;
                DaemonStep { notices, log: inner.log, action: DaemonAction::Report { action } }
            },
        }
    }

    fn receive(&mut self, update: LiveUpdate, backfill: BackfillPhase) -> (res: DaemonStep)
        requires
            old(self).wf(),
            old(self).stage is Listening,
            old(self).admits((DaemonEvent::UpdateReceived { update })),
        ensures
            final(self).wf(),
            old(self).receives(update, backfill, *final(self), res),
    {
        self.messages_received = count(self.messages_received);
        match update {
            LiveUpdate::NewMessage(message) => self.begin_storing(message, false),
            LiveUpdate::MessageEdited(message) => self.begin_storing(message, true),
            LiveUpdate::MessageDeleted(raw) => match deleted_messages(raw) {
                Some((chat_id, messages)) => silent_step(
                    self.hear_of_deletion(chat_id, messages, backfill),
                ),
                None => silent_step(self.listen(backfill)),
            },
            LiveUpdate::Other => silent_step(self.listen(backfill)),
        }
    }

    fn go_on_storing(&mut self, event: PersistEvent, backfill: BackfillPhase) -> (res: DaemonStep)
        requires
            old(self).wf(),
            old(self).stage is Storing,
            old(self).persist->0.admits(old(self).args, old(self).ignore_set@, event),
        ensures
            final(self).wf(),
            old(self).stores(event, backfill, *final(self), res),
    {
        let action = match &mut self.persist {
            Some(run) => persist_message_update(
                &self.args,
                &self.ignore_set,
                run,
                event,
                &mut self.messages_stored,
            ),
            None => PersistAction::Finish { warning: None },
        };
        assert(old(self).persist->0.moves(
            self.args,
            self.ignore_set@,
            event,
            self.persist->0,
            action,
        ));
        let notices: Vec<String> = Vec::new();
        assert(texts(notices@) =~= Seq::<Seq<char>>::empty());
        match action {
            PersistAction::Finish { warning } => {
                let next = self.listen(backfill);
                let log = match warning {
                    Some(text) => Some(LogLine { level: LogLevel::Warn, text }),
                    None => None,
                };
                DaemonStep { notices, log, action: next }
            },
            PersistAction::Fail { context } => {
                self.stage = DaemonStage::Finished;
                DaemonStep { notices, log: None, action: DaemonAction::Fail { context } }
            },
            action => DaemonStep { notices, log: None, action: DaemonAction::Persist { action } },
        }
    }

    fn stopped(&self) -> (res: String)
        ensures
            res@ == stopped_text(self.messages_received as nat, self.messages_stored as nat),
    {
        let mut text = "Daemon stopped. Updates received: ".to_string();
        append_decimal(&mut text, self.messages_received);
        text.append(", stored: ");
        append_decimal(&mut text, self.messages_stored);
        text
    }

    fn starting(&self) -> (res: Vec<String>)
        ensures
            texts(res@) == told(self.args, starting_lines(self.args)),
    {
        let mut notices: Vec<String> = Vec::new();
        say(&self.args, &mut notices, "Daemon starting...".to_string());
        say(&self.args, &mut notices, "  Listening for real-time updates".to_string());
        if !self.args.no_backfill {
            say(
                &self.args,
                &mut notices,
                "  Background sync will start after connection established".to_string(),
            );
        }
        assert(texts(notices@) =~= told(self.args, starting_lines(self.args)));
        notices
    }
}

/// Runs the daemon: moves it on by what happened outside, and returns what it says and what is
/// to be done next. `backfill` tells how far the background sync is at the moment.
pub fn run(daemon: &mut DaemonRun, event: DaemonEvent, backfill: BackfillPhase) -> (res: DaemonStep)
    requires
        old(daemon).wf(),
        old(daemon).admits(event),
    ensures
        final(daemon).wf(),
        old(daemon).moves(event, backfill, *final(daemon), res),
{
    match (daemon.stage, event) {
        (DaemonStage::Begin, _) => {
            daemon.stage = DaemonStage::AwaitApp;
            silent_step(DaemonAction::OpenApp)
        },
        (DaemonStage::AwaitApp, DaemonEvent::AppOpened { health }) => {
            daemon.report.health = health;
            if daemon.args.no_startup_catchup {
                daemon.stage = DaemonStage::AwaitReceiver;
                silent_step(DaemonAction::TakeReceiver)
            } else {
                daemon.begin_reconcile(
                    "Startup",
                    DaemonStage::StartupSync,
                    "Startup catch-up sync...",
                )
            }
        },
        (DaemonStage::StartupSync, DaemonEvent::Reconciled { event }) => daemon.go_on_reconciling(
            event,
            DaemonStage::AwaitReceiver,
            DaemonAction::TakeReceiver,
        ),
        (DaemonStage::StartupSync, DaemonEvent::ReconcileFailed { error }) => {
            daemon.give_up_reconciling(
                DaemonStage::AwaitReceiver,
                DaemonAction::TakeReceiver,
                joined("Startup catch-up failed (continuing): ", error.as_str()),
                joined(
                    "startup catch-up failed (continuing to live listen): ",
                    error.as_str(),
                ),
            )
        },
        (DaemonStage::AwaitReceiver, DaemonEvent::ReceiverTaken) => {
            daemon.stage = DaemonStage::AwaitStream;
            DaemonStep {
                notices: daemon.starting(),
                log: None,
                action: DaemonAction::StartStream { catch_up: true },
            }
        },
        (DaemonStage::AwaitReceiver, _) => {
            daemon.stage = DaemonStage::Finished;
            silent_step(
                DaemonAction::Fail { context: Some("Updates receiver not available".to_string()) },
            )
        },
        (DaemonStage::AwaitStream, _) => if daemon.args.no_backfill {
            daemon.get_ready()
        } else {
            daemon.stage = DaemonStage::AwaitSpawn;
            silent_step(DaemonAction::SpawnBackfill)
        },
        (DaemonStage::AwaitSpawn, _) => daemon.get_ready(),
        (DaemonStage::AwaitTimer, _) => silent_step(daemon.listen(backfill)),
        (DaemonStage::Listening { .. }, DaemonEvent::StopRequested) => daemon.wind_down(
            backfill,
            "\nShutting down gracefully...".to_string(),
            None,
        ),
        (DaemonStage::Listening { .. }, DaemonEvent::TimerTicked) => daemon.begin_reconcile(
            "Periodic",
            DaemonStage::PeriodicSync,
            "Periodic reconciliation sync...",
        ),
        (DaemonStage::Listening { .. }, DaemonEvent::ReportTicked) => daemon.go_on_reporting(
            ReportEvent::TimerTicked,
            backfill,
        ),
        (DaemonStage::Reporting, DaemonEvent::Reported { event }) => daemon.go_on_reporting(
            event,
            backfill,
        ),
        (DaemonStage::AwaitDeletionChat, DaemonEvent::DeletionChatFound { kind }) => silent_step(
            daemon.judge_deletion(kind, backfill),
        ),
        (DaemonStage::Listening { .. }, DaemonEvent::UpdateReceived { update }) => daemon.receive(
            update,
            backfill,
        ),
        (DaemonStage::Listening { .. }, DaemonEvent::StreamFailed { error }) => {
            let said = joined("Update stream error: ", error.as_str());
            let log = Some(LogLine { level: LogLevel::Error, text: said.clone() });
            if contains_text(error.as_str(), "Dropped") {
                daemon.wind_down(backfill, said, log)
            } else {
                let action = daemon.listen(backfill);
                let step = step_saying(&daemon.args, said.as_str(), action);
                DaemonStep { notices: step.notices, log, action: step.action }
            }
        },
        (DaemonStage::PeriodicSync, DaemonEvent::Reconciled { event }) => {
            let ticks = daemon.may_tick(backfill);
            daemon.go_on_reconciling(
                event,
                DaemonStage::Listening { ticks },
                DaemonAction::Listen { ticks },
            )
        },
        (DaemonStage::PeriodicSync, DaemonEvent::ReconcileFailed { error }) => {
            let ticks = daemon.may_tick(backfill);
            daemon.give_up_reconciling(
                DaemonStage::Listening { ticks },
                DaemonAction::Listen { ticks },
                joined("Periodic reconciliation failed (will retry): ", error.as_str()),
                joined("periodic reconciliation failed (will retry): ", error.as_str()),
            )
        },
        (DaemonStage::Storing, DaemonEvent::Persisted { event }) => daemon.go_on_storing(
            event,
            backfill,
        ),
        (DaemonStage::AwaitLine, _) => silent_step(daemon.listen(backfill)),
        (DaemonStage::AwaitBackfill, _) => {
            daemon.stage = DaemonStage::AwaitSession;
            step_saying(&daemon.args, "Syncing session state...", DaemonAction::SyncSession)
        },
        (DaemonStage::AwaitSession, _) => {
            daemon.stage = DaemonStage::Finished;
            step_saying(&daemon.args, daemon.stopped().as_str(), DaemonAction::Done)
        },
        _ => {
            daemon.stage = DaemonStage::Finished;
            silent_step(DaemonAction::Fail { context: None })
        },
    }
}

} // verus!
