//! What the daemon does every half minute beside listening: it reports its health, and imports
//! one page of older history on its own writer.

use crate::history::{history_page, HistoryAction, HistoryEvent, HistoryFailure, HistoryRun};
use crate::notice::{joined, LogLevel, LogLine};
use crate::onboarding::{probe, Health, PROBE_TIMEOUT_SECONDS};
use crate::time::Timestamp;
use vstd::prelude::*;

#[allow(unused_imports)]
use crate::document::document_text;
#[allow(unused_imports)]
use crate::history::fresh_state;
#[allow(unused_imports)]
use crate::json::is_one_line;
#[allow(unused_imports)]
use crate::notice::log_text;
#[allow(unused_imports)]
use crate::onboarding::{after_probe, health_members};
#[allow(unused_imports)]
use crate::text::{signed_decimal, text_of};
#[allow(unused_imports)]
use crate::time::rfc3339_text;

verus! {

/// Seconds between two reports.
pub const REPORT_INTERVAL_SECONDS: u64 = 30;

/// Where a report stands.
#[derive(Clone, Copy, Debug, PartialEq, Eq, Structural)]
pub enum ReportStage {
    Resting,
    AwaitProbe,
    AwaitWrite,
    Importing,
}

/// The reports: the health that was last found out, and the import under way, or the last one.
#[derive(Debug)]
pub struct ReportRun {
    pub stage: ReportStage,
    pub health: Health,
    pub import: HistoryRun,
}

/// What happened outside.
#[derive(Debug)]
pub enum ReportEvent {
    TimerTicked,
    /// The account that answered, if one did in time, whether the archive could be read, and
    /// the time at which the probe began.
    Probed { now: Timestamp, account: Option<i64>, archive_ok: bool },
    HealthWritten,
    /// The health could not be written; the report before it stays, and grows stale.
    HealthFailed { error: String },
    /// The import went on.
    Imported { event: HistoryEvent },
    /// What the import awaited failed, with the error's text.
    ImportFailed { error: String },
}

/// What is to be done next.
#[derive(Debug)]
pub enum ReportAction {
    Probe { timeout_seconds: u64 },
    /// Replace the report by this text.
    WriteHealth { text: String },
    ReadRequest,
    Import { action: HistoryAction },
    /// Wait for the next tick.
    Rest,
}

/// What goes to the log, and what is to be done next.
#[derive(Debug)]
pub struct ReportStep {
    pub log: Option<LogLine>,
    pub action: ReportAction,
}

/// What the log says of an import that failed for a reason of its own.
pub open spec fn import_failure(failure: HistoryFailure) -> Seq<char> {
    match failure {
        HistoryFailure::TooManyRequests => "Too many history requests"@,
        HistoryFailure::InvalidState => "Invalid history state"@,
        HistoryFailure::Outside => "unknown"@,
    }
}

impl ReportRun {
    pub open spec fn wf(self) -> bool {
        self.stage is Importing ==> self.import.wf() && !(self.import.stage is Finished)
    }

    /// The event is one that is awaited.
    pub open spec fn admits(self, event: ReportEvent) -> bool {
        match (self.stage, event) {
            (ReportStage::Resting, ReportEvent::TimerTicked) => true,
            (ReportStage::AwaitProbe, ReportEvent::Probed { now, account, archive_ok }) =>
                now.valid(),
            (ReportStage::AwaitWrite, ReportEvent::HealthWritten) => true,
            (ReportStage::AwaitWrite, ReportEvent::HealthFailed { error }) => true,
            (ReportStage::Importing, ReportEvent::Imported { event }) => !(event is Failed)
                && self.import.admits(event),
            (ReportStage::Importing, ReportEvent::ImportFailed { error }) => self.import.admits(
                HistoryEvent::Failed,
            ),
            _ => false,
        }
    }

    /// The report is done with, and the import begins where it may.
    pub open spec fn turns_to_import(self, imports: bool, next: ReportRun, action: ReportAction) -> bool {
        if imports {
            &&& next == (ReportRun { stage: ReportStage::Importing, import: next.import, ..self })
            &&& next.import.stage is AwaitRequest
            &&& next.import.chat_ids@.len() == 0
            &&& next.import.state@ == fresh_state()
            &&& action is ReadRequest
        } else {
            &&& next == (ReportRun { stage: ReportStage::Resting, ..self })
            &&& action is Rest
        }
    }

    /// How an event moves a report on, what is logged, and what the event calls for. `imports`
    /// tells whether history may be imported.
    pub open spec fn moves(
        self,
        imports: bool,
        event: ReportEvent,
        next: ReportRun,
        step: ReportStep,
    ) -> bool {
        match event {
            ReportEvent::TimerTicked => {
                &&& next == (ReportRun { stage: ReportStage::AwaitProbe, ..self })
                &&& step.log is None
                &&& step.action == (ReportAction::Probe { timeout_seconds: PROBE_TIMEOUT_SECONDS })
            },
            ReportEvent::Probed { now, account, archive_ok } => {
                &&& next == (ReportRun {
                    stage: ReportStage::AwaitWrite,
                    health: next.health,
                    ..self
                })
                &&& next.health@ == after_probe(
                    self.health@,
                    rfc3339_text(now.seconds, now.nanos),
                    account,
                    archive_ok,
                )
                &&& step.log is None
                &&& step.action matches ReportAction::WriteHealth { text }
                &&& text@ == document_text(health_members(next.health@))
                &&& is_one_line(text@)
            },
            ReportEvent::HealthWritten => {
                &&& self.turns_to_import(imports, next, step.action)
                &&& step.log is None
            },
            ReportEvent::HealthFailed { error } => {
                &&& self.turns_to_import(imports, next, step.action)
                &&& log_text(step.log) == Some(
                    (LogLevel::Warn, "health report failed: "@ + error@),
                )
            },
            ReportEvent::Imported { event } => {
                &&& next == (ReportRun { stage: next.stage, import: next.import, ..self })
                &&& exists|import: HistoryAction|
                    {
                        &&& #[trigger] self.import.moves(event, next.import, import)
                        &&& match import {
                            HistoryAction::Done => {
                                &&& next.stage is Resting
                                &&& step.action is Rest
                                &&& step.log is None
                            },
                            HistoryAction::Fail { failure } => {
                                &&& next.stage is Resting
                                &&& step.action is Rest
                                &&& log_text(step.log) == Some(
                                    (
                                        LogLevel::Warn,
                                        "history import failed: "@ + import_failure(failure),
                                    ),
                                )
                            },
                            _ => {
                                &&& next.stage is Importing
                                &&& step.action == (ReportAction::Import { action: import })
                                &&& step.log is None
                            },
                        }
                    }
            },
            ReportEvent::ImportFailed { error } => {
                &&& next == (ReportRun {
                    stage: ReportStage::Resting,
                    import: next.import,
                    ..self
                })
                &&& next.import.stage is Finished
                &&& step.action is Rest
                &&& log_text(step.log) == Some(
                    (LogLevel::Warn, "history import failed: "@ + error@),
                )
            },
        }
    }

    /// Reports that go on from the health that was last reported.
    pub fn new(health: Health) -> (res: ReportRun)
        ensures
            res.wf(),
            res.stage is Resting,
            res.health == health,
            res.import.stage is AwaitRequest,
    {
        ReportRun { stage: ReportStage::Resting, health, import: HistoryRun::start() }
    }

    fn turn_to_import(&mut self, imports: bool) -> (res: ReportAction)
        ensures
            final(self).wf(),
            old(self).turns_to_import(imports, *final(self), res),
    {
        if imports {
            self.import = HistoryRun::start();
            self.stage = ReportStage::Importing;
            ReportAction::ReadRequest
        } else {
            self.stage = ReportStage::Resting;
            ReportAction::Rest
        }
    }
}

fn warning(prefix: &str, error: &str) -> (res: Option<LogLine>)
    ensures
        log_text(res) == Some((LogLevel::Warn, prefix@ + error@)),
{
    Some(LogLine { level: LogLevel::Warn, text: joined(prefix, error) })
}

/// Reports: moves on by what happened outside, and returns what is to be done next.
pub fn report(run: &mut ReportRun, imports: bool, event: ReportEvent) -> (res: ReportStep)
    requires
        old(run).wf(),
        old(run).admits(event),
    ensures
        final(run).wf(),
        old(run).moves(imports, event, *final(run), res),
{
    match event {
        ReportEvent::TimerTicked => {
            run.stage = ReportStage::AwaitProbe;
            ReportStep {
                log: None,
                action: ReportAction::Probe { timeout_seconds: PROBE_TIMEOUT_SECONDS },
            }
        },
        ReportEvent::Probed { now, account, archive_ok } => {
            let text = probe(&mut run.health, now, account, archive_ok);
            run.stage = ReportStage::AwaitWrite;
            ReportStep { log: None, action: ReportAction::WriteHealth { text } }
        },
        ReportEvent::HealthWritten => ReportStep {
            log: None,
            action: run.turn_to_import(imports),
        },
        ReportEvent::HealthFailed { error } => ReportStep {
            log: warning("health report failed: ", error.as_str()),
            action: run.turn_to_import(imports),
        },
        ReportEvent::Imported { event } => {
            let import = history_page(&mut run.import, event);
            assert(old(run).import.moves(event, run.import, import));
            match import {
                HistoryAction::Done => {
                    run.stage = ReportStage::Resting;
                    ReportStep { log: None, action: ReportAction::Rest }
                },
                HistoryAction::Fail { failure } => {
                    run.stage = ReportStage::Resting;
                    let reason = match failure.message() {
                        Some(text) => text,
                        None => "unknown",
                    };
                    ReportStep {
                        log: warning("history import failed: ", reason),
                        action: ReportAction::Rest,
                    }
                },
                action => ReportStep { log: None, action: ReportAction::Import { action } },
            }
        },
        ReportEvent::ImportFailed { error } => {
            let _ = history_page(&mut run.import, HistoryEvent::Failed);
            run.stage = ReportStage::Resting;
            ReportStep {
                log: warning("history import failed: ", error.as_str()),
                action: ReportAction::Rest,
            }
        },
    }
}

/// Every tick is answered by a probe and every probe by a report, and a report fails exactly
/// where it could not be written: a connection or an archive that does not answer is no failure
/// of the report. After the report, written or not, comes the import, where one may, and each
/// import ends in rest.
pub proof fn every_tick_is_reported(
    run: ReportRun,
    imports: bool,
    event: ReportEvent,
    next: ReportRun,
    step: ReportStep,
)
    requires
        run.wf(),
        run.admits(event),
        run.moves(imports, event, next, step),
    ensures
        event is TimerTicked <==> step.action is Probe,
        event is Probed <==> step.action is WriteHealth,
        run.stage is AwaitWrite ==> (step.log is Some <==> event is HealthFailed),
        run.stage is AwaitWrite ==> (step.action is ReadRequest <==> imports),
        step.action is ReadRequest ==> imports && run.stage is AwaitWrite,
        step.action is Rest <==> next.stage is Resting,
        step.action is Import ==> run.stage is Importing && next.stage is Importing,
{
}

/// A report goes in order: a tick is answered by a probe of fifteen seconds at most, and what
/// cannot be written is logged, with the reason. The import that follows goes on as by itself,
/// from the start of one, and what fails in it is logged, with the reason.
pub proof fn reports_go_in_order(
    run: ReportRun,
    imports: bool,
    event: ReportEvent,
    next: ReportRun,
    step: ReportStep,
)
    requires
        run.wf(),
        run.admits(event),
        run.moves(imports, event, next, step),
    ensures
        event is TimerTicked ==> step.action == (ReportAction::Probe { timeout_seconds: 15 }),
        event is HealthWritten || event is HealthFailed ==> if imports {
            step.action is ReadRequest && next.import.stage is AwaitRequest && next.stage
                is Importing
        } else {
            step.action is Rest && next.stage is Resting
        },
        event is ImportFailed ==> step.action is Rest,
        event matches ReportEvent::HealthFailed { error } ==> (step.log matches Some(line)
            && line.level is Warn && line.text@ == "health report failed: "@ + error@),
        event matches ReportEvent::ImportFailed { error } ==> (step.log matches Some(line)
            && line.level is Warn && line.text@ == "history import failed: "@ + error@),
        event is TimerTicked || event is Probed || event is HealthWritten ==> step.log is None,
        !(event is Probed) ==> next.health == run.health,
{
}

/// An import under way goes on by its own rules: what it calls for is what the report calls for,
/// until it is done, or fails for a reason of its own, which is logged.
pub proof fn imports_go_on_by_themselves(
    run: ReportRun,
    imports: bool,
    event: HistoryEvent,
    next: ReportRun,
    step: ReportStep,
) -> (action: HistoryAction)
    requires
        run.wf(),
        run.admits((ReportEvent::Imported { event })),
        run.moves(imports, (ReportEvent::Imported { event }), next, step),
    ensures
        run.import.admits(event),
        run.import.moves(event, next.import, action),
        action is Done ==> step.action is Rest && step.log is None,
        action == (HistoryAction::Fail { failure: HistoryFailure::TooManyRequests }) ==> step.action
            is Rest && (step.log matches Some(line) && line.level is Warn && line.text@
            == "history import failed: "@ + "Too many history requests"@),
        action == (HistoryAction::Fail { failure: HistoryFailure::InvalidState }) ==> step.action
            is Rest && (step.log matches Some(line) && line.level is Warn && line.text@
            == "history import failed: "@ + "Invalid history state"@),
        !(action is Done || action is Fail) ==> step.action == (ReportAction::Import { action })
            && step.log is None,
{
    choose|action: HistoryAction|
        {
            &&& #[trigger] run.import.moves(event, next.import, action)
            &&& match action {
                HistoryAction::Done => step.action is Rest && step.log is None,
                HistoryAction::Fail { failure } => {
                    &&& step.action is Rest
                    &&& log_text(step.log) == Some(
                        (LogLevel::Warn, "history import failed: "@ + import_failure(failure)),
                    )
                },
                _ => {
                    &&& step.action == (ReportAction::Import { action })
                    &&& step.log is None
                },
            }
        }
}

/// What is reported is what the probe found out, at the time at which it began: whether an
/// account answered and which, and whether the archive could be read. What it could not find out
/// stays as it was.
pub proof fn a_report_tells_the_probe(
    run: ReportRun,
    imports: bool,
    now: Timestamp,
    account: Option<i64>,
    archive_ok: bool,
    next: ReportRun,
    step: ReportStep,
)
    requires
        run.moves(imports, (ReportEvent::Probed { now, account, archive_ok }), next, step),
    ensures
        ({
            let at = rfc3339_text(now.seconds, now.nanos);
            let health = next.health;
            &&& health.contract@ == "northstar-macos-v1"@
            &&& health.checked_at@ == at
            &&& account matches Some(id) ==> {
                &&& health.connected_at matches Some(text) && text@ == at
                &&& health.account_id matches Some(text) && text@ == signed_decimal(id as int)
            }
            &&& account is None ==> text_of(health.connected_at) == text_of(run.health.connected_at)
                && text_of(health.account_id) == text_of(run.health.account_id)
            &&& archive_ok ==> (health.capture_checked_at matches Some(text) && text@ == at)
            &&& !archive_ok ==> text_of(health.capture_checked_at) == text_of(
                run.health.capture_checked_at,
            )
            &&& archive_ok && account is Some ==> health.error is None
            &&& archive_ok && account is None ==> (health.error matches Some(text) && text@
                == "Telegram connection needs attention"@)
            &&& !archive_ok ==> (health.error matches Some(text) && text@
                == "Local archive needs attention"@)
            &&& step.action matches ReportAction::WriteHealth { text }
            &&& text@ == document_text(health_members(health@))
        }),
{
    assert(next.health@.checked_at == next.health.checked_at@);
    assert(next.health@.contract == next.health.contract@);
    assert(next.health@.error == text_of(next.health.error));
    assert(next.health@.connected_at == text_of(next.health.connected_at));
    assert(next.health@.account_id == text_of(next.health.account_id));
    assert(next.health@.capture_checked_at == text_of(next.health.capture_checked_at));
}

} // verus!
