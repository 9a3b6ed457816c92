//! What holds of the daemon, however long it runs.

use crate::backfill::BackfillPhase;
use crate::daemon::{DaemonAction, DaemonEvent, DaemonRun, DaemonStage, DaemonStep, LiveUpdate};
use crate::ingest::{PersistAction, PersistEvent};
use crate::ingest_laws::Storing;
use crate::message::{MessageUpdate, RawUpdate};
use crate::notice::LogLevel;
use crate::onboarding::Health;
use crate::report::{ReportAction, ReportEvent, ReportStep};
use crate::sync::{ReconcileAction, ReconcileEvent};
use vstd::prelude::*;

#[allow(unused_imports)]
use crate::ingest_laws::{every_other_message_is_stored, is_broadcast, rank};
#[allow(unused_imports)]
use crate::json::{is_one_line, object_text};
#[allow(unused_imports)]
use crate::message::raw_deletion;
#[allow(unused_imports)]
use crate::notice::{log_text, optional_log, texts};
#[allow(unused_imports)]
use crate::onboarding::PROBE_TIMEOUT_SECONDS;
#[allow(unused_imports)]
use crate::stream::deletion_fields;
#[allow(unused_imports)]
use crate::text::{decimal, occurs_in, text_of};

verus! {

/// The life of a daemon: the states it went through, what happened outside, how far the
/// background sync was at the time, and what the daemon made of each event.
pub struct Life {
    pub states: Seq<DaemonRun>,
    pub events: Seq<DaemonEvent>,
    pub backfill: Seq<BackfillPhase>,
    pub steps: Seq<DaemonStep>,
}

impl Life {
    /// The event at the given position was awaited, and led where it is said to have led.
    pub open spec fn step(self, k: int) -> bool {
        &&& self.states[k].wf()
        &&& self.states[k].admits(self.events[k])
        &&& self.states[k].moves(
            self.events[k],
            self.backfill[k],
            self.states[k + 1],
            self.steps[k],
        )
    }

    pub open spec fn wf(self) -> bool {
        &&& self.states.len() == self.events.len() + 1
        &&& self.backfill.len() == self.events.len()
        &&& self.steps.len() == self.events.len()
        &&& self.states[0].stage is Begin
        &&& self.states[0].messages_received == 0
        &&& self.states[0].messages_stored == 0
        &&& forall|k: int| 0 <= k < self.events.len() ==> #[trigger] self.step(k)
        &&& forall|j: int, k: int|
            0 <= j <= k < self.events.len() && (#[trigger] self.backfill[j]) is Over ==> (
            #[trigger] self.backfill[k]) is Over
    }

    /// The chats to skip.
    pub open spec fn ignore_set(self) -> Set<i64> {
        self.states[0].args.ignore_chat_ids@.to_set()
    }

    /// How many of the first events are updates.
    pub open spec fn received(self, n: int) -> nat
        decreases n,
    {
        if n <= 0 {
            0
        } else if self.events[n - 1] is UpdateReceived {
            self.received(n - 1) + 1
        } else {
            self.received(n - 1)
        }
    }

    /// How many of the first events tell that a message was written.
    pub open spec fn stored(self, n: int) -> nat
        decreases n,
    {
        if n <= 0 {
            0
        } else if self.events[n - 1] matches DaemonEvent::Persisted { event }
            && event is MessageWritten {
            self.stored(n - 1) + 1
        } else {
            self.stored(n - 1)
        }
    }
}

/// How far a stage is from the start. All that happens while the daemon listens is one.
pub open spec fn order(stage: DaemonStage) -> int {
    match stage {
        DaemonStage::Begin => 0,
        DaemonStage::AwaitApp => 1,
        DaemonStage::StartupSync => 2,
        DaemonStage::AwaitReceiver => 3,
        DaemonStage::AwaitStream => 4,
        DaemonStage::AwaitSpawn => 5,
        DaemonStage::AwaitTimer => 6,
        DaemonStage::Listening { .. } => 7,
        DaemonStage::PeriodicSync => 7,
        DaemonStage::Reporting => 7,
        DaemonStage::Storing => 7,
        DaemonStage::AwaitDeletionChat => 7,
        DaemonStage::AwaitLine => 7,
        DaemonStage::AwaitBackfill => 8,
        DaemonStage::AwaitSession => 9,
        DaemonStage::Finished => 10,
    }
}

proof fn lemma_past(life: Life, n: int)
    requires
        life.wf(),
        0 <= n <= life.events.len(),
    ensures
        life.states[n].args == life.states[0].args,
        life.stored(n) <= life.received(n),
        life.states[n].stage is Storing && rank(life.states[n].persist->0.stage) <= 3
            ==> life.stored(n) < life.received(n),
        life.received(n) <= u64::MAX ==> life.states[n].messages_received == life.received(n),
        life.received(n) <= u64::MAX ==> life.states[n].messages_stored == life.stored(n),
    decreases n,
{
    if n > 0 {
        lemma_past(life, n - 1);
        assert(life.step(n - 1));
    }
}

/// The arguments never change, and a quiet daemon says nothing.
pub proof fn a_quiet_daemon_says_nothing(life: Life, k: int)
    requires
        life.wf(),
        0 <= k < life.events.len(),
        life.states[0].args.quiet,
    ensures
        life.states[k].args == life.states[0].args,
        life.steps[k].notices@.len() == 0,
{
    lemma_past(life, k);
    assert(life.step(k));
    assert(texts(life.steps[k].notices@).len() == 0);
}

/// The daemon goes through its stages in order, and never back to one before.
pub proof fn stages_go_forward(life: Life, j: int, k: int)
    requires
        life.wf(),
        0 <= j <= k <= life.events.len(),
    ensures
        order(life.states[j].stage) <= order(life.states[k].stage),
    decreases k - j,
{
    if j < k {
        stages_go_forward(life, j, k - 1);
        assert(life.step(k - 1));
    }
}

/// The startup catch-up comes before the live stream: unless it is to be skipped, the daemon
/// was in it before it starts the stream, and it is never in it again.
pub proof fn catch_up_comes_before_the_stream(life: Life, k: int, later: int) -> (j: int)
    requires
        life.wf(),
        0 <= k < later <= life.events.len(),
        life.steps[k].action is StartStream,
    ensures
        !life.states[0].args.no_startup_catchup ==> 0 <= j < k && life.states[j].stage
            is StartupSync,
        !(life.states[later].stage is StartupSync),
{
    lemma_past(life, k);
    assert(life.step(k));
    stages_go_forward(life, k + 1, later);
    lemma_came_through(life, k)
}

/// A daemon that awaits its receiver came through the startup catch-up, unless that is skipped.
proof fn lemma_came_through(life: Life, n: int) -> (j: int)
    requires
        life.wf(),
        0 <= n <= life.events.len(),
        life.states[n].stage is AwaitReceiver,
    ensures
        !life.states[0].args.no_startup_catchup ==> 0 <= j < n && life.states[j].stage
            is StartupSync,
{
    assert(n > 0);
    lemma_past(life, n - 1);
    assert(life.step(n - 1));
    n - 1
}

/// No reconciliation is fatal: whatever comes of it, the daemon goes on to its receiver, or
/// back to listening.
pub proof fn reconciliation_is_never_fatal(life: Life, k: int)
    requires
        life.wf(),
        0 <= k < life.events.len(),
    ensures
        life.states[k].stage is StartupSync ==> life.states[k + 1].stage is StartupSync
            || life.states[k + 1].stage is AwaitReceiver,
        life.states[k].stage is PeriodicSync ==> life.states[k + 1].stage is PeriodicSync
            || life.states[k + 1].stage is Listening,
{
    assert(life.step(k));
}

/// Every update is received once and stored once at most: the counters tell how many updates
/// arrived and how many messages were written, and never more of these than of those. The
/// counters go round after more updates than they can count.
pub proof fn counters_tell_the_truth(life: Life, n: int)
    requires
        life.wf(),
        0 <= n <= life.events.len(),
    ensures
        life.stored(n) <= life.received(n),
        life.received(n) <= u64::MAX ==> {
            &&& life.states[n].messages_received == life.received(n)
            &&& life.states[n].messages_stored == life.stored(n)
        },
{
    lemma_past(life, n);
}

/// A deletion never touches the archive: it is told of in the stream, where its chat was looked
/// up first if need be, or passed over.
pub proof fn deletions_keep_the_archive(life: Life, k: int)
    requires
        life.wf(),
        0 <= k < life.events.len(),
        life.events[k] matches DaemonEvent::UpdateReceived { update } && update is MessageDeleted,
    ensures
        life.steps[k].action is WriteLine || life.steps[k].action is FindDeletionChat
            || life.steps[k].action is Listen,
        !(life.steps[k].action is Listen) ==> life.states[0].args.stream,
        life.states[k + 1].messages_stored == life.states[k].messages_stored,
        life.stored(k + 1) == life.stored(k),
{
    lemma_past(life, k);
    assert(life.step(k));
}

/// A deletion in a chat that is to be ignored is passed over.
pub proof fn deletions_in_ignored_chats_are_passed_over(life: Life, k: int, raw: RawUpdate, id: i64)
    requires
        life.wf(),
        0 <= k < life.events.len(),
        life.events[k] == (DaemonEvent::UpdateReceived {
            update: LiveUpdate::MessageDeleted(raw),
        }),
        raw_deletion(raw) matches Some(deletion) && deletion.0 == Some(id),
        life.states[0].args.ignore_chat_ids@.contains(id),
    ensures
        life.steps[k].action is Listen,
        life.states[k + 1].stage is Listening,
{
    lemma_past(life, k);
    assert(life.step(k));
}

/// Where channels are to be ignored, a deletion in a channel is told of only when the archive
/// knows that it is no channel but a group.
pub proof fn deletions_in_ignored_channels_are_passed_over(life: Life, k: int)
    requires
        life.wf(),
        0 <= k < life.events.len(),
        life.states[0].args.ignore_channels,
        life.steps[k].action is WriteLine,
    ensures
        match life.events[k] {
            DaemonEvent::UpdateReceived { update: LiveUpdate::MessageDeleted(raw) } =>
                raw_deletion(raw) matches Some(deletion) && deletion.0 is None,
            DaemonEvent::DeletionChatFound { kind } => kind matches Some(text) && text@
                != "channel"@,
            _ => false,
        },
{
    lemma_past(life, k);
    assert(life.step(k));
}

proof fn lemma_in_hand(life: Life, n: int)
    requires
        life.wf(),
        0 <= n <= life.events.len(),
        life.states[n].stage is Storing,
        life.states[n].persist->0.in_hand(),
    ensures
        !life.states[n].persist->0.ignored(life.states[0].args, life.ignore_set()),
    decreases n,
{
    lemma_past(life, n);
    assert(n > 0);
    lemma_past(life, n - 1);
    assert(life.step(n - 1));
    if life.states[n - 1].stage is Storing && life.states[n - 1].persist->0.in_hand() {
        lemma_in_hand(life, n - 1);
    }
}

/// Of a chat that is to be ignored nothing is ever stored or told: whatever is written of a
/// message, neither is its chat among those to ignore, nor is it a channel where channels are
/// to be ignored.
pub proof fn ignored_chats_are_never_stored(life: Life, k: int)
    requires
        life.wf(),
        0 <= k < life.events.len(),
        life.steps[k].action matches DaemonAction::Persist { action } && (action is WriteMessage
            || action is WriteLine || action is WriteContact || action is WriteChat),
    ensures
        !life.states[0].args.ignore_chat_ids@.contains(
            life.states[k].persist->0.message.chat_id() as i64,
        ),
        !(life.states[0].args.ignore_channels && life.states[k + 1].persist->0.chat_kind()
            == "channel"@),
{
    lemma_past(life, k);
    assert(life.step(k));
    lemma_past(life, k + 1);
    lemma_in_hand(life, k + 1);
}

/// The health is reported every half minute: before the daemon listens for the first time it
/// starts a timer of that period, whenever it listens it hears the timer, and every tick is
/// answered by a probe.
pub proof fn health_is_reported_every_half_minute(life: Life, k: int) -> (j: int)
    requires
        life.wf(),
        0 <= k < life.events.len(),
    ensures
        life.states[k].stage is Listening ==> {
            &&& 0 <= j < k
            &&& life.steps[j].action matches DaemonAction::StartTimer { report_seconds, .. }
            &&& report_seconds == 30
        },
        life.states[k].stage is Listening ==> life.states[k].admits(DaemonEvent::ReportTicked),
        life.events[k] is ReportTicked ==> {
            &&& life.steps[k].action matches DaemonAction::Report { action }
            &&& action == (ReportAction::Probe { timeout_seconds: PROBE_TIMEOUT_SECONDS })
        },
{
    assert(life.step(k));
    if order(life.states[k].stage) == 7 {
        lemma_timer(life, k)
    } else {
        -1
    }
}

/// A daemon that listens, or does what it does while it listens, has started its timers.
proof fn lemma_timer(life: Life, n: int) -> (j: int)
    requires
        life.wf(),
        0 <= n <= life.events.len(),
        6 <= order(life.states[n].stage) <= 7,
    ensures
        0 <= j < n,
        life.steps[j].action matches DaemonAction::StartTimer { report_seconds, .. }
            && report_seconds == 30,
    decreases n,
{
    assert(n > 0);
    assert(life.step(n - 1));
    if order(life.states[n - 1].stage) >= 6 {
        lemma_timer(life, n - 1)
    } else {
        n - 1
    }
}

/// No report is fatal: whatever comes of it, the daemon goes on to listen.
pub proof fn reports_are_never_fatal(life: Life, k: int)
    requires
        life.wf(),
        0 <= k < life.events.len(),
        life.states[k].stage is Reporting,
    ensures
        life.states[k + 1].stage is Reporting || life.states[k + 1].stage is Listening,
        life.stored(k + 1) == life.stored(k),
{
    assert(life.step(k));
}

proof fn lemma_importing(life: Life, n: int)
    requires
        life.wf(),
        0 <= n <= life.events.len(),
        life.states[n].stage is Reporting,
        life.states[n].report.stage is Importing,
    ensures
        n > 0,
        life.states[0].args.no_backfill || life.backfill[n - 1] is Over,
    decreases n,
{
    lemma_past(life, n);
    assert(n > 0);
    lemma_past(life, n - 1);
    assert(life.step(n - 1));
    if life.states[n - 1].stage is Reporting && life.states[n - 1].report.stage is Importing {
        lemma_importing(life, n - 1);
        assert(life.backfill[n - 2] is Over ==> life.backfill[n - 1] is Over);
    }
}

/// No import runs beside the background sync: whatever an import calls for, there is no
/// background sync, or it is over for good.
pub proof fn no_import_beside_the_backfill(life: Life, k: int)
    requires
        life.wf(),
        0 <= k < life.events.len(),
        life.steps[k].action matches DaemonAction::Report { action } && (action is ReadRequest
            || action is Import),
    ensures
        life.states[0].args.no_backfill || life.backfill[k] is Over,
{
    lemma_past(life, k);
    assert(life.step(k));
    if life.states[k].report.stage is Importing {
        lemma_importing(life, k);
        assert(life.backfill[k - 1] is Over ==> life.backfill[k] is Over);
    }
}

/// A report is followed by an import, wherever there is no background sync or it is over: the
/// request is read, by the daemon itself.
pub proof fn every_report_is_followed_by_an_import(life: Life, k: int)
    requires
        life.wf(),
        0 <= k < life.events.len(),
        life.states[k].stage is Reporting,
        life.states[k].report.stage is AwaitWrite,
        life.states[0].args.no_backfill || life.backfill[k] is Over,
    ensures
        life.steps[k].action matches DaemonAction::Report { action } && action is ReadRequest,
{
    lemma_past(life, k);
    assert(life.step(k));
}

/// A reconciliation begins only where reconciliations are enabled, and never beside the
/// background sync: it did not run when the daemon began to listen for the tick.
pub proof fn no_reconciliation_beside_the_backfill(life: Life, k: int)
    requires
        life.wf(),
        0 <= k < life.events.len(),
        life.events[k] is TimerTicked,
    ensures
        life.states[0].args.reconcile_interval_seconds > 0,
        k > 0,
        !(life.backfill[k - 1] is Running),
{
    lemma_past(life, k);
    assert(life.step(k));
    assert(k > 0);
    lemma_past(life, k - 1);
    assert(life.step(k - 1));
}

/// An error of the stream ends the daemon exactly when it says that something was dropped.
pub proof fn only_a_dropped_stream_ends_the_daemon(life: Life, k: int, error: String)
    requires
        life.wf(),
        0 <= k < life.events.len(),
        life.events[k] == (DaemonEvent::StreamFailed { error }),
    ensures
        life.states[k + 1].stage is Listening <==> !occurs_in(error@, "Dropped"@),
        !(life.steps[k].action is Fail),
{
    assert(life.step(k));
}

/// The daemon fails only where it cannot begin, or cannot store a message; never after the
/// message was stored.
pub proof fn failures_lose_no_stored_message(life: Life, k: int)
    requires
        life.wf(),
        0 <= k < life.events.len(),
        life.steps[k].action is Fail,
    ensures
        life.states[k].stage is AwaitApp || life.states[k].stage is AwaitReceiver || (
        life.states[k].stage is Storing && rank(life.states[k].persist->0.stage) <= 3),
        life.stored(k + 1) == life.stored(k),
        life.states[k + 1].stage is Finished,
{
    assert(life.step(k));
}

/// A message is told of in the stream only when its write has just succeeded.
pub proof fn lines_follow_writes(life: Life, k: int)
    requires
        life.wf(),
        0 <= k < life.events.len(),
        life.steps[k].action matches DaemonAction::Persist { action } && action is WriteLine,
    ensures
        life.states[0].args.stream,
        life.events[k] matches DaemonEvent::Persisted { event } && event is MessageWritten,
        life.stored(k + 1) == life.stored(k) + 1,
{
    lemma_past(life, k);
    assert(life.step(k));
}

/// The stream is one of lines: whatever a message holds, what is told of an update is one line.
pub proof fn each_update_is_one_line(life: Life, k: int, line: String)
    requires
        life.wf(),
        0 <= k < life.events.len(),
        life.steps[k].action == (DaemonAction::WriteLine { line }) || life.steps[k].action == (
        DaemonAction::Persist { action: PersistAction::WriteLine { line } }),
    ensures
        is_one_line(line@),
{
    assert(life.step(k));
}

/// A daemon that ends well has written its session down, and is then at its end.
pub proof fn the_session_is_saved_before_the_end(life: Life, k: int)
    requires
        life.wf(),
        0 <= k < life.events.len(),
        life.steps[k].action is Done,
    ensures
        k > 0,
        life.steps[k - 1].action is SyncSession,
        life.states[k + 1].stage is Finished,
        k + 1 == life.events.len(),
{
    assert(life.step(k));
    assert(k > 0);
    assert(life.step(k - 1));
    if k + 1 < life.events.len() {
        assert(life.step(k + 1));
    }
}

/// Every message is stored: whatever it holds, whoever sent it and whichever way it went, a new
/// or edited message that arrives is the next thing that the daemon stores, as it is.
pub proof fn every_message_is_stored(life: Life, k: int, message: MessageUpdate)
    requires
        life.wf(),
        0 <= k < life.events.len(),
        life.events[k] == (DaemonEvent::UpdateReceived { update: LiveUpdate::NewMessage(message) })
            || life.events[k] == (DaemonEvent::UpdateReceived {
            update: LiveUpdate::MessageEdited(message),
        }),
    ensures
        life.steps[k].action is OpenStore,
        life.states[k + 1].stage is Storing,
        life.states[k + 1].persist matches Some(run) && run.message == message && run.stage
            is AwaitStore && (run.is_edit <==> life.events[k] == (DaemonEvent::UpdateReceived {
            update: LiveUpdate::MessageEdited(message),
        })),
{
    assert(life.step(k));
}

/// The archive is opened for nothing but a message.
pub proof fn only_messages_are_stored(life: Life, k: int)
    requires
        life.wf(),
        0 <= k < life.events.len(),
    ensures
        life.steps[k].action is OpenStore <==> (life.events[k] matches DaemonEvent::UpdateReceived {
            update,
        } && (update is NewMessage || update is MessageEdited)),
{
    assert(life.step(k));
}

/// What the event at the given position, one of a storing, called for.
pub open spec fn stored_by(life: Life, i: int) -> PersistAction {
    choose|action: PersistAction|
        {
            &&& #[trigger] life.states[i].persist->0.moves(
                life.states[i].args,
                life.states[i].ignore_set@,
                life.events[i]->Persisted_event,
                life.states[i + 1].persist->0,
                action,
            )
            &&& match life.steps[i].action {
                DaemonAction::Persist { action: called } => called == action,
                DaemonAction::Fail { context } => action == (PersistAction::Fail { context }),
                DaemonAction::Listen { .. } => action is Finish,
                _ => false,
            }
        }
}

/// What the daemon did of a message between its arrival and the given position, as a storing.
pub open spec fn storing_of(life: Life, j: int, k: int) -> Storing {
    let n = (k - j - 1) as nat;
    Storing {
        args: life.states[0].args,
        ignore_set: life.ignore_set(),
        states: Seq::new(n + 1, |i: int| life.states[j + 1 + i].persist->0),
        events: Seq::new(n, |i: int| life.events[j + 1 + i]->Persisted_event),
        actions: Seq::new(n, |i: int| stored_by(life, j + 1 + i)),
        counts: Seq::new(n + 1, |i: int| life.states[j + 1 + i].messages_stored),
    }
}

/// Each message that arrives has a storing of its own: from its arrival on, as long as the daemon
/// stores, it does with the message what a storing does, event by event.
pub proof fn each_message_has_a_storing(life: Life, j: int, k: int, message: MessageUpdate)
    requires
        life.wf(),
        0 <= j < k <= life.events.len(),
        life.events[j] == (DaemonEvent::UpdateReceived { update: LiveUpdate::NewMessage(message) })
            || life.events[j] == (DaemonEvent::UpdateReceived {
            update: LiveUpdate::MessageEdited(message),
        }),
        forall|i: int| j < i < k ==> (#[trigger] life.states[i]).stage is Storing,
    ensures
        storing_of(life, j, k).wf(),
        storing_of(life, j, k).states[0].message == message,
        message.located(),
        forall|i: int|
            0 <= i < k - j - 1 ==> {
                let action = #[trigger] storing_of(life, j, k).actions[i];
                &&& life.events[j + 1 + i] == (DaemonEvent::Persisted {
                    event: storing_of(life, j, k).events[i],
                })
                &&& match life.steps[j + 1 + i].action {
                    DaemonAction::Persist { action: called } => called == action && !(action
                        is Finish) && !(action is Fail),
                    DaemonAction::Fail { context } => action == (PersistAction::Fail { context }),
                    DaemonAction::Listen { .. } => action is Finish,
                    _ => false,
                }
            },
{
    let storing = storing_of(life, j, k);
    assert(life.step(j));
    assert forall|i: int| 0 <= i < k - j - 1 implies {
        let action = #[trigger] storing.actions[i];
        &&& storing.step(i)
        &&& life.events[j + 1 + i] == (DaemonEvent::Persisted { event: storing.events[i] })
        &&& match life.steps[j + 1 + i].action {
            DaemonAction::Persist { action: called } => called == action && !(action is Finish)
                && !(action is Fail),
            DaemonAction::Fail { context } => action == (PersistAction::Fail { context }),
            DaemonAction::Listen { .. } => action is Finish,
            _ => false,
        }
    } by {
        let at = j + 1 + i;
        assert(life.states[at].stage is Storing);
        lemma_past(life, at);
        assert(life.step(at));
        let event = life.events[at]->Persisted_event;
        assert(life.states[at].stores(
            event,
            life.backfill[at],
            life.states[at + 1],
            life.steps[at],
        ));
        let action = stored_by(life, at);
        assert(storing.actions[i] == action);
        assert(storing.states[i] == life.states[at].persist->0);
        assert(storing.states[i + 1] == life.states[at + 1].persist->0);
        assert(storing.events[i] == event);
        assert(storing.counts[i] == life.states[at].messages_stored);
        assert(storing.counts[i + 1] == life.states[at + 1].messages_stored);
    }
    assert forall|i: int| 0 <= i < storing.events.len() implies #[trigger] storing.step(i) by {
        let action = storing.actions[i];
    }
}

impl Life {
    /// How many of the first events called for the write of a message.
    pub open spec fn written(self, n: int) -> nat
        decreases n,
    {
        if n <= 0 {
            0
        } else if self.steps[n - 1].action matches DaemonAction::Persist { action }
            && action is WriteMessage {
            self.written(n - 1) + 1
        } else {
            self.written(n - 1)
        }
    }
}

proof fn lemma_written(life: Life, j: int, k: int, message: MessageUpdate, n: int)
    requires
        life.wf(),
        0 <= j < k <= life.events.len(),
        life.events[j] == (DaemonEvent::UpdateReceived { update: LiveUpdate::NewMessage(message) })
            || life.events[j] == (DaemonEvent::UpdateReceived {
            update: LiveUpdate::MessageEdited(message),
        }),
        forall|i: int| j < i < k ==> (#[trigger] life.states[i]).stage is Storing,
        0 <= n <= k - j - 1,
    ensures
        life.written(j + 1 + n) == life.written(j) + storing_of(life, j, k).records(n),
        life.stored(j + 1 + n) == life.stored(j) + storing_of(life, j, k).writes(n),
    decreases n,
{
    each_message_has_a_storing(life, j, k, message);
    assert(life.step(j));
    if n > 0 {
        lemma_written(life, j, k, message, n - 1);
        let action = storing_of(life, j, k).actions[n - 1];
        assert(life.step(j + n));
    }
}

/// Every message that is not to be ignored reaches the archive: from its arrival until the daemon
/// listens again, the message is handed to the archive exactly once, and written there. It is to
/// be ignored only where its chat is among those to ignore, or where channels are and the lookup
/// finds it to be in a broadcast channel.
pub proof fn every_other_message_reaches_the_archive(
    life: Life,
    j: int,
    k: int,
    message: MessageUpdate,
)
    requires
        life.wf(),
        0 <= j < k <= life.events.len(),
        life.events[j] == (DaemonEvent::UpdateReceived { update: LiveUpdate::NewMessage(message) })
            || life.events[j] == (DaemonEvent::UpdateReceived {
            update: LiveUpdate::MessageEdited(message),
        }),
        forall|i: int| j < i < k ==> (#[trigger] life.states[i]).stage is Storing,
        life.states[k].stage is Listening,
        !life.states[0].args.ignore_chat_ids@.contains(message.chat_id() as i64),
        life.states[0].args.ignore_channels ==> forall|i: int|
            j < i < k ==> match #[trigger] life.events[i] {
                DaemonEvent::Persisted { event: PersistEvent::ChatFound { chat, .. } } =>
                    !is_broadcast(message, chat),
                _ => true,
            },
    ensures
        life.written(k) == life.written(j) + 1,
        life.stored(k) == life.stored(j) + 1,
{
    let storing = storing_of(life, j, k);
    let n = k - j - 1;
    each_message_has_a_storing(life, j, k, message);
    assert(life.step(j));
    assert(n > 0);
    assert(life.step(k - 1));
    assert(life.states[k - 1].stage is Storing);
    let last = storing.actions[n - 1];
    assert(storing.step(n - 1));
    assert(storing.states.last() == storing.states[n]);
    assert(storing.actions.last() == last);
    if n >= 2 {
        let second = storing.actions[1];
        assert(life.events[j + 2] == (DaemonEvent::Persisted { event: storing.events[1] }));
    }
    assert(!storing.is_ignored());
    every_other_message_is_stored(storing);
    lemma_written(life, j, k, message, n);
}

/// A daemon that listens hears everything: it awaits the end, every update, every error of the
/// stream and the tick of the reports at any time, and the tick of the reconciliations where it
/// said so. Of a message nothing is asked but that it names its chat.
pub proof fn a_listening_daemon_hears_everything(
    run: DaemonRun,
    ticks: bool,
    update: LiveUpdate,
    error: String,
)
    requires
        run.stage == (DaemonStage::Listening { ticks }),
    ensures
        run.admits(DaemonEvent::StopRequested),
        run.admits(DaemonEvent::ReportTicked),
        run.admits((DaemonEvent::StreamFailed { error })),
        run.admits(DaemonEvent::TimerTicked) <==> ticks,
        update is MessageDeleted || update is Other ==> run.admits(
            (DaemonEvent::UpdateReceived { update }),
        ),
        update matches LiveUpdate::NewMessage(message) ==> (run.admits(
            (DaemonEvent::UpdateReceived { update }),
        ) <==> message.located()),
        update matches LiveUpdate::MessageEdited(message) ==> (run.admits(
            (DaemonEvent::UpdateReceived { update }),
        ) <==> message.located()),
{
}

/// The daemon listens for the tick of the reconciliations exactly where they are enabled and the
/// background sync does not run, whatever it has just done.
pub proof fn reconciliations_tick_where_they_may(life: Life, k: int)
    requires
        life.wf(),
        0 <= k < life.events.len(),
    ensures
        life.steps[k].action matches DaemonAction::Listen { ticks } ==> (ticks
            <==> life.states[0].args.reconcile_interval_seconds > 0 && !(life.backfill[k]
            is Running)),
        life.states[k + 1].stage matches DaemonStage::Listening { ticks } ==> life.steps[k].action
            == (DaemonAction::Listen { ticks }),
        life.steps[k].action is Listen <==> life.states[k + 1].stage is Listening,
{
    lemma_past(life, k);
    assert(life.step(k));
}

/// The timers run with their own periods: that of the reconciliations with the interval that was
/// asked for, or a second where none was, that of the reports with half a minute.
pub proof fn timers_have_their_periods(life: Life, k: int, period_seconds: u64, report_seconds: u64)
    requires
        life.wf(),
        0 <= k < life.events.len(),
        life.steps[k].action == (DaemonAction::StartTimer { period_seconds, report_seconds }),
    ensures
        report_seconds == 30,
        life.states[0].args.reconcile_interval_seconds > 0 ==> period_seconds
            == life.states[0].args.reconcile_interval_seconds,
        life.states[0].args.reconcile_interval_seconds == 0 ==> period_seconds == 1,
{
    lemma_past(life, k);
    assert(life.step(k));
}

/// The daemon begins in order: it opens the application, catches up unless that is to be skipped,
/// takes the receiver, starts the stream with what was missed, starts the background sync unless
/// there is none, then its timers, and then listens.
pub proof fn the_daemon_begins_in_order(life: Life, k: int)
    requires
        life.wf(),
        0 <= k < life.events.len(),
    ensures
        ({
            let args = life.states[0].args;
            let action = life.steps[k].action;
            &&& life.events[k] is Started ==> action is OpenApp
            &&& life.events[k] is AppOpened && args.no_startup_catchup ==> action is TakeReceiver
            &&& life.events[k] is AppOpened && !args.no_startup_catchup ==> (
            action matches DaemonAction::Reconcile { action: first } && first is RefreshDialogs)
            &&& life.events[k] matches DaemonEvent::AppOpened { health } ==> life.states[k
                + 1].report.health == health
            &&& life.events[k] is ReceiverTaken ==> action == (DaemonAction::StartStream {
                catch_up: true,
            })
            &&& life.events[k] is StreamStarted && args.no_backfill ==> action is StartTimer
            &&& life.events[k] is StreamStarted && !args.no_backfill ==> action is SpawnBackfill
            &&& life.events[k] is BackfillSpawned ==> action is StartTimer
            &&& life.events[k] is TimerStarted ==> action is Listen
            &&& action is SpawnBackfill ==> !args.no_backfill
        }),
{
    lemma_past(life, k);
    assert(life.step(k));
}

/// A reconciliation begins at the start, unless that is to be skipped, and at every tick, with the
/// chats left out that the daemon ignores, and under the name of its occasion.
pub proof fn reconciliations_begin_when_due(life: Life, k: int)
    requires
        life.wf(),
        0 <= k < life.events.len(),
    ensures
        (life.events[k] is AppOpened && !life.states[0].args.no_startup_catchup)
            || life.events[k] is TimerTicked ==> {
            &&& life.steps[k].action matches DaemonAction::Reconcile {
                action: ReconcileAction::RefreshDialogs { ignore_chat_ids, ignore_channels },
            }
            &&& ignore_chat_ids@ == life.states[0].args.ignore_chat_ids@
            &&& ignore_channels == life.states[0].args.ignore_channels
        },
        life.events[k] is AppOpened && !life.states[0].args.no_startup_catchup ==> life.states[k
            + 1].reconcile.phase@ == "Startup"@ && life.states[k + 1].stage is StartupSync,
        life.events[k] is TimerTicked ==> life.states[k + 1].reconcile.phase@ == "Periodic"@
            && life.states[k + 1].stage is PeriodicSync,
        life.steps[k].action matches DaemonAction::Reconcile { action } && action is RefreshDialogs
            ==> life.events[k] is AppOpened || life.events[k] is TimerTicked,
{
    lemma_past(life, k);
    assert(life.step(k));
}

/// A reconciliation goes on under the daemon as by itself, and the daemon turns to its receiver or
/// listens again exactly when it is at its end.
pub proof fn reconciliations_go_on_by_themselves(
    life: Life,
    k: int,
    event: ReconcileEvent,
) -> (action: ReconcileAction)
    requires
        life.wf(),
        0 <= k < life.events.len(),
        life.events[k] == (DaemonEvent::Reconciled { event }),
    ensures
        life.states[k].reconcile.admits(event),
        life.states[k].reconcile.moves(
            life.states[0].args,
            event,
            life.states[k + 1].reconcile,
            action,
        ),
        action is Sync || action is RefreshDialogs ==> life.steps[k].action == (
        DaemonAction::Reconcile { action }) && life.steps[k].log is None
            && life.steps[k].notices@.len() == 0,
        action matches ReconcileAction::Finish { log, notice } ==> {
            &&& life.steps[k].log matches Some(line)
            &&& line.level is Info
            &&& line.text@ == log@
            &&& notice is None ==> life.steps[k].notices@.len() == 0
            &&& notice matches Some(text) ==> life.steps[k].notices@.len() == 1
                && life.steps[k].notices@[0]@ == text@
            &&& life.states[k].stage is StartupSync ==> life.steps[k].action is TakeReceiver
            &&& life.states[k].stage is PeriodicSync ==> life.steps[k].action is Listen
        },
{
    lemma_past(life, k);
    assert(life.step(k));
    let run = life.states[k];
    let next = life.states[k + 1];
    let step = life.steps[k];
    lemma_texts(step.notices@);
    choose|action: ReconcileAction|
        {
            &&& #[trigger] run.reconcile.moves(run.args, event, next.reconcile, action)
            &&& match action {
                ReconcileAction::Finish { log, notice } => {
                    &&& step.action is TakeReceiver || step.action is Listen
                    &&& texts(step.notices@) == (match notice {
                        Some(text) => seq![text@],
                        None => seq![],
                    })
                    &&& log_text(step.log) == Some((LogLevel::Info, log@))
                },
                _ => {
                    &&& step.action == (DaemonAction::Reconcile { action })
                    &&& step.says(run.args, seq![])
                },
            }
        }
}

proof fn lemma_texts(lines: Seq<String>)
    ensures
        texts(lines).len() == lines.len(),
        forall|i: int| 0 <= i < lines.len() ==> texts(lines)[i] == #[trigger] lines[i]@,
{
}

/// A reconciliation that fails is told of and logged, with the reason, and the daemon goes on.
pub proof fn failed_reconciliations_are_told(life: Life, k: int, error: String)
    requires
        life.wf(),
        0 <= k < life.events.len(),
        life.events[k] == (DaemonEvent::ReconcileFailed { error }),
    ensures
        life.steps[k].log matches Some(line) && line.level is Warn && line.text@ == (if life.states[
            k
        ].stage is StartupSync {
            "startup catch-up failed (continuing to live listen): "@
        } else {
            "periodic reconciliation failed (will retry): "@
        }) + error@,
        !life.states[0].args.quiet ==> life.steps[k].notices@.len() == 1
            && life.steps[k].notices@[0]@ == (if life.states[k].stage is StartupSync {
            "Startup catch-up failed (continuing): "@
        } else {
            "Periodic reconciliation failed (will retry): "@
        }) + error@,
        life.states[k].stage is StartupSync ==> life.steps[k].action is TakeReceiver,
        !(life.states[k].stage is StartupSync) ==> life.steps[k].action is Listen,
{
    lemma_past(life, k);
    assert(life.step(k));
    lemma_texts(life.steps[k].notices@);
}

/// The daemon ends when it is asked to, or when its stream was dropped: it waits five seconds for
/// the background sync where there is one, saves its session in any case, and is then done.
pub proof fn the_daemon_ends_in_order(life: Life, k: int)
    requires
        life.wf(),
        0 <= k < life.events.len(),
    ensures
        ({
            let ends = life.events[k] is StopRequested || (
            life.events[k] matches DaemonEvent::StreamFailed { error } && occurs_in(
                error@,
                "Dropped"@,
            ));
            let args = life.states[0].args;
            &&& ends && !args.no_backfill <==> life.steps[k].action == (
            DaemonAction::AwaitBackfill { timeout_seconds: 5 })
            &&& life.steps[k].action is AwaitBackfill ==> ends
            &&& life.steps[k].action is SyncSession <==> (ends && args.no_backfill)
                || life.events[k] is BackfillAwaited
            &&& life.steps[k].action is Done <==> life.events[k] is SessionSynced
        }),
{
    lemma_past(life, k);
    assert(life.step(k));
}

/// What ends the daemon ends it: once it winds down it listens no more.
pub proof fn the_end_is_final(life: Life, k: int, later: int)
    requires
        life.wf(),
        0 <= k < later <= life.events.len(),
        life.events[k] is StopRequested,
    ensures
        !(life.states[later].stage is Listening),
        !(life.states[later].stage is Storing),
{
    assert(life.step(k));
    stages_go_forward(life, k + 1, later);
}

/// The deletions that are not passed over are told of: where there is a stream, those of a channel
/// that is not to be ignored at once, or after its lookup where channels are to be ignored, and
/// those that name no channel at once. The line has the deletion's own chat and messages.
pub proof fn every_other_deletion_is_told(
    life: Life,
    k: int,
    raw: RawUpdate,
    chat_id: Option<i64>,
    messages: Seq<i32>,
)
    requires
        life.wf(),
        0 <= k < life.events.len(),
        life.events[k] == (DaemonEvent::UpdateReceived {
            update: LiveUpdate::MessageDeleted(raw),
        }),
        raw_deletion(raw) == Some((chat_id, messages)),
        life.states[0].args.stream,
        chat_id matches Some(id) ==> !life.states[0].args.ignore_chat_ids@.contains(id),
    ensures
        chat_id is None || !life.states[0].args.ignore_channels ==> (
        life.steps[k].action matches DaemonAction::WriteLine { line } && line@ == object_text(
            deletion_fields(chat_id, messages),
        )),
        life.states[0].args.ignore_channels ==> (chat_id matches Some(id) ==> {
            &&& life.steps[k].action == (DaemonAction::FindDeletionChat { chat_id: id })
            &&& life.states[k + 1].stage is AwaitDeletionChat
            &&& life.states[k + 1].deletion matches Some(deletion)
            &&& deletion.chat_id == id
            &&& deletion.messages@ == messages
        }),
{
    lemma_past(life, k);
    assert(life.step(k));
    if let Some(id) = chat_id {
        assert(life.ignore_set().contains(id) <==> life.states[0].args.ignore_chat_ids@.contains(
            id,
        ));
    }
}

/// A deletion whose chat was looked up is told of exactly when the archive knows the chat as no
/// channel, with the chat and the messages that it was received with.
pub proof fn looked_up_deletions_are_told(life: Life, k: int, kind: Option<String>)
    requires
        life.wf(),
        0 < k < life.events.len(),
        life.events[k] == (DaemonEvent::DeletionChatFound { kind }),
    ensures
        kind matches Some(text) && text@ != "channel"@ <==> life.steps[k].action is WriteLine,
        kind is None || kind->0@ == "channel"@ <==> life.steps[k].action is Listen,
        life.events[k - 1] matches DaemonEvent::UpdateReceived {
            update: LiveUpdate::MessageDeleted(raw),
        } && ({
            &&& raw_deletion(raw) matches Some(deletion)
            &&& life.steps[k].action matches DaemonAction::WriteLine { line } ==> line@
                == object_text(deletion_fields(deletion.0, deletion.1))
        }),
{
    lemma_past(life, k);
    assert(life.step(k));
    lemma_past(life, k - 1);
    assert(life.step(k - 1));
}

/// Nothing is told of a deletion where there is no stream, and of an update that is none of the
/// daemon's business nothing is done at all.
pub proof fn the_rest_is_passed_over(life: Life, k: int, update: LiveUpdate)
    requires
        life.wf(),
        0 <= k < life.events.len(),
        life.events[k] == (DaemonEvent::UpdateReceived { update }),
    ensures
        update is Other ==> life.steps[k].action is Listen,
        update is MessageDeleted && !life.states[0].args.stream ==> life.steps[k].action is Listen,
        update matches LiveUpdate::MessageDeleted(raw) && raw_deletion(raw) is None
            ==> life.steps[k].action is Listen,
        life.steps[k].notices@.len() == 0,
        life.steps[k].log is None,
{
    lemma_past(life, k);
    assert(life.step(k));
    assert(texts(life.steps[k].notices@).len() == 0);
}

/// An error of the stream is told of and logged, with its text.
pub proof fn stream_errors_are_told(life: Life, k: int, error: String)
    requires
        life.wf(),
        0 <= k < life.events.len(),
        life.events[k] == (DaemonEvent::StreamFailed { error }),
    ensures
        life.steps[k].log matches Some(line) && line.level is Error && line.text@
            == "Update stream error: "@ + error@,
        !life.states[0].args.quiet ==> life.steps[k].notices@.len() >= 1
            && life.steps[k].notices@[0]@ == "Update stream error: "@ + error@,
        !occurs_in(error@, "Dropped"@) ==> life.steps[k].action is Listen,
{
    lemma_past(life, k);
    assert(life.step(k));
    lemma_texts(life.steps[k].notices@);
}

/// What the daemon says while it begins, unless it is quiet.
pub proof fn the_daemon_says_that_it_begins(life: Life, k: int)
    requires
        life.wf(),
        0 <= k < life.events.len(),
        !life.states[0].args.quiet,
    ensures
        ({
            let said = life.steps[k].notices@;
            let args = life.states[0].args;
            &&& life.events[k] is AppOpened && !args.no_startup_catchup ==> said.len() == 1
                && said[0]@ == "Startup catch-up sync..."@
            &&& life.events[k] is ReceiverTaken ==> {
                &&& said.len() == if args.no_backfill {
                    2int
                } else {
                    3int
                }
                &&& said[0]@ == "Daemon starting..."@
                &&& said[1]@ == "  Listening for real-time updates"@
                &&& !args.no_backfill ==> said[2]@
                    == "  Background sync will start after connection established"@
            }
            &&& life.steps[k].action is StartTimer ==> said.len() == 1 && said[0]@
                == "Daemon ready. Press Ctrl+C to stop."@
            &&& life.events[k] is TimerTicked ==> said.len() == 1 && said[0]@
                == "Periodic reconciliation sync..."@
        }),
{
    lemma_past(life, k);
    assert(life.step(k));
    lemma_texts(life.steps[k].notices@);
}

/// What the daemon says while it ends, unless it is quiet: last how many updates it received and
/// how many messages it stored, as it counted them.
pub proof fn the_daemon_says_that_it_ends(life: Life, k: int)
    requires
        life.wf(),
        0 <= k < life.events.len(),
        !life.states[0].args.quiet,
    ensures
        ({
            let said = life.steps[k].notices@;
            let args = life.states[0].args;
            &&& life.events[k] is StopRequested ==> said.len() >= 1 && said[0]@
                == "\nShutting down gracefully..."@
            &&& life.steps[k].action is SyncSession ==> said.len() == (if life.events[k]
                is BackfillAwaited {
                1int
            } else {
                2int
            }) && said.last()@ == "Syncing session state..."@
            &&& life.steps[k].action is AwaitBackfill ==> said.len() == (if life.backfill[k]
                is Running {
                2int
            } else {
                1int
            })
            &&& life.steps[k].action is AwaitBackfill && life.backfill[k] is Running
                ==> said.last()@ == "Waiting for background sync to complete..."@
            &&& life.events[k] is SessionSynced && life.received(k) <= u64::MAX ==> said.len() == 1
                && said[0]@ == "Daemon stopped. Updates received: "@ + decimal(life.received(k))
                + ", stored: "@ + decimal(life.stored(k))
        }),
{
    lemma_past(life, k);
    assert(life.step(k));
    lemma_texts(life.steps[k].notices@);
}

/// The daemon fails where the application cannot be opened, without more to say, and where it has
/// no receiver, with the reason.
pub proof fn failures_say_why(life: Life, k: int)
    requires
        life.wf(),
        0 <= k < life.events.len(),
        life.events[k] is Failed,
    ensures
        life.steps[k].action matches DaemonAction::Fail { context } && (if life.states[k].stage
            is AwaitApp {
            context is None
        } else {
            context matches Some(text) && text@ == "Updates receiver not available"@
        }),
{
    assert(life.step(k));
}

/// A warning of a storing goes to the log as it is, and a storing that ends without one logs
/// nothing.
pub proof fn storings_warn_in_the_log(life: Life, k: int, event: PersistEvent) -> (action:
    PersistAction)
    requires
        life.wf(),
        0 <= k < life.events.len(),
        life.events[k] == (DaemonEvent::Persisted { event }),
    ensures
        life.states[k].persist->0.moves(
            life.states[0].args,
            life.ignore_set(),
            event,
            life.states[k + 1].persist->0,
            action,
        ),
        action matches PersistAction::Finish { warning } ==> {
            &&& life.steps[k].action is Listen
            &&& warning is None ==> life.steps[k].log is None
            &&& warning matches Some(text) ==> (life.steps[k].log matches Some(line) && line.level
                is Warn && line.text@ == text@)
        },
        !(action is Finish) ==> life.steps[k].log is None,
        life.steps[k].notices@.len() == 0,
{
    lemma_past(life, k);
    assert(life.step(k));
    let run = life.states[k];
    let next = life.states[k + 1];
    let step = life.steps[k];
    lemma_texts(step.notices@);
    assert(texts(step.notices@).len() == 0);
    choose|action: PersistAction|
        {
            &&& #[trigger] run.persist->0.moves(
                run.args,
                run.ignore_set@,
                event,
                next.persist->0,
                action,
            )
            &&& match action {
                PersistAction::Finish { warning } => {
                    &&& step.action is Listen
                    &&& log_text(step.log) == optional_log(LogLevel::Warn, text_of(warning))
                },
                _ => step.log is None,
            }
        }
}

/// A report goes on under the daemon as by itself, and the daemon listens again exactly when it is
/// at rest. History may be imported exactly where there is no background sync, or it is over.
pub proof fn reports_go_on_by_themselves(life: Life, k: int, event: ReportEvent) -> (inner:
    ReportStep)
    requires
        life.wf(),
        0 <= k < life.events.len(),
        life.events[k] == (DaemonEvent::Reported { event }) || (life.events[k] is ReportTicked
            && event is TimerTicked),
    ensures
        life.states[k].report.moves(
            life.states[0].args.no_backfill || life.backfill[k] is Over,
            event,
            life.states[k + 1].report,
            inner,
        ),
        life.steps[k].log == inner.log,
        life.steps[k].notices@.len() == 0,
        inner.action is Rest <==> life.steps[k].action is Listen,
        !(inner.action is Rest) ==> life.steps[k].action == (DaemonAction::Report {
            action: inner.action,
        }),
{
    lemma_past(life, k);
    assert(life.step(k));
    let run = life.states[k];
    let next = life.states[k + 1];
    let step = life.steps[k];
    let imports = run.args.no_backfill || life.backfill[k] is Over;
    assert(run.reports(event, life.backfill[k], next, step));
    lemma_texts(step.notices@);
    assert(texts(step.notices@).len() == 0);
    choose|inner: ReportStep|
        {
            &&& #[trigger] run.report.moves(imports, event, next.report, inner)
            &&& step.log == inner.log
            &&& if inner.action is Rest {
                step.action is Listen
            } else {
                step.action == (DaemonAction::Report { action: inner.action })
            }
        }
}

/// What the daemon asked for may be answered, and what may fail outside may fail.
pub proof fn the_daemon_takes_any_answer(
    run: DaemonRun,
    health: Health,
    error: String,
    kind: Option<String>,
    inner: ReconcileEvent,
    reported: ReportEvent,
    persisted: PersistEvent,
)
    ensures
        run.stage is Begin ==> run.admits(DaemonEvent::Started),
        run.stage is AwaitApp ==> run.admits((DaemonEvent::AppOpened { health })) && run.admits(
            DaemonEvent::Failed,
        ),
        run.stage is StartupSync || run.stage is PeriodicSync ==> run.admits(
            (DaemonEvent::ReconcileFailed { error }),
        ) && (!(inner is Failed) && run.reconcile.admits(inner) ==> run.admits(
            (DaemonEvent::Reconciled { event: inner }),
        )),
        run.stage is AwaitReceiver ==> run.admits(DaemonEvent::ReceiverTaken) && run.admits(
            DaemonEvent::Failed,
        ),
        run.stage is AwaitStream ==> run.admits(DaemonEvent::StreamStarted),
        run.stage is AwaitSpawn ==> run.admits(DaemonEvent::BackfillSpawned),
        run.stage is AwaitTimer ==> run.admits(DaemonEvent::TimerStarted),
        run.stage is Reporting && run.report.admits(reported) ==> run.admits(
            (DaemonEvent::Reported { event: reported }),
        ),
        run.stage is Storing && run.persist->0.admits(run.args, run.ignore_set@, persisted)
            ==> run.admits((DaemonEvent::Persisted { event: persisted })),
        run.stage is AwaitDeletionChat ==> run.admits((DaemonEvent::DeletionChatFound { kind })),
        run.stage is AwaitLine ==> run.admits(DaemonEvent::LineWritten),
        run.stage is AwaitBackfill ==> run.admits(DaemonEvent::BackfillAwaited),
        run.stage is AwaitSession ==> run.admits(DaemonEvent::SessionSynced),
{
}

/// Beside what it says of its beginning, its reconciliations, its stream and its end, the daemon
/// says nothing, and it logs nothing beside what a reconciliation, a report, a storing or the
/// stream gives it.
pub proof fn the_daemon_says_nothing_else(life: Life, k: int)
    requires
        life.wf(),
        0 <= k < life.events.len(),
    ensures
        life.steps[k].notices@.len() > 0 ==> match life.events[k] {
            DaemonEvent::AppOpened { .. } => !life.states[0].args.no_startup_catchup,
            DaemonEvent::StreamStarted => life.states[0].args.no_backfill,
            DaemonEvent::Reconciled { event } => event is Synced,
            DaemonEvent::ReconcileFailed { .. } => true,
            DaemonEvent::ReceiverTaken => true,
            DaemonEvent::BackfillSpawned => true,
            DaemonEvent::TimerTicked => true,
            DaemonEvent::StreamFailed { .. } => true,
            DaemonEvent::StopRequested => true,
            DaemonEvent::BackfillAwaited => true,
            DaemonEvent::SessionSynced => true,
            _ => false,
        },
        life.steps[k].log is Some ==> match life.events[k] {
            DaemonEvent::Reconciled { event } => event is Synced,
            DaemonEvent::ReconcileFailed { .. } => true,
            DaemonEvent::StreamFailed { .. } => true,
            DaemonEvent::Reported { .. } => true,
            DaemonEvent::Persisted { .. } => true,
            _ => false,
        },
{
    lemma_past(life, k);
    assert(life.step(k));
    lemma_texts(life.steps[k].notices@);
}

/// What the daemon knows of its health changes by nothing but a probe, once the application is
/// open, and an import goes on only in a report.
pub proof fn health_changes_by_probes_alone(life: Life, k: int)
    requires
        life.wf(),
        0 <= k < life.events.len(),
        !(life.events[k] is AppOpened),
    ensures
        !(life.events[k] is Reported || life.events[k] is ReportTicked) ==> life.states[k
            + 1].report == life.states[k].report,
        life.states[k + 1].report.health == life.states[k].report.health || (
        life.events[k] matches DaemonEvent::Reported { event } && event is Probed),
{
    assert(life.step(k));
}

/// A written line leaves the daemon listening.
pub proof fn lines_leave_the_daemon_listening(life: Life, k: int)
    requires
        life.wf(),
        0 <= k < life.events.len(),
        life.events[k] is LineWritten,
    ensures
        life.steps[k].action is Listen,
        life.states[k + 1].stage is Listening,
{
    assert(life.step(k));
}

} // verus!
