//! What the daemon is asked to do.

use std::collections::HashSet;
use vstd::prelude::*;

verus! {

/// Reconcile dialog metadata and recent history every three hours.
pub const DEFAULT_RECONCILE_INTERVAL_SECONDS: u64 = 10_800;

/// The arguments of the daemon.
#[derive(Debug)]
pub struct DaemonArgs {
    /// Run no background sync.
    pub no_backfill: bool,
    /// Download media files of incoming messages.
    pub download_media: bool,
    /// Chats to skip in syncs and updates.
    pub ignore_chat_ids: Vec<i64>,
    /// Skip all channels.
    pub ignore_channels: bool,
    /// Say nothing on the terminal.
    pub quiet: bool,
    /// Write stored updates as JSON lines.
    pub stream: bool,
    /// Skip the sync that recovers, at the start, what was missed while the daemon was down.
    pub no_startup_catchup: bool,
    /// Seconds between two reconciliations; 0 for none.
    pub reconcile_interval_seconds: u64,
}

impl Default for DaemonArgs {
    fn default() -> (res: Self)
        ensures
            res.no_backfill,
            !res.download_media,
            res.ignore_chat_ids@.len() == 0,
            !res.ignore_channels,
            !res.quiet,
            !res.stream,
            !res.no_startup_catchup,
            res.reconcile_interval_seconds == DEFAULT_RECONCILE_INTERVAL_SECONDS,
    {
        DaemonArgs {
            no_backfill: true,
            download_media: false,
            ignore_chat_ids: Vec::new(),
            ignore_channels: false,
            quiet: false,
            stream: false,
            no_startup_catchup: false,
            reconcile_interval_seconds: DEFAULT_RECONCILE_INTERVAL_SECONDS,
        }
    }
}

impl DaemonArgs {
    /// The chats to skip, as a set.
    pub fn ignore_set(&self) -> (res: HashSet<i64>)
        ensures
            res@ == self.ignore_chat_ids@.to_set(),
    {
        broadcast use vstd::std_specs::hash::group_hash_axioms;

        let mut ignored: HashSet<i64> = HashSet::new();
        let mut i: usize = 0;
        assert(ignored@ =~= self.ignore_chat_ids@.take(0).to_set());
        while i < self.ignore_chat_ids.len()
            invariant
                i <= self.ignore_chat_ids@.len(),
                ignored@ == self.ignore_chat_ids@.take(i as int).to_set(),
            decreases self.ignore_chat_ids@.len() - i,
        {
            let ghost before = self.ignore_chat_ids@.take(i as int);
            ignored.insert(self.ignore_chat_ids[i]);
            i = i + 1;
            proof {
                let after = self.ignore_chat_ids@.take(i as int);
                assert(after =~= before.push(self.ignore_chat_ids@[i - 1]));
                assert forall|id: i64| after.to_set().contains(id) == ignored@.contains(id) by {
                    if before.contains(id) {
                        let k = choose|k: int| 0 <= k < before.len() && before[k] == id;
                        assert(after[k] == id);
                    }
                    if id == self.ignore_chat_ids@[i - 1] {
                        assert(after[i - 1] == id);
                    }
                    if after.contains(id) && id != self.ignore_chat_ids@[i - 1] {
                        let k = choose|k: int| 0 <= k < after.len() && after[k] == id;
                        assert(before[k] == id);
                    }
                }
                assert(ignored@ =~= after.to_set());
            }
        }
        assert(self.ignore_chat_ids@.take(i as int) =~= self.ignore_chat_ids@);
        ignored
    }

    /// Whether the daemon reconciles at intervals.
    pub fn reconciliation_enabled(&self) -> (res: bool)
        ensures
            res == (self.reconcile_interval_seconds > 0),
    {
        self.reconcile_interval_seconds > 0
    }

    /// Seconds between two ticks of the reconciliation timer, which cannot be 0.
    pub fn reconciliation_period(&self) -> (res: u64)
        ensures
            res >= 1,
            self.reconcile_interval_seconds > 0 ==> res == self.reconcile_interval_seconds,
            self.reconcile_interval_seconds == 0 ==> res == 1,
    {
        if self.reconcile_interval_seconds > 1 {
            self.reconcile_interval_seconds
        } else {
            1
        }
    }
}

} // verus!
