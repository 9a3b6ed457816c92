//! Resumable import of older history, one bounded page at a time.

use crate::document::{bool_json, count_json, optional_json, Document};
use crate::text::{signed_text, text_order, TextOrder};
use vstd::prelude::*;

#[allow(unused_imports)]
use crate::document::{bool_text, document_text, optional_text};
#[allow(unused_imports)]
use crate::json::is_one_line;
#[allow(unused_imports)]
use crate::text::{
    decimal, signed_decimal, signed_decimal_injective, text_less, text_less_irreflexive,
    text_less_transitive, text_of,
};

verus! {

/// A page with fewer messages than this reached the start of the chat.
pub const PAGE_LIMIT: usize = 200;

/// A request for more chats than this is refused.
pub const MAX_REQUESTED_CHATS: usize = 10000;

/// Progress of one chat.
#[derive(Debug)]
pub struct HistoryChat {
    pub complete: bool,
    pub messages_stored: usize,
    pub error: Option<String>,
}

/// Progress of one chat, as the contracts see it.
pub struct HistoryChatView {
    pub complete: bool,
    pub messages_stored: nat,
    pub error: Option<Seq<char>>,
}

impl View for HistoryChat {
    type V = HistoryChatView;

    open spec fn view(&self) -> HistoryChatView {
        HistoryChatView {
            complete: self.complete,
            messages_stored: self.messages_stored as nat,
            error: text_of(self.error),
        }
    }
}

/// A chat of which nothing is known yet.
pub open spec fn fresh_chat() -> HistoryChatView {
    HistoryChatView { complete: false, messages_stored: 0, error: None }
}

impl Default for HistoryChat {
    fn default() -> (res: Self)
        ensures
            res@ == fresh_chat(),
    {
        HistoryChat { complete: false, messages_stored: 0, error: None }
    }
}

/// Progress of every chat, in ascending order of the chat's key, and the position in the
/// request from which the next page is sought.
#[derive(Debug)]
pub struct HistoryState {
    pub chats: Vec<(String, HistoryChat)>,
    pub next_chat: usize,
}

/// The key under which a chat is kept: its identifier in decimal.
pub open spec fn chat_key(chat_id: i64) -> Seq<char> {
    signed_decimal(chat_id as int)
}

/// The key stands at the given position.
pub open spec fn key_at(chats: Seq<(String, HistoryChat)>, key: Seq<char>, i: int) -> bool {
    0 <= i < chats.len() && chats[i].0@ == key
}

/// What a list of keys and progress says of every key.
pub open spec fn progress_by_key(chats: Seq<(String, HistoryChat)>) -> Map<
    Seq<char>,
    HistoryChatView,
> {
    Map::new(
        |key: Seq<char>| exists|i: int| key_at(chats, key, i),
        |key: Seq<char>| chats[choose|i: int| key_at(chats, key, i)].1@,
    )
}

/// The state of an import, as the contracts see it.
pub struct HistoryStateView {
    pub chats: Map<Seq<char>, HistoryChatView>,
    pub next_chat: int,
}

impl View for HistoryState {
    type V = HistoryStateView;

    open spec fn view(&self) -> HistoryStateView {
        HistoryStateView { chats: self.progress(), next_chat: self.next_chat as int }
    }
}

/// The state of an import that has not begun.
pub open spec fn fresh_state() -> HistoryStateView {
    HistoryStateView { chats: Map::empty(), next_chat: 0 }
}

impl HistoryState {
    /// The keys ascend, so that no key occurs twice.
    pub open spec fn wf(self) -> bool {
        forall|i: int, j: int|
            0 <= i < j < self.chats@.len() ==> text_less(
                (#[trigger] self.chats@[i]).0@,
                (#[trigger] self.chats@[j]).0@,
            )
    }

    /// The progress of every chat, by key.
    pub open spec fn progress(&self) -> Map<Seq<char>, HistoryChatView> {
        progress_by_key(self.chats@)
    }

    /// The progress of one chat; a chat that is not listed has made none.
    pub open spec fn chat(&self, chat_id: i64) -> HistoryChatView {
        if self.progress().contains_key(chat_key(chat_id)) {
            self.progress()[chat_key(chat_id)]
        } else {
            fresh_chat()
        }
    }

    proof fn lemma_view_at(&self, i: int)
        requires
            self.wf(),
            0 <= i < self.chats@.len(),
        ensures
            self.progress().contains_key(self.chats@[i].0@),
            self.progress()[self.chats@[i].0@] == self.chats@[i].1@,
    {
        let key = self.chats@[i].0@;
        assert(key_at(self.chats@, key, i));
        let j = choose|j: int| key_at(self.chats@, key, j);
        assert(key_at(self.chats@, key, j));
        text_less_irreflexive(key);
        assert(i == j);
    }

    /// Whether the keys ascend.
    pub fn check_keys(&self) -> (res: bool)
        ensures
            res == self.wf(),
    {
        let mut i: usize = 1;
        while i < self.chats.len()
            invariant
                1 <= i,
                forall|a: int, b: int|
                    0 <= a < b < i && b < self.chats@.len() ==> text_less(
                        (#[trigger] self.chats@[a]).0@,
                        (#[trigger] self.chats@[b]).0@,
                    ),
            decreases self.chats@.len() - i,
        {
            match text_order(self.chats[i - 1].0.as_str(), self.chats[i].0.as_str()) {
                TextOrder::Before => {},
                _ => {
                    assert(!text_less(self.chats@[i - 1].0@, self.chats@[i as int].0@));
                    return false;
                },
            }
            assert forall|a: int| 0 <= a < i implies text_less(
                (#[trigger] self.chats@[a]).0@,
                self.chats@[i as int].0@,
            ) by {
                if a < i - 1 {
                    text_less_transitive(
                        self.chats@[a].0@,
                        self.chats@[i - 1].0@,
                        self.chats@[i as int].0@,
                    );
                }
            }
            i = i + 1;
        }
        true
    }

    /// Where the key stands, or else the position at which it belongs.
    fn position(&self, key: &str) -> (res: Result<usize, usize>)
        requires
            self.wf(),
        ensures
            match res {
                Ok(i) => key_at(self.chats@, key@, i as int),
                Err(i) => {
                    &&& i <= self.chats@.len()
                    &&& !self.progress().contains_key(key@)
                    &&& forall|j: int|
                        0 <= j < i ==> text_less((#[trigger] self.chats@[j]).0@, key@)
                    &&& forall|j: int|
                        i <= j < self.chats@.len() ==> text_less(
                            key@,
                            (#[trigger] self.chats@[j]).0@,
                        )
                },
            },
    {
        let mut i: usize = 0;
        while i < self.chats.len()
            invariant
                self.wf(),
                i <= self.chats@.len(),
                forall|j: int| 0 <= j < i ==> text_less((#[trigger] self.chats@[j]).0@, key@),
            decreases self.chats@.len() - i,
        {
            match text_order(self.chats[i].0.as_str(), key) {
                TextOrder::Same => {
                    return Ok(i);
                },
                TextOrder::After => {
                    assert forall|j: int| i <= j < self.chats@.len() implies text_less(
                        key@,
                        (#[trigger] self.chats@[j]).0@,
                    ) by {
                        if j > i {
                            text_less_transitive(
                                key@,
                                self.chats@[i as int].0@,
                                self.chats@[j].0@,
                            );
                        }
                    }
                    proof {
                        text_less_irreflexive(key@);
                    }
                    return Err(i);
                },
                TextOrder::Before => {},
            }
            i = i + 1;
        }
        proof {
            text_less_irreflexive(key@);
        }
        Err(i)
    }

    /// Sets the progress kept under a key.
    pub fn insert(&mut self, key: String, chat: HistoryChat)
        requires
            old(self).wf(),
        ensures
            final(self).wf(),
            final(self)@ == (HistoryStateView {
                chats: old(self)@.chats.insert(key@, chat@),
                next_chat: old(self)@.next_chat,
            }),
    {
        let ghost before = *self;
        let ghost k = key@;
        let ghost c = chat@;
        match self.position(key.as_str()) {
            Ok(i) => {
                self.chats.set(i, (key, chat));
                assert(self.chats@ == before.chats@.update(i as int, (key, chat)));
                assert(self.wf());
                proof {
                    self.lemma_replaced(&before, k, c, i as int);
                }
            },
            Err(i) => {
                self.chats.insert(i, (key, chat));
                assert(self.chats@ == before.chats@.insert(i as int, (key, chat)));
                assert(self.wf());
                proof {
                    self.lemma_inserted(&before, k, c, i as int);
                }
            },
        }
    }

    proof fn lemma_replaced(&self, before: &HistoryState, key: Seq<char>, chat: HistoryChatView, at: int)
        requires
            self.wf(),
            before.wf(),
            key_at(before.chats@, key, at),
            key_at(self.chats@, key, at),
            self.chats@[at].1@ == chat,
            self.chats@.len() == before.chats@.len(),
            forall|j: int|
                0 <= j < self.chats@.len() && j != at ==> self.chats@[j] == before.chats@[j],
        ensures
            self.progress() == before.progress().insert(key, chat),
    {
        let updated = before.progress().insert(key, chat);
        assert forall|k: Seq<char>| self.progress().contains_key(k) == updated.contains_key(k) by {
            if self.progress().contains_key(k) {
                let i = choose|i: int| key_at(self.chats@, k, i);
                assert(key_at(before.chats@, k, i));
            }
            if before.progress().contains_key(k) {
                let i = choose|i: int| key_at(before.chats@, k, i);
                assert(key_at(self.chats@, k, i));
            }
        }
        assert forall|k: Seq<char>| self.progress().contains_key(k) implies self.progress()[k] == updated[k] by {
            let i = choose|i: int| key_at(self.chats@, k, i);
            self.lemma_view_at(i);
            before.lemma_view_at(i);
            before.lemma_view_at(at);
            self.lemma_view_at(at);
            if i != at && k == key {
                text_less_irreflexive(k);
            }
        }
        assert(self.progress() =~= updated);
    }

    proof fn lemma_inserted(&self, before: &HistoryState, key: Seq<char>, chat: HistoryChatView, at: int)
        requires
            self.wf(),
            before.wf(),
            0 <= at <= before.chats@.len(),
            key_at(self.chats@, key, at),
            self.chats@[at].1@ == chat,
            self.chats@.len() == before.chats@.len() + 1,
            forall|j: int| 0 <= j < at ==> self.chats@[j] == before.chats@[j],
            forall|j: int|
                at <= j < before.chats@.len() ==> self.chats@[j + 1] == #[trigger] before.chats@[j],
        ensures
            self.progress() == before.progress().insert(key, chat),
    {
        let updated = before.progress().insert(key, chat);
        assert forall|k: Seq<char>| self.progress().contains_key(k) == updated.contains_key(k) by {
            if self.progress().contains_key(k) {
                let i = choose|i: int| key_at(self.chats@, k, i);
                if i < at {
                    assert(key_at(before.chats@, k, i));
                } else if i > at {
                    assert(self.chats@[i] == before.chats@[i - 1]);
                    assert(key_at(before.chats@, k, i - 1));
                }
            }
            if before.progress().contains_key(k) {
                let i = choose|i: int| key_at(before.chats@, k, i);
                if i < at {
                    assert(key_at(self.chats@, k, i));
                } else {
                    assert(self.chats@[i + 1] == before.chats@[i]);
                    assert(key_at(self.chats@, k, i + 1));
                }
            }
        }
        assert forall|k: Seq<char>| self.progress().contains_key(k) implies self.progress()[k] == updated[k] by {
            let i = choose|i: int| key_at(self.chats@, k, i);
            self.lemma_view_at(i);
            self.lemma_view_at(at);
            if i < at {
                before.lemma_view_at(i);
                if k == key {
                    text_less_irreflexive(k);
                }
            } else if i > at {
                assert(self.chats@[i] == before.chats@[i - 1]);
                before.lemma_view_at(i - 1);
                if k == key {
                    text_less_irreflexive(k);
                }
            }
        }
        assert(self.progress() =~= updated);
    }
}

/// The position in a request of the given length that is examined after `offset` others.
pub open spec fn scan_index(next_chat: int, offset: int, len: int) -> int {
    (next_chat + offset) % len
}

impl HistoryState {
    /// The chat examined after `offset` others still has history to import.
    pub open spec fn pending_at(&self, chat_ids: Seq<i64>, offset: int) -> bool {
        !self.chat(
            chat_ids[scan_index(self.next_chat as int, offset, chat_ids.len() as int)],
        ).complete
    }

    /// The scan examines a chat after `offset` others: all of those are complete.
    pub open spec fn reaches(&self, chat_ids: Seq<i64>, offset: int) -> bool {
        &&& 0 <= offset < chat_ids.len()
        &&& forall|j: int| 0 <= j < offset ==> !#[trigger] self.pending_at(chat_ids, j)
    }

    /// The scan ends after `offset` complete chats, at the first one that is not.
    pub open spec fn stops_at(&self, chat_ids: Seq<i64>, offset: int) -> bool {
        &&& self.reaches(chat_ids, offset)
        &&& self.pending_at(chat_ids, offset)
    }

    /// Every chat of the request is complete.
    pub open spec fn all_complete(&self, chat_ids: Seq<i64>) -> bool {
        forall|j: int| 0 <= j < chat_ids.len() ==> !#[trigger] self.pending_at(chat_ids, j)
    }

    /// No sum of the scan exceeds `usize`.
    pub open spec fn scan_fits(&self, chat_ids: Seq<i64>) -> bool {
        forall|offset: int|
            #[trigger] self.reaches(chat_ids, offset) ==> self.next_chat + offset <= usize::MAX
    }

    /// Whether a chat is complete.
    fn is_complete(&self, chat_id: i64) -> (res: bool)
        requires
            self.wf(),
        ensures
            res == self.chat(chat_id).complete,
    {
        let key = signed_text(chat_id);
        match self.position(key.as_str()) {
            Ok(i) => {
                proof {
                    self.lemma_view_at(i as int);
                }
                self.chats[i].1.complete
            },
            Err(_) => false,
        }
    }

    /// Whether no sum of the scan exceeds `usize`.
    pub fn check_scan(&self, chat_ids: &Vec<i64>) -> (res: bool)
        requires
            self.wf(),
        ensures
            res == self.scan_fits(chat_ids@),
    {
        let mut offset: usize = 0;
        while offset < chat_ids.len()
            invariant
                self.wf(),
                offset <= chat_ids@.len(),
                forall|j: int| 0 <= j < offset ==> !#[trigger] self.pending_at(chat_ids@, j),
                offset > 0 ==> self.next_chat + offset - 1 <= usize::MAX,
            decreases chat_ids@.len() - offset,
        {
            assert(self.reaches(chat_ids@, offset as int));
            if self.next_chat > usize::MAX - offset {
                return false;
            }
            let index = (self.next_chat + offset) % chat_ids.len();
            if !self.is_complete(chat_ids[index]) {
                assert(self.pending_at(chat_ids@, offset as int));
                assert forall|k: int| #[trigger] self.reaches(chat_ids@, k) implies self.next_chat
                    + k <= usize::MAX by {
                    if k > offset {
                        assert(!self.pending_at(chat_ids@, offset as int));
                    }
                }
                return true;
            }
            offset = offset + 1;
        }
        true
    }

    /// The first chat that still has history to import, sought from the cursor on and round
    /// the request.
    pub fn next_page(&self, chat_ids: &Vec<i64>) -> (res: Option<HistoryPage>)
        requires
            self.wf(),
            self.scan_fits(chat_ids@),
        ensures
            match res {
                Some(page) => self.is_next(chat_ids@, page),
                None => self.all_complete(chat_ids@),
            },
    {
        let mut offset: usize = 0;
        while offset < chat_ids.len()
            invariant
                self.wf(),
                self.scan_fits(chat_ids@),
                offset <= chat_ids@.len(),
                forall|j: int| 0 <= j < offset ==> !#[trigger] self.pending_at(chat_ids@, j),
            decreases chat_ids@.len() - offset,
        {
            assert(self.reaches(chat_ids@, offset as int));
            let index = (self.next_chat + offset) % chat_ids.len();
            let chat_id = chat_ids[index];
            if !self.is_complete(chat_id) {
                return Some(HistoryPage { offset, index, chat_id });
            }
            offset = offset + 1;
        }
        None
    }

    /// The page continues the first chat that still has history to import.
    pub open spec fn is_next(&self, chat_ids: Seq<i64>, page: HistoryPage) -> bool {
        &&& self.stops_at(chat_ids, page.offset as int)
        &&& page.index == scan_index(
            self.next_chat as int,
            page.offset as int,
            chat_ids.len() as int,
        )
        &&& page.chat_id == chat_ids[page.index as int]
    }
}

/// The page of history to be imported next.
#[derive(Clone, Copy, Debug, PartialEq, Eq, Structural)]
pub struct HistoryPage {
    /// How many complete chats were passed over.
    pub offset: usize,
    /// The chat's position in the request.
    pub index: usize,
    pub chat_id: i64,
}

/// What came of importing a page.
#[derive(Clone, Copy, Debug, PartialEq, Eq, Structural)]
pub enum PageOutcome {
    /// The page was stored; `stopping` tells that the program was asked to stop meanwhile.
    Imported { count: usize, stopping: bool },
    /// The import failed or took too long.
    Paused,
}

/// The progress of a chat after a page. A page that is not full reached the start of the chat,
/// unless the program was stopping.
pub open spec fn after_page(chat: HistoryChatView, outcome: PageOutcome) -> HistoryChatView {
    match outcome {
        PageOutcome::Imported { count, stopping } => HistoryChatView {
            complete: count < PAGE_LIMIT && !stopping,
            messages_stored: chat.messages_stored + count as nat,
            error: None,
        },
        PageOutcome::Paused => HistoryChatView {
            complete: chat.complete,
            messages_stored: chat.messages_stored,
            error: Some("History import paused; it will retry"@),
        },
    }
}

/// The state of an import after a page: what came of it is taken down, and the cursor stands
/// behind its chat.
pub open spec fn state_after_page(
    before: HistoryState,
    requested: int,
    page: HistoryPage,
    outcome: PageOutcome,
) -> HistoryStateView {
    HistoryStateView {
        chats: before@.chats.insert(
            chat_key(page.chat_id),
            after_page(before.chat(page.chat_id), outcome),
        ),
        next_chat: (page.index + 1) % requested,
    }
}

/// The count of stored messages stays in `usize`.
pub open spec fn page_fits(chat: HistoryChatView, outcome: PageOutcome) -> bool {
    match outcome {
        PageOutcome::Imported { count, .. } => chat.messages_stored + count <= usize::MAX,
        PageOutcome::Paused => true,
    }
}

impl HistoryState {
    /// How many messages of a chat were stored so far.
    fn stored(&self, chat_id: i64) -> (res: usize)
        requires
            self.wf(),
        ensures
            res == self.chat(chat_id).messages_stored,
    {
        let key = signed_text(chat_id);
        match self.position(key.as_str()) {
            Ok(i) => {
                proof {
                    self.lemma_view_at(i as int);
                }
                self.chats[i].1.messages_stored
            },
            Err(_) => 0,
        }
    }

    /// Whether the count of stored messages stays in `usize`.
    pub fn check_page(&self, chat_id: i64, outcome: PageOutcome) -> (res: bool)
        requires
            self.wf(),
        ensures
            res == page_fits(self.chat(chat_id), outcome),
    {
        match outcome {
            PageOutcome::Imported { count, .. } => count <= usize::MAX - self.stored(chat_id),
            PageOutcome::Paused => true,
        }
    }

    /// Takes down what came of a page, and moves the cursor behind its chat.
    pub fn record_page(&mut self, requested: usize, page: HistoryPage, outcome: PageOutcome)
        requires
            old(self).wf(),
            page.index < requested,
            page_fits(old(self).chat(page.chat_id), outcome),
        ensures
            final(self).wf(),
            final(self)@ == state_after_page(*old(self), requested as int, page, outcome),
    {
        let key = signed_text(page.chat_id);
        let complete = self.is_complete(page.chat_id);
        let messages_stored: usize = self.stored(page.chat_id);
        let chat = match outcome {
            PageOutcome::Imported { count, stopping } => HistoryChat {
                complete: count < PAGE_LIMIT && !stopping,
                messages_stored: messages_stored + count,
                error: None,
            },
            PageOutcome::Paused => HistoryChat {
                complete,
                messages_stored,
                error: Some("History import paused; it will retry".to_string()),
            },
        };
        self.insert(key, chat);
        self.next_chat = if page.index + 1 == requested {
            0
        } else {
            page.index + 1
        };
        proof {
            if page.index + 1 == requested {
                assert((page.index + 1) % (requested as int) == 0) by (nonlinear_arith)
                    requires
                        page.index + 1 == requested,
                        requested > 0,
                ;
            } else {
                vstd::arithmetic::div_mod::lemma_small_mod(
                    (page.index + 1) as nat,
                    requested as nat,
                );
            }
        }
    }
}

/// The text of one chat's progress.
pub open spec fn chat_text(chat: HistoryChatView) -> Seq<char> {
    document_text(
        seq![
            ("complete"@, bool_text(chat.complete)),
            ("messagesStored"@, decimal(chat.messages_stored)),
            ("error"@, optional_text(chat.error)),
        ],
    )
}

/// The members under which the progress of the chats is written, in the order of the keys.
pub open spec fn chat_members(chats: Seq<(String, HistoryChat)>) -> Seq<(Seq<char>, Seq<char>)> {
    chats.map_values(|entry: (String, HistoryChat)| (entry.0@, chat_text(entry.1@)))
}

/// The text in which the state of an import is written.
pub open spec fn history_text(state: HistoryState) -> Seq<char> {
    document_text(
        seq![
            ("chats"@, document_text(chat_members(state.chats@))),
            ("next_chat"@, decimal(state.next_chat as nat)),
        ],
    )
}

fn chat_json(chat: &HistoryChat) -> (res: String)
    ensures
        res@ == chat_text(chat@),
        is_one_line(res@),
{
    let mut document = Document::new();
    document.put("complete", bool_json(chat.complete));
    document.put("messagesStored", count_json(chat.messages_stored).as_str());
    document.put("error", optional_json(&chat.error).as_str());
    assert(document.members() =~= seq![
        ("complete"@, bool_text(chat@.complete)),
        ("messagesStored"@, decimal(chat@.messages_stored)),
        ("error"@, optional_text(chat@.error)),
    ]);
    document.finish()
}

/// The text in which the state of an import is written.
pub fn history_json(state: &HistoryState) -> (res: String)
    ensures
        res@ == history_text(*state),
        is_one_line(res@),
{
    let mut chats = Document::new();
    let mut i: usize = 0;
    assert(chats.members() =~= chat_members(state.chats@.take(0)));
    while i < state.chats.len()
        invariant
            chats.wf(),
            i <= state.chats@.len(),
            chats.members() == chat_members(state.chats@.take(i as int)),
        decreases state.chats@.len() - i,
    {
        let ghost before = state.chats@.take(i as int);
        chats.put(state.chats[i].0.as_str(), chat_json(&state.chats[i].1).as_str());
        i = i + 1;
        proof {
            let after = state.chats@.take(i as int);
            assert(after =~= before.push(state.chats@[i - 1]));
            assert(chats.members() =~= chat_members(after));
        }
    }
    assert(state.chats@.take(i as int) =~= state.chats@);
    let mut document = Document::new();
    document.put("chats", chats.finish().as_str());
    document.put("next_chat", count_json(state.next_chat).as_str());
    assert(document.members() =~= seq![
        ("chats"@, document_text(chat_members(state.chats@))),
        ("next_chat"@, decimal(state.next_chat as nat)),
    ]);
    document.finish()
}

/// Seconds that the import of one page may take.
pub const PAGE_TIMEOUT_SECONDS: u64 = 60;

/// Where an import run stands.
#[derive(Clone, Copy, Debug, PartialEq, Eq, Structural)]
pub enum HistoryStage {
    AwaitRequest,
    AwaitState,
    AwaitOldest { page: HistoryPage },
    AwaitPage { page: HistoryPage },
    AwaitWrite,
    Finished,
}

/// An import run: the request, the progress so far, and what is awaited.
#[derive(Debug)]
pub struct HistoryRun {
    pub stage: HistoryStage,
    pub chat_ids: Vec<i64>,
    pub state: HistoryState,
}

/// What happened outside.
#[derive(Debug)]
pub enum HistoryEvent {
    /// There is no request file.
    RequestMissing,
    /// The request names these chats.
    RequestRead { chat_ids: Vec<i64> },
    /// There is no progress file.
    StateMissing,
    StateRead { state: HistoryState },
    /// There is a progress file, but it holds no progress.
    StateInvalid,
    /// The oldest stored message of the chat, if there is one.
    OldestFound { oldest: Option<i64> },
    PageDone { outcome: PageOutcome },
    StateWritten,
    /// What was awaited failed; a request that cannot be read or understood is such a failure.
    Failed,
}

/// Why an import run failed.
#[derive(Clone, Copy, Debug, PartialEq, Eq, Structural)]
pub enum HistoryFailure {
    TooManyRequests,
    /// The progress file is not understood; it is left as it is.
    InvalidState,
    /// What was awaited failed.
    Outside,
}

/// What is to be done next.
#[derive(Debug, PartialEq, Eq)]
pub enum HistoryAction {
    ReadState,
    FindOldest { chat_id: i64 },
    /// Import a page of messages older than the given one, or of the newest where there is none.
    ImportPage {
        chat_id: i64,
        topic_id: Option<i32>,
        oldest: Option<i64>,
        limit: usize,
        download_media: bool,
        fetch_all: bool,
        show_progress: bool,
        timeout_seconds: u64,
    },
    /// Replace the progress file by this text.
    WriteState { text: String },
    Done,
    Fail { failure: HistoryFailure },
}

impl HistoryFailure {
    /// The message of a failure that the run itself found.
    pub fn message(self) -> (res: Option<&'static str>)
        ensures
            match self {
                HistoryFailure::TooManyRequests => res matches Some(text) && text@
                    == "Too many history requests"@,
                HistoryFailure::InvalidState => res matches Some(text) && text@
                    == "Invalid history state"@,
                HistoryFailure::Outside => res is None,
            },
    {
        match self {
            HistoryFailure::TooManyRequests => Some("Too many history requests"),
            HistoryFailure::InvalidState => Some("Invalid history state"),
            HistoryFailure::Outside => None,
        }
    }
}

impl HistoryRun {
    pub open spec fn wf(self) -> bool {
        &&& self.state.wf()
        &&& match self.stage {
            HistoryStage::AwaitState => self.chat_ids@.len() <= MAX_REQUESTED_CHATS,
            HistoryStage::AwaitOldest { page } => self.state.is_next(self.chat_ids@, page),
            HistoryStage::AwaitPage { page } => self.state.is_next(self.chat_ids@, page),
            _ => true,
        }
    }

    /// The event is one that the run awaits, and the sums that it leads to stay in `usize`.
    pub open spec fn admits(self, event: HistoryEvent) -> bool {
        match (self.stage, event) {
            (HistoryStage::AwaitRequest, HistoryEvent::RequestMissing) => true,
            (HistoryStage::AwaitRequest, HistoryEvent::RequestRead { chat_ids }) => true,
            (HistoryStage::AwaitRequest, HistoryEvent::Failed) => true,
            (HistoryStage::AwaitState, HistoryEvent::StateMissing) => true,
            (HistoryStage::AwaitState, HistoryEvent::StateRead { state }) => state.wf()
                && state.scan_fits(self.chat_ids@),
            (HistoryStage::AwaitState, HistoryEvent::StateInvalid) => true,
            (HistoryStage::AwaitState, HistoryEvent::Failed) => true,
            (HistoryStage::AwaitOldest { page }, HistoryEvent::OldestFound { oldest }) => true,
            (HistoryStage::AwaitOldest { page }, HistoryEvent::Failed) => true,
            (HistoryStage::AwaitPage { page }, HistoryEvent::PageDone { outcome }) => page_fits(
                self.state.chat(page.chat_id),
                outcome,
            ),
            (HistoryStage::AwaitWrite, HistoryEvent::StateWritten) => true,
            (HistoryStage::AwaitWrite, HistoryEvent::Failed) => true,
            _ => false,
        }
    }

    /// The run goes on with the given progress: it turns to the first chat that still has
    /// history to import, or ends where there is none.
    pub open spec fn turns_to_next(self, action: HistoryAction) -> bool {
        match self.stage {
            HistoryStage::AwaitOldest { page } => {
                &&& self.state.is_next(self.chat_ids@, page)
                &&& action == HistoryAction::FindOldest { chat_id: page.chat_id }
            },
            HistoryStage::Finished => {
                &&& self.state.all_complete(self.chat_ids@)
                &&& action == HistoryAction::Done
            },
            _ => false,
        }
    }

    /// How an event moves a run on, and what it calls for.
    pub open spec fn moves(self, event: HistoryEvent, next: HistoryRun, action: HistoryAction) -> bool {
        match (self.stage, event) {
            (_, HistoryEvent::Failed) => {
                &&& next == (HistoryRun { stage: HistoryStage::Finished, ..self })
                &&& action == HistoryAction::Fail { failure: HistoryFailure::Outside }
            },
            (HistoryStage::AwaitState, HistoryEvent::StateInvalid) => {
                &&& next == (HistoryRun { stage: HistoryStage::Finished, ..self })
                &&& action == HistoryAction::Fail { failure: HistoryFailure::InvalidState }
            },
            (HistoryStage::AwaitRequest, HistoryEvent::RequestRead { chat_ids }) => {
                if chat_ids@.len() > MAX_REQUESTED_CHATS {
                    &&& next == (HistoryRun { stage: HistoryStage::Finished, ..self })
                    &&& action == HistoryAction::Fail { failure: HistoryFailure::TooManyRequests }
                } else {
                    &&& next == (HistoryRun {
                        stage: HistoryStage::AwaitState,
                        chat_ids,
                        state: self.state,
                    })
                    &&& action == HistoryAction::ReadState
                }
            },
            (HistoryStage::AwaitState, HistoryEvent::StateMissing) => {
                &&& next.chat_ids == self.chat_ids
                &&& next.state@ == fresh_state()
                &&& next.turns_to_next(action)
            },
            (HistoryStage::AwaitState, HistoryEvent::StateRead { state }) => {
                &&& next.chat_ids == self.chat_ids
                &&& next.state == state
                &&& next.turns_to_next(action)
            },
            (HistoryStage::AwaitOldest { page }, HistoryEvent::OldestFound { oldest }) => {
                &&& next == (HistoryRun { stage: HistoryStage::AwaitPage { page }, ..self })
                &&& action == HistoryAction::ImportPage {
                    chat_id: page.chat_id,
                    topic_id: None,
                    oldest,
                    limit: PAGE_LIMIT,
                    download_media: false,
                    fetch_all: false,
                    show_progress: false,
                    timeout_seconds: PAGE_TIMEOUT_SECONDS,
                }
            },
            (HistoryStage::AwaitPage { page }, HistoryEvent::PageDone { outcome }) => {
                &&& next.stage is AwaitWrite
                &&& next.chat_ids == self.chat_ids
                &&& next.state@ == state_after_page(
                    self.state,
                    self.chat_ids@.len() as int,
                    page,
                    outcome,
                )
                &&& action matches HistoryAction::WriteState { text }
                &&& text@ == history_text(next.state)
                &&& is_one_line(text@)
            },
            _ => {
                &&& next == (HistoryRun { stage: HistoryStage::Finished, ..self })
                &&& action == HistoryAction::Done
            },
        }
    }

    /// A run that awaits the request.
    pub fn start() -> (res: HistoryRun)
        ensures
            res.wf(),
            res.stage is AwaitRequest,
            res.chat_ids@.len() == 0,
            res.state@ == fresh_state(),
    {
        HistoryRun {
            stage: HistoryStage::AwaitRequest,
            chat_ids: Vec::new(),
            state: HistoryState::default(),
        }
    }

    fn turn_to_next(&mut self) -> (res: HistoryAction)
        requires
            old(self).state.wf(),
            old(self).state.scan_fits(old(self).chat_ids@),
        ensures
            final(self).wf(),
            final(self).chat_ids == old(self).chat_ids,
            final(self).state == old(self).state,
            final(self).turns_to_next(res),
    {
        match self.state.next_page(&self.chat_ids) {
            Some(page) => {
                self.stage = HistoryStage::AwaitOldest { page };
                HistoryAction::FindOldest { chat_id: page.chat_id }
            },
            None => {
                self.stage = HistoryStage::Finished;
                HistoryAction::Done
            },
        }
    }
}

impl Default for HistoryState {
    fn default() -> (res: Self)
        ensures
            res.wf(),
            res@ == fresh_state(),
    {
        let res = HistoryState { chats: Vec::new(), next_chat: 0 };
        assert(res.progress() =~= Map::empty());
        res
    }
}

/// Imports one bounded page: moves the run on by what happened outside, and returns what is
/// to be done next.
pub fn history_page(run: &mut HistoryRun, event: HistoryEvent) -> (res: HistoryAction)
    requires
        old(run).wf(),
        old(run).admits(event),
    ensures
        final(run).wf(),
        old(run).moves(event, *final(run), res),
{
    match (run.stage, event) {
        (_, HistoryEvent::Failed) => {
            run.stage = HistoryStage::Finished;
            HistoryAction::Fail { failure: HistoryFailure::Outside }
        },
        (HistoryStage::AwaitState, HistoryEvent::StateInvalid) => {
            run.stage = HistoryStage::Finished;
            HistoryAction::Fail { failure: HistoryFailure::InvalidState }
        },
        (HistoryStage::AwaitRequest, HistoryEvent::RequestRead { chat_ids }) => {
            if chat_ids.len() > MAX_REQUESTED_CHATS {
                run.stage = HistoryStage::Finished;
                HistoryAction::Fail { failure: HistoryFailure::TooManyRequests }
            } else {
                run.chat_ids = chat_ids;
                run.stage = HistoryStage::AwaitState;
                HistoryAction::ReadState
            }
        },
        (HistoryStage::AwaitState, HistoryEvent::StateMissing) => {
            run.state = HistoryState::default();
            run.turn_to_next()
        },
        (HistoryStage::AwaitState, HistoryEvent::StateRead { state }) => {
            run.state = state;
            run.turn_to_next()
        },
        (HistoryStage::AwaitOldest { page }, HistoryEvent::OldestFound { oldest }) => {
            run.stage = HistoryStage::AwaitPage { page };
            HistoryAction::ImportPage {
                chat_id: page.chat_id,
                topic_id: None,
                oldest,
                limit: PAGE_LIMIT,
                download_media: false,
                fetch_all: false,
                show_progress: false,
                timeout_seconds: PAGE_TIMEOUT_SECONDS,
            }
        },
        (HistoryStage::AwaitPage { page }, HistoryEvent::PageDone { outcome }) => {
            let requested = run.chat_ids.len();
            run.state.record_page(requested, page, outcome);
            run.stage = HistoryStage::AwaitWrite;
            HistoryAction::WriteState { text: history_json(&run.state) }
        },
        _ => {
            run.stage = HistoryStage::Finished;
            HistoryAction::Done
        },
    }
}

} // verus!
