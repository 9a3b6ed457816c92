//! What holds of every import of older history.

use crate::history::{
    HistoryAction, HistoryChatView, HistoryEvent, HistoryFailure, HistoryPage, HistoryRun,
    HistoryStage, HistoryState, PageOutcome,
};
use vstd::arithmetic::div_mod::*;
use vstd::prelude::*;

#[allow(unused_imports)]
use crate::document::{bool_text, document_text, member_text, members_text, optional_text};
#[allow(unused_imports)]
use crate::history::{
    after_page, chat_key, chat_members, chat_text, key_at, scan_index, state_after_page,
};
#[allow(unused_imports)]
use crate::json::string_text;
#[allow(unused_imports)]
use crate::text::{
    decimal, decimal_injective, signed_decimal, signed_decimal_injective, text_less_irreflexive,
    text_of,
};

verus! {

/// How many positions lie between the cursor and a position of the request, going round.
pub open spec fn distance(cursor: int, index: int, len: int) -> int {
    (index - cursor) % len
}

/// `after` is `before` with what came of the page taken down.
pub open spec fn recorded(
    before: HistoryState,
    after: HistoryState,
    requested: int,
    page: HistoryPage,
    outcome: PageOutcome,
) -> bool {
    after@ == state_after_page(before, requested, page, outcome)
}

/// A page changes the progress of its own chat, as `after_page` says, and of no other, and the
/// cursor then stands behind that chat.
pub proof fn page_changes_its_own_chat(
    before: HistoryState,
    after: HistoryState,
    requested: int,
    page: HistoryPage,
    outcome: PageOutcome,
    other: i64,
)
    requires
        recorded(before, after, requested, page, outcome),
    ensures
        after.next_chat == (page.index + 1) % requested,
        after.chat(page.chat_id) == after_page(before.chat(page.chat_id), outcome),
        other != page.chat_id ==> after.chat(other) == before.chat(other),
{
    assert(after@.next_chat == after.next_chat);
    assert(after@.chats == after.progress());
    assert(before@.chats == before.progress());
    if chat_key(other) == chat_key(page.chat_id) {
        signed_decimal_injective(other as int, page.chat_id as int);
    }
}

/// Progress never shrinks: no page lowers the count of stored messages, and a page that failed
/// leaves both the count and the completion of its chat as they were.
pub proof fn progress_never_shrinks(
    before: HistoryState,
    after: HistoryState,
    requested: int,
    page: HistoryPage,
    outcome: PageOutcome,
    chat_id: i64,
)
    requires
        recorded(before, after, requested, page, outcome),
    ensures
        after.chat(chat_id).messages_stored >= before.chat(chat_id).messages_stored,
        outcome is Paused ==> {
            &&& after.chat(chat_id).messages_stored == before.chat(chat_id).messages_stored
            &&& after.chat(chat_id).complete == before.chat(chat_id).complete
        },
{
    page_changes_its_own_chat(before, after, requested, page, outcome, chat_id);
}

/// A complete chat is never imported again, and stays complete whatever comes of the page.
pub proof fn complete_chats_rest(
    before: HistoryState,
    after: HistoryState,
    chat_ids: Seq<i64>,
    page: HistoryPage,
    outcome: PageOutcome,
    chat_id: i64,
)
    requires
        before.is_next(chat_ids, page),
        recorded(before, after, chat_ids.len() as int, page, outcome),
        before.chat(chat_id).complete,
    ensures
        page.chat_id != chat_id,
        after.chat(chat_id) == before.chat(chat_id),
{
    page_changes_its_own_chat(before, after, chat_ids.len() as int, page, outcome, chat_id);
}

/// A position lies at the cursor's distance from it.
proof fn lemma_distance(cursor: int, index: int, len: int)
    requires
        0 <= index < len,
    ensures
        0 <= distance(cursor, index, len) < len,
        scan_index(cursor, distance(cursor, index, len), len) == index,
{
    let d = (index - cursor) % len;
    lemma_mod_bound(index - cursor, len);
    lemma_add_mod_noop_right(cursor, index - cursor, len);
    assert(cursor + (index - cursor) == index);
    lemma_small_mod(index as nat, len as nat);
}

/// No chat is passed over for ever: every page brings the cursor nearer to each other position
/// whose chat still has history to import, by all the positions that it moved.
pub proof fn cursor_comes_nearer(
    before: HistoryState,
    after: HistoryState,
    chat_ids: Seq<i64>,
    page: HistoryPage,
    outcome: PageOutcome,
    index: int,
)
    requires
        before.is_next(chat_ids, page),
        recorded(before, after, chat_ids.len() as int, page, outcome),
        0 <= index < chat_ids.len(),
        index != page.index,
        !after.chat(chat_ids[index]).complete,
    ensures
        distance(after.next_chat as int, index, chat_ids.len() as int) == distance(
            before.next_chat as int,
            index,
            chat_ids.len() as int,
        ) - page.offset - 1,
        distance(after.next_chat as int, index, chat_ids.len() as int) >= 0,
{
    let len = chat_ids.len() as int;
    let c = before.next_chat as int;
    let d = distance(c, index, len);
    lemma_distance(c, index, len);
    page_changes_its_own_chat(before, after, len, page, outcome, chat_ids[index]);
    assert(before.pending_at(chat_ids, d));
    assert(page.offset <= d) by {
        if d < page.offset {
            assert(!before.pending_at(chat_ids, d));
        }
    }
    assert(page.offset != d);
    let e = d - page.offset - 1;
    // The new cursor is congruent to the old one plus the positions moved.
    let n = after.next_chat as int;
    assert((c + page.offset) % len == page.index);
    lemma_add_mod_noop(c + page.offset, 1, len);
    lemma_small_mod(page.index as nat, len as nat);
    assert((c + page.offset + 1) % len == n) by {
        lemma_add_mod_noop(page.index as int, 1, len);
    }
    lemma_sub_mod_noop_right(index, c + page.offset + 1, len);
    lemma_sub_mod_noop_right(index, n, len);
    assert((index - n) % len == (index - (c + page.offset + 1)) % len) by {
        lemma_mod_bound(c + page.offset + 1, len);
        lemma_small_mod(n as nat, len as nat);
    }
    lemma_add_mod_noop(index - c, -(page.offset + 1), len);
    lemma_add_mod_noop(d, -(page.offset + 1), len);
    lemma_small_mod(d as nat, len as nat);
    assert((index - c) + (-(page.offset + 1)) == index - (c + page.offset + 1));
    assert(d + (-(page.offset + 1)) == e);
    lemma_small_mod(e as nat, len as nat);
}

/// The chat at the cursor comes next, if it still has history to import.
pub proof fn chat_at_cursor_comes_next(
    state: HistoryState,
    chat_ids: Seq<i64>,
    page: HistoryPage,
    index: int,
)
    requires
        state.is_next(chat_ids, page),
        0 <= index < chat_ids.len(),
        distance(state.next_chat as int, index, chat_ids.len() as int) == 0,
        !state.chat(chat_ids[index]).complete,
    ensures
        page.index == index,
        page.offset == 0,
{
    let len = chat_ids.len() as int;
    lemma_distance(state.next_chat as int, index, len);
    assert(state.pending_at(chat_ids, 0));
    if page.offset > 0 {
        assert(!state.pending_at(chat_ids, 0));
    }
}

/// An import over many runs: the request, the progress before each page and after the last, the
/// pages and what came of them.
pub struct Import {
    pub chat_ids: Seq<i64>,
    pub states: Seq<HistoryState>,
    pub pages: Seq<HistoryPage>,
    pub outcomes: Seq<PageOutcome>,
}

impl Import {
    /// The page at the given position was the next one, and was taken down.
    pub open spec fn step(self, k: int) -> bool {
        &&& self.states[k].is_next(self.chat_ids, self.pages[k])
        &&& recorded(
            self.states[k],
            self.states[k + 1],
            self.chat_ids.len() as int,
            self.pages[k],
            self.outcomes[k],
        )
    }

    pub open spec fn wf(self) -> bool {
        &&& self.states.len() == self.pages.len() + 1
        &&& self.outcomes.len() == self.pages.len()
        &&& forall|k: int| 0 <= k < self.pages.len() ==> #[trigger] self.step(k)
    }
}

proof fn lemma_waits(import: Import, index: int, n: int)
    requires
        import.wf(),
        0 <= index < import.chat_ids.len(),
        0 <= n <= import.pages.len(),
        forall|k: int|
            0 <= k < import.pages.len() ==> (#[trigger] import.pages[k]).index != index,
        forall|k: int|
            0 <= k < import.states.len() ==> !(#[trigger] import.states[k]).chat(
                import.chat_ids[index],
            ).complete,
    ensures
        n + distance(
            import.states[n].next_chat as int,
            index,
            import.chat_ids.len() as int,
        ) <= distance(import.states[0].next_chat as int, index, import.chat_ids.len() as int),
    decreases n,
{
    if n > 0 {
        lemma_waits(import, index, n - 1);
        assert(import.step(n - 1));
        cursor_comes_nearer(
            import.states[n - 1],
            import.states[n],
            import.chat_ids,
            import.pages[n - 1],
            import.outcomes[n - 1],
            index,
        );
    }
}

/// No chat starves: however the pages of the others come out, a chat that still has history to
/// import waits for no more of them than there are positions between it and the cursor.
pub proof fn no_chat_starves(import: Import, index: int)
    requires
        import.wf(),
        0 <= index < import.chat_ids.len(),
        forall|k: int|
            0 <= k < import.pages.len() ==> (#[trigger] import.pages[k]).index != index,
        forall|k: int|
            0 <= k < import.states.len() ==> !(#[trigger] import.states[k]).chat(
                import.chat_ids[index],
            ).complete,
    ensures
        import.pages.len() <= distance(
            import.states[0].next_chat as int,
            index,
            import.chat_ids.len() as int,
        ) < import.chat_ids.len(),
{
    lemma_waits(import, index, import.pages.len() as int);
    lemma_distance(
        import.states[0].next_chat as int,
        index,
        import.chat_ids.len() as int,
    );
    lemma_distance(
        import.states.last().next_chat as int,
        index,
        import.chat_ids.len() as int,
    );
}

/// How many of the first `n` chats from the cursor on still have history to import.
pub open spec fn open_chats(state: HistoryState, chat_ids: Seq<i64>, n: int) -> nat
    decreases n,
{
    if n <= 0 {
        0
    } else if state.pending_at(chat_ids, n - 1) {
        open_chats(state, chat_ids, n - 1) + 1
    } else {
        open_chats(state, chat_ids, n - 1)
    }
}

impl Import {
    /// How many positions the cursor has moved in the first `n` pages.
    pub open spec fn moved(self, n: int) -> int
        decreases n,
    {
        if n <= 0 {
            0
        } else {
            self.moved(n - 1) + self.pages[n - 1].offset + 1
        }
    }

    /// The first `n` pages were those of the first `n` open chats from the first cursor on.
    spec fn in_turn(self, n: int) -> bool {
        let first = self.states[0];
        let len = self.chat_ids.len() as int;
        let cursor = first.next_chat as int;
        &&& 0 <= self.moved(n) <= len
        &&& open_chats(first, self.chat_ids, self.moved(n)) == n
        &&& (self.states[n].next_chat - cursor - self.moved(n)) % len == 0
        &&& forall|d: int|
            #![trigger self.chat_ids[scan_index(cursor, d, len)]]
            self.moved(n) <= d < len ==> self.states[n].chat(
                self.chat_ids[scan_index(cursor, d, len)],
            ) == first.chat(self.chat_ids[scan_index(cursor, d, len)])
    }
}

proof fn lemma_open_chats_grow(state: HistoryState, chat_ids: Seq<i64>, a: int, b: int)
    requires
        0 <= a <= b,
    ensures
        open_chats(state, chat_ids, a) <= open_chats(state, chat_ids, b),
        (forall|d: int| a <= d < b ==> !#[trigger] state.pending_at(chat_ids, d)) ==> open_chats(
            state,
            chat_ids,
            a,
        ) == open_chats(state, chat_ids, b),
        (exists|d: int| a <= d < b && #[trigger] state.pending_at(chat_ids, d)) ==> open_chats(
            state,
            chat_ids,
            a,
        ) < open_chats(state, chat_ids, b),
    decreases b - a,
{
    if a < b {
        lemma_open_chats_grow(state, chat_ids, a, b - 1);
        assert(state.pending_at(chat_ids, b - 1) || !state.pending_at(chat_ids, b - 1));
        if exists|d: int| a <= d < b && #[trigger] state.pending_at(chat_ids, d) {
            let d = choose|d: int| a <= d < b && #[trigger] state.pending_at(chat_ids, d);
            if d < b - 1 {
                assert(exists|e: int| a <= e < b - 1 && #[trigger] state.pending_at(chat_ids, e));
            }
        }
    }
}

/// Two different distances within one round lead to two different positions.
proof fn lemma_positions_differ(cursor: int, a: int, b: int, len: int)
    requires
        0 <= a < b < len,
    ensures
        scan_index(cursor, a, len) != scan_index(cursor, b, len),
{
    if scan_index(cursor, a, len) == scan_index(cursor, b, len) {
        lemma_mod_equivalence(cursor + b, cursor + a, len);
        assert((cursor + b) - (cursor + a) == b - a);
        lemma_small_mod((b - a) as nat, len as nat);
    }
}

/// Looking on from a cursor that has moved is looking further from where it was.
proof fn lemma_look_on(cursor: int, next: int, moved: int, d: int, len: int)
    requires
        len > 0,
        (next - cursor - moved) % len == 0,
    ensures
        scan_index(next, d, len) == scan_index(cursor, moved + d, len),
{
    lemma_mod_equivalence(next + d, cursor + moved + d, len);
    assert((next + d) - (cursor + moved + d) == next - cursor - moved);
    assert(cursor + (moved + d) == cursor + moved + d);
}

proof fn lemma_in_turn(import: Import, n: int)
    requires
        import.wf(),
        import.chat_ids.no_duplicates(),
        import.chat_ids.len() > 0,
        0 <= n <= import.pages.len(),
        n <= open_chats(import.states[0], import.chat_ids, import.chat_ids.len() as int),
    ensures
        import.in_turn(n),
        n > 0 ==> {
            &&& import.pages[n - 1].index == scan_index(
                import.states[0].next_chat as int,
                import.moved(n) - 1,
                import.chat_ids.len() as int,
            )
            &&& import.states[0].pending_at(import.chat_ids, import.moved(n) - 1)
            &&& import.moved(n - 1) < import.moved(n)
            &&& forall|d: int|
                import.moved(n - 1) <= d < import.moved(n) - 1
                    ==> !#[trigger] import.states[0].pending_at(import.chat_ids, d)
        },
    decreases n,
{
    let ids = import.chat_ids;
    let len = ids.len() as int;
    let first = import.states[0];
    let cursor = first.next_chat as int;
    if n == 0 {
        lemma_small_mod(0, len as nat);
    } else {
        lemma_in_turn(import, n - 1);
        assert(import.step(n - 1));
        let state = import.states[n - 1];
        let page = import.pages[n - 1];
        let done = import.moved(n - 1);
        let next = state.next_chat as int;
        let offset = page.offset as int;
        // What is pending from the moved cursor on is what was pending at first.
        assert forall|d: int| 0 <= d < len - done implies #[trigger] state.pending_at(ids, d)
            == first.pending_at(ids, done + d) by {
            lemma_look_on(cursor, next, done, d, len);
            assert(state.chat(ids[scan_index(cursor, done + d, len)]) == first.chat(
                ids[scan_index(cursor, done + d, len)],
            ));
        }
        // An open chat is left in this round, and the page is that of the nearest.
        assert(exists|d: int| done <= d < len && #[trigger] first.pending_at(ids, d)) by {
            lemma_open_chats_grow(first, ids, done, len);
        }
        let left = choose|d: int| done <= d < len && #[trigger] first.pending_at(ids, d);
        assert(state.pending_at(ids, left - done));
        assert(offset <= left - done) by {
            if left - done < offset {
                assert(!state.pending_at(ids, left - done));
            }
        }
        assert(state.pending_at(ids, offset));
        assert(first.pending_at(ids, done + offset));
        assert forall|d: int| done <= d < done + offset implies !#[trigger] first.pending_at(
            ids,
            d,
        ) by {
            assert(!state.pending_at(ids, d - done));
        }
        lemma_open_chats_grow(first, ids, done, done + offset);
        assert(import.moved(n) == done + offset + 1);
        lemma_look_on(cursor, next, done, offset, len);
        // The cursor stands behind the page's chat.
        page_changes_its_own_chat(
            state,
            import.states[n],
            len,
            page,
            import.outcomes[n - 1],
            page.chat_id,
        );
        let after = import.states[n].next_chat as int;
        assert((after - cursor - import.moved(n)) % len == 0) by {
            lemma_mod_bound(cursor + done + offset, len);
            lemma_small_mod(page.index as nat, len as nat);
            lemma_add_mod_noop(page.index as int, 1, len);
            lemma_add_mod_noop(cursor + done + offset, 1, len);
            assert(cursor + (done + offset) == cursor + done + offset);
            assert(after == (cursor + done + offset + 1) % len);
            lemma_mod_twice(cursor + done + offset + 1, len);
            lemma_mod_equivalence(after, cursor + done + offset + 1, len);
            assert(after - (cursor + done + offset + 1) == after - cursor - import.moved(n));
        }
        // The chats further on are as they were.
        assert forall|d: int|
            #![trigger ids[scan_index(cursor, d, len)]]
            import.moved(n) <= d < len implies import.states[n].chat(
            ids[scan_index(cursor, d, len)],
        ) == first.chat(ids[scan_index(cursor, d, len)]) by {
            lemma_positions_differ(cursor, done + offset, d, len);
            lemma_mod_bound(cursor + d, len);
            assert(ids[scan_index(cursor, d, len)] != page.chat_id);
            page_changes_its_own_chat(
                state,
                import.states[n],
                len,
                page,
                import.outcomes[n - 1],
                ids[scan_index(cursor, d, len)],
            );
        }
    }
}

proof fn lemma_moved_grows(import: Import, a: int, b: int)
    requires
        0 <= a <= b,
    ensures
        import.moved(a) <= import.moved(b),
        a < b ==> import.moved(a) < import.moved(b),
    decreases b - a,
{
    if a < b {
        lemma_moved_grows(import, a, b - 1);
    }
}

/// The page that first moved the cursor over a distance.
proof fn lemma_moved_over(import: Import, d: int, n: int) -> (j: int)
    requires
        0 <= d < import.moved(n),
        0 <= n,
    ensures
        0 <= j < n,
        import.moved(j) <= d < import.moved(j + 1),
    decreases n,
{
    if n > 0 && d < import.moved(n - 1) {
        lemma_moved_over(import, d, n - 1)
    } else {
        n - 1
    }
}

/// Every open chat is fetched once in a round: where the chats of the request are distinct and
/// as many pages are imported as chats still have history to import, each of these chats is
/// fetched by exactly one page, `j` being the one of the chat at `index`, whether the pages
/// succeed or fail, and no complete chat is fetched.
pub proof fn each_open_chat_is_fetched_once(import: Import, index: int) -> (j: int)
    requires
        import.wf(),
        import.chat_ids.no_duplicates(),
        0 <= index < import.chat_ids.len(),
        import.pages.len() == open_chats(
            import.states[0],
            import.chat_ids,
            import.chat_ids.len() as int,
        ),
    ensures
        !import.states[0].chat(import.chat_ids[index]).complete ==> {
            &&& 0 <= j < import.pages.len()
            &&& import.pages[j].index == index
            &&& import.pages[j].chat_id == import.chat_ids[index]
        },
        forall|i: int|
            0 <= i < import.pages.len() && i != j ==> (#[trigger] import.pages[i]).index != index,
        import.states[0].chat(import.chat_ids[index]).complete ==> forall|i: int|
            0 <= i < import.pages.len() ==> (#[trigger] import.pages[i]).index != index,
{
    let ids = import.chat_ids;
    let len = ids.len() as int;
    let first = import.states[0];
    let cursor = first.next_chat as int;
    let k = import.pages.len() as int;
    let d = distance(cursor, index, len);
    lemma_distance(cursor, index, len);
    lemma_in_turn(import, k);
    let j = if first.pending_at(ids, d) {
        assert(d < import.moved(k)) by {
            lemma_open_chats_grow(first, ids, import.moved(k), len);
        }
        let j = lemma_moved_over(import, d, k);
        lemma_in_turn(import, j + 1);
        assert(d == import.moved(j + 1) - 1);
        assert(import.step(j));
        j
    } else {
        -1
    };
    assert forall|i: int| 0 <= i < k && i != j implies (#[trigger] import.pages[i]).index
        != index by {
        lemma_in_turn(import, i + 1);
        let e = import.moved(i + 1) - 1;
        lemma_moved_grows(import, 0, i);
        lemma_moved_grows(import, i + 1, k);
        if j >= 0 {
            if i < j {
                lemma_moved_grows(import, i + 1, j);
            } else {
                lemma_moved_grows(import, j + 1, i);
                lemma_moved_grows(import, i, i + 1);
            }
        }
        assert(e != d);
        if e < d {
            lemma_positions_differ(cursor, e, d, len);
        } else {
            lemma_positions_differ(cursor, d, e, len);
        }
    }
    j
}

/// However many pages are imported, no count of stored messages goes down, and no complete chat
/// becomes incomplete.
pub proof fn imports_never_go_back(import: Import, n: int, chat_id: i64)
    requires
        import.wf(),
        0 <= n <= import.pages.len(),
    ensures
        import.states[n].chat(chat_id).messages_stored >= import.states[0].chat(
            chat_id,
        ).messages_stored,
        import.states[0].chat(chat_id).complete ==> import.states[n].chat(chat_id).complete,
    decreases n,
{
    if n > 0 {
        imports_never_go_back(import, n - 1, chat_id);
        assert(import.step(n - 1));
        progress_never_shrinks(
            import.states[n - 1],
            import.states[n],
            import.chat_ids.len() as int,
            import.pages[n - 1],
            import.outcomes[n - 1],
            chat_id,
        );
        if import.states[n - 1].chat(chat_id).complete {
            complete_chats_rest(
                import.states[n - 1],
                import.states[n],
                import.chat_ids,
                import.pages[n - 1],
                import.outcomes[n - 1],
                chat_id,
            );
        }
    }
}

/// Progress reaches the file only after a page: whatever an event calls for, the progress is
/// written exactly when a page has just come to its end.
pub proof fn progress_is_written_after_a_page(
    run: HistoryRun,
    event: HistoryEvent,
    next: HistoryRun,
    action: HistoryAction,
)
    requires
        run.admits(event),
        run.moves(event, next, action),
    ensures
        action is WriteState <==> run.stage is AwaitPage && event is PageDone,
{
}

/// A run imports one page at most: once a page is asked for, no later event of the run asks
/// for another.
pub proof fn one_page_per_run(
    run: HistoryRun,
    event: HistoryEvent,
    next: HistoryRun,
    action: HistoryAction,
)
    requires
        run.admits(event),
        run.moves(event, next, action),
    ensures
        action is ImportPage ==> next.stage is AwaitPage,
        run.stage is AwaitPage ==> next.stage is AwaitWrite && !(action is ImportPage),
        run.stage is AwaitWrite ==> next.stage is Finished && !(action is ImportPage),
        !(run.stage is Finished),
{
}

/// A chat's progress is what is listed under its identifier in decimal, and a chat that is not
/// listed has made none.
pub proof fn progress_is_what_is_listed(state: HistoryState, chat_id: i64, i: int)
    requires
        state.wf(),
    ensures
        0 <= i < state.chats@.len() && state.chats@[i].0@ == signed_decimal(chat_id as int) ==> {
            let chat = state.chats@[i].1;
            &&& state.chat(chat_id).complete == chat.complete
            &&& state.chat(chat_id).messages_stored == chat.messages_stored
            &&& state.chat(chat_id).error == text_of(chat.error)
        },
        (forall|j: int|
            0 <= j < state.chats@.len() ==> (#[trigger] state.chats@[j]).0@ != signed_decimal(
                chat_id as int,
            )) ==> {
            &&& !state.chat(chat_id).complete
            &&& state.chat(chat_id).messages_stored == 0
            &&& state.chat(chat_id).error is None
        },
{
    let key = signed_decimal(chat_id as int);
    if 0 <= i < state.chats@.len() && state.chats@[i].0@ == key {
        assert(key_at(state.chats@, key, i));
        let j = choose|j: int| key_at(state.chats@, key, j);
        assert(key_at(state.chats@, key, j));
        text_less_irreflexive(key);
        assert(i == j);
    }
}

/// A page decides for itself whether its chat is complete, whatever was stored before: one with
/// fewer than two hundred messages, while the program is not stopping, leaves the chat complete,
/// and a full one, or one cut short by the end of the program, leaves it open. The messages of
/// the page are added to those before, and the error of an earlier page is forgotten.
pub proof fn a_page_decides_for_itself(
    run: HistoryRun,
    page: HistoryPage,
    count: usize,
    stopping: bool,
    next: HistoryRun,
    action: HistoryAction,
)
    requires
        run.stage == (HistoryStage::AwaitPage { page }),
        run.moves(
            (HistoryEvent::PageDone { outcome: PageOutcome::Imported { count, stopping } }),
            next,
            action,
        ),
    ensures
        count < 200 && !stopping ==> next.state.chat(page.chat_id).complete,
        count >= 200 || stopping ==> !next.state.chat(page.chat_id).complete,
        next.state.chat(page.chat_id).messages_stored == run.state.chat(
            page.chat_id,
        ).messages_stored + count,
        next.state.chat(page.chat_id).error is None,
{
    page_changes_its_own_chat(
        run.state,
        next.state,
        run.chat_ids@.len() as int,
        page,
        PageOutcome::Imported { count, stopping },
        page.chat_id,
    );
}

/// A page that failed is told, and changes neither the count nor the completion of its chat.
pub proof fn a_failed_page_is_told(
    run: HistoryRun,
    page: HistoryPage,
    next: HistoryRun,
    action: HistoryAction,
)
    requires
        run.stage == (HistoryStage::AwaitPage { page }),
        run.moves(
            (HistoryEvent::PageDone { outcome: PageOutcome::Paused }),
            next,
            action,
        ),
    ensures
        next.state.chat(page.chat_id).complete == run.state.chat(page.chat_id).complete,
        next.state.chat(page.chat_id).messages_stored == run.state.chat(
            page.chat_id,
        ).messages_stored,
        next.state.chat(page.chat_id).error == Some("History import paused; it will retry"@),
{
    page_changes_its_own_chat(
        run.state,
        next.state,
        run.chat_ids@.len() as int,
        page,
        PageOutcome::Paused,
        page.chat_id,
    );
}

/// Every page, whatever comes of it, moves the cursor to the position behind its chat, or to the
/// start behind the last, keeps every other chat and the request as they are, and is written
/// down.
pub proof fn every_page_moves_on(
    run: HistoryRun,
    page: HistoryPage,
    outcome: PageOutcome,
    next: HistoryRun,
    action: HistoryAction,
    other: i64,
)
    requires
        run.wf(),
        run.stage == (HistoryStage::AwaitPage { page }),
        run.moves((HistoryEvent::PageDone { outcome }), next, action),
    ensures
        page.index + 1 < run.chat_ids@.len() ==> next.state.next_chat == page.index + 1,
        page.index + 1 == run.chat_ids@.len() ==> next.state.next_chat == 0,
        other != page.chat_id ==> next.state.chat(other) == run.state.chat(other),
        next.chat_ids == run.chat_ids,
        action is WriteState,
{
    let len = run.chat_ids@.len() as int;
    page_changes_its_own_chat(run.state, next.state, len, page, outcome, other);
    if page.index + 1 < len {
        lemma_small_mod((page.index + 1) as nat, len as nat);
    } else {
        lemma_mod_self_0(len);
    }
}

/// The page that is imported is that of the first open chat from the cursor on, going round the
/// request: it is asked for when the progress is known, and there is nothing to do exactly when
/// no chat of the request is open.
pub proof fn the_first_open_chat_is_imported(
    run: HistoryRun,
    state: HistoryState,
    next: HistoryRun,
    action: HistoryAction,
    i: int,
)
    requires
        run.stage is AwaitState,
        run.moves((HistoryEvent::StateRead { state }), next, action),
        0 <= i < run.chat_ids@.len(),
    ensures
        next.state == state,
        next.chat_ids == run.chat_ids,
        action is Done ==> state.chat(run.chat_ids@[i]).complete,
        action is Done || action is FindOldest,
        action matches HistoryAction::FindOldest { chat_id } ==> {
            &&& !state.chat(chat_id).complete
            &&& next.stage matches HistoryStage::AwaitOldest { page }
            &&& page.chat_id == chat_id
            &&& page.index < run.chat_ids@.len()
            &&& run.chat_ids@[page.index as int] == chat_id
            &&& !state.chat(run.chat_ids@[i]).complete ==> distance(
                state.next_chat as int,
                page.index as int,
                run.chat_ids@.len() as int,
            ) <= distance(state.next_chat as int, i, run.chat_ids@.len() as int)
        },
{
    let ids = run.chat_ids@;
    let len = ids.len() as int;
    let cursor = state.next_chat as int;
    let d = distance(cursor, i, len);
    lemma_distance(cursor, i, len);
    assert(state.pending_at(ids, d) == !state.chat(ids[i]).complete);
    if let HistoryStage::AwaitOldest { page } = next.stage {
        lemma_mod_bound(cursor + page.offset, len);
        assert(state.pending_at(ids, page.offset as int));
        // The distance of the page is its offset.
        lemma_distance(cursor, page.index as int, len);
        let e = distance(cursor, page.index as int, len);
        if e < page.offset {
            lemma_positions_differ(cursor, e, page.offset as int, len);
        } else if page.offset < e {
            lemma_positions_differ(cursor, page.offset as int, e, len);
        }
        if state.pending_at(ids, d) && d < page.offset {
            assert(!state.pending_at(ids, d));
        }
    }
}

/// Without a progress file the import begins with the first chat of the request, whichever
/// position an earlier run had reached.
pub proof fn imports_begin_at_the_start(run: HistoryRun, next: HistoryRun, action: HistoryAction)
    requires
        run.stage is AwaitState,
        run.moves(HistoryEvent::StateMissing, next, action),
        run.chat_ids@.len() > 0,
    ensures
        action == (HistoryAction::FindOldest { chat_id: run.chat_ids@[0] }),
        forall|id: i64|
            !(#[trigger] next.state.chat(id)).complete && next.state.chat(id).messages_stored == 0,
{
    let state = next.state;
    let ids = run.chat_ids@;
    assert(state@.chats == state.progress());
    assert(state@.next_chat == 0);
    assert(state.pending_at(ids, 0));
    lemma_small_mod(0, ids.len() as nat);
    if let HistoryStage::AwaitOldest { page } = next.stage {
        if page.offset > 0 {
            assert(!state.pending_at(ids, 0));
        }
    }
}

/// The page is asked for with the oldest message that the archive has of the chat, for no topic,
/// two hundred messages at most, and within a minute.
pub proof fn pages_are_bounded(
    run: HistoryRun,
    page: HistoryPage,
    oldest: Option<i64>,
    next: HistoryRun,
    action: HistoryAction,
)
    requires
        run.stage == (HistoryStage::AwaitOldest { page }),
        run.moves((HistoryEvent::OldestFound { oldest }), next, action),
    ensures
        action == (HistoryAction::ImportPage {
            chat_id: page.chat_id,
            topic_id: None,
            oldest,
            limit: 200,
            download_media: false,
            fetch_all: false,
            show_progress: false,
            timeout_seconds: 60,
        }),
        next.stage == (HistoryStage::AwaitPage { page }),
        next.state == run.state,
        next.chat_ids == run.chat_ids,
{
}

/// A request is taken up exactly when it names no more than ten thousand chats, with all of its
/// chats in their order; without one there is nothing to do; and whatever fails ends the import
/// without a change to the progress.
pub proof fn requests_are_taken_up_whole(
    run: HistoryRun,
    event: HistoryEvent,
    next: HistoryRun,
    action: HistoryAction,
)
    requires
        run.admits(event),
        run.moves(event, next, action),
    ensures
        event matches HistoryEvent::RequestRead { chat_ids } ==> {
            &&& chat_ids@.len() <= 10000 ==> action is ReadState && next.chat_ids == chat_ids
            &&& chat_ids@.len() > 10000 ==> action == (HistoryAction::Fail {
                failure: HistoryFailure::TooManyRequests,
            })
        },
        event is RequestMissing ==> action is Done,
        event is StateInvalid <==> action == (HistoryAction::Fail {
            failure: HistoryFailure::InvalidState,
        }),
        event is Failed <==> action == (HistoryAction::Fail { failure: HistoryFailure::Outside }),
        action is Fail ==> next.state == run.state && next.stage is Finished,
        event is StateWritten ==> action is Done && next.state == run.state,
{
}

/// What is written down is the progress itself: two states whose chats are listed alike are
/// written alike, and one more message, or one more position of the cursor, is seen in the text.
pub proof fn progress_is_seen_in_the_text(chat: HistoryChatView, other: HistoryChatView)
    requires
        chat_text(chat) == chat_text(other),
        chat.complete == other.complete,
        chat.error == other.error,
    ensures
        chat.messages_stored == other.messages_stored,
{
    let a = decimal(chat.messages_stored);
    let b = decimal(other.messages_stored);
    let first = (string_text("complete"@) + seq![':'] + bool_text(chat.complete));
    let name = string_text("messagesStored"@) + seq![':'];
    let last = string_text("error"@) + seq![':'] + optional_text(chat.error);
    lemma_three_members(
        ("complete"@, bool_text(chat.complete)),
        ("messagesStored"@, a),
        ("error"@, optional_text(chat.error)),
    );
    lemma_three_members(
        ("complete"@, bool_text(chat.complete)),
        ("messagesStored"@, b),
        ("error"@, optional_text(chat.error)),
    );
    let head = seq!['{'] + first + seq![','] + name;
    let tail = seq![','] + last + seq!['}'];
    assert(chat_text(chat) =~= head + a + tail);
    assert(chat_text(other) =~= head + b + tail);
    assert(a.len() == b.len()) by {
        assert((head + a + tail).len() == head.len() + a.len() + tail.len());
        assert((head + b + tail).len() == head.len() + b.len() + tail.len());
    }
    assert(a =~= (head + a + tail).subrange(head.len() as int, (head.len() + a.len()) as int));
    assert(b =~= (head + b + tail).subrange(head.len() as int, (head.len() + b.len()) as int));
    decimal_injective(chat.messages_stored, other.messages_stored);
}

proof fn lemma_three_members(
    a: (Seq<char>, Seq<char>),
    b: (Seq<char>, Seq<char>),
    c: (Seq<char>, Seq<char>),
)
    ensures
        document_text(seq![a, b, c]) == seq!['{'] + member_text(a.0, a.1) + seq![','] + member_text(
            b.0,
            b.1,
        ) + seq![','] + member_text(c.0, c.1) + seq!['}'],
{
    assert(seq![a, b, c].drop_last() =~= seq![a, b]);
    assert(seq![a, b].drop_last() =~= seq![a]);
    assert(members_text(seq![a]) == member_text(a.0, a.1));
    assert(members_text(seq![a, b]) == member_text(a.0, a.1) + seq![','] + member_text(b.0, b.1));
    assert(document_text(seq![a, b, c]) =~= seq!['{'] + member_text(a.0, a.1) + seq![',']
        + member_text(b.0, b.1) + seq![','] + member_text(c.0, c.1) + seq!['}']);
}

/// The progress of a chat is written with its three members in their order, each with its own
/// value.
pub proof fn progress_is_written_with_three_members(chat: HistoryChatView)
    ensures
        chat_text(chat) == seq!['{'] + string_text("complete"@) + seq![':'] + (if chat.complete {
            "true"@
        } else {
            "false"@
        }) + seq![','] + string_text("messagesStored"@) + seq![':'] + decimal(
            chat.messages_stored,
        ) + seq![','] + string_text("error"@) + seq![':'] + (match chat.error {
            Some(text) => string_text(text),
            None => "null"@,
        }) + seq!['}'],
{
    lemma_three_members(
        ("complete"@, bool_text(chat.complete)),
        ("messagesStored"@, decimal(chat.messages_stored)),
        ("error"@, optional_text(chat.error)),
    );
    assert(chat_text(chat) =~= seq!['{'] + string_text("complete"@) + seq![':'] + bool_text(
        chat.complete,
    ) + seq![','] + string_text("messagesStored"@) + seq![':'] + decimal(chat.messages_stored)
        + seq![','] + string_text("error"@) + seq![':'] + optional_text(chat.error) + seq!['}']);
}

/// What is written after a page is the progress after it: every listed chat under its own key,
/// in the order of the list, and the cursor.
pub proof fn the_file_holds_the_progress(
    run: HistoryRun,
    event: HistoryEvent,
    next: HistoryRun,
    text: String,
    i: int,
)
    requires
        run.admits(event),
        run.moves(event, next, (HistoryAction::WriteState { text })),
        0 <= i < next.state.chats@.len(),
    ensures
        ({
            let chats = chat_members(next.state.chats@);
            &&& chats.len() == next.state.chats@.len()
            &&& chats[i].0 == next.state.chats@[i].0@
            &&& chats[i].1 == chat_text(next.state.chats@[i].1@)
            &&& text@ == seq!['{'] + string_text("chats"@) + seq![':'] + document_text(chats)
                + seq![','] + string_text("next_chat"@) + seq![':'] + decimal(
                next.state.next_chat as nat,
            ) + seq!['}']
        }),
{
    let chats = document_text(chat_members(next.state.chats@));
    let a = ("chats"@, chats);
    let b = ("next_chat"@, decimal(next.state.next_chat as nat));
    assert(seq![a, b].drop_last() =~= seq![a]);
    assert(members_text(seq![a]) == member_text(a.0, a.1));
    assert(text@ =~= seq!['{'] + string_text("chats"@) + seq![':'] + chats + seq![',']
        + string_text("next_chat"@) + seq![':'] + decimal(next.state.next_chat as nat)
        + seq!['}']);
}

/// Whatever was stored before, the page alone decides whether its chat is complete when it is
/// taken down, by its own number of messages, and its messages are added to those before.
pub proof fn a_recorded_page_decides_for_itself(
    before: HistoryState,
    after: HistoryState,
    requested: int,
    page: HistoryPage,
    count: usize,
    stopping: bool,
)
    requires
        recorded(before, after, requested, page, (PageOutcome::Imported { count, stopping })),
    ensures
        after.chat(page.chat_id).complete <==> count < 200 && !stopping,
        after.chat(page.chat_id).messages_stored == before.chat(page.chat_id).messages_stored
            + count,
        after.chat(page.chat_id).error is None,
{
    page_changes_its_own_chat(
        before,
        after,
        requested,
        page,
        PageOutcome::Imported { count, stopping },
        page.chat_id,
    );
}

/// The import is stopped by nothing but its own end: whatever it asked for may be answered, with
/// any page whose messages can be counted and any progress from which the request can be counted
/// round, and may fail, but for a page, of which a failure is an answer.
pub proof fn imports_take_any_answer(
    run: HistoryRun,
    page: HistoryPage,
    chat_ids: Vec<i64>,
    state: HistoryState,
    oldest: Option<i64>,
    count: usize,
    stopping: bool,
)
    ensures
        run.stage is AwaitRequest ==> run.admits(HistoryEvent::RequestMissing) && run.admits(
            (HistoryEvent::RequestRead { chat_ids }),
        ) && run.admits(HistoryEvent::Failed),
        run.stage is AwaitState ==> run.admits(HistoryEvent::StateMissing) && run.admits(
            HistoryEvent::StateInvalid,
        ) && run.admits(HistoryEvent::Failed),
        run.stage is AwaitState && state.wf() && state.next_chat + run.chat_ids@.len()
            <= usize::MAX ==> run.admits((HistoryEvent::StateRead { state })),
        run.stage is AwaitOldest ==> run.admits((HistoryEvent::OldestFound { oldest }))
            && run.admits(HistoryEvent::Failed),
        run.stage == (HistoryStage::AwaitPage { page }) ==> run.admits(
            (HistoryEvent::PageDone { outcome: PageOutcome::Paused }),
        ),
        run.stage == (HistoryStage::AwaitPage { page }) && run.state.chat(
            page.chat_id,
        ).messages_stored + count <= usize::MAX ==> run.admits(
            (HistoryEvent::PageDone { outcome: PageOutcome::Imported { count, stopping } }),
        ),
        run.stage is AwaitWrite ==> run.admits(HistoryEvent::StateWritten) && run.admits(
            HistoryEvent::Failed,
        ),
{
}

/// A request for no chats is done at once, whatever the progress.
pub proof fn empty_requests_are_done(
    run: HistoryRun,
    event: HistoryEvent,
    next: HistoryRun,
    action: HistoryAction,
)
    requires
        run.stage is AwaitState,
        run.admits(event),
        run.moves(event, next, action),
        run.chat_ids@.len() == 0,
        event is StateMissing || event is StateRead,
    ensures
        action is Done,
        next.stage is Finished,
{
}

} // verus!
