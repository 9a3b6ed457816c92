use tgcli::history::{
    history_json, history_page, HistoryAction, HistoryChat, HistoryEvent, HistoryFailure, HistoryRun,
    HistoryStage, HistoryState, PageOutcome,
};

fn requested(chat_ids: Vec<i64>) -> HistoryRun {
    let mut run = HistoryRun::start();
    let action = history_page(&mut run, HistoryEvent::RequestRead { chat_ids });
    assert_eq!(action, HistoryAction::ReadState);
    run
}

/// Imports one page of whatever chat comes next, and hands the progress back.
fn import(
    chat_ids: &[i64],
    state: HistoryState,
    outcome: PageOutcome,
) -> (i64, HistoryState) {
    let mut run = requested(chat_ids.to_vec());
    let chat_id = match history_page(&mut run, HistoryEvent::StateRead { state }) {
        HistoryAction::FindOldest { chat_id } => chat_id,
        other => panic!("{other:?}"),
    };
    let action = history_page(&mut run, HistoryEvent::OldestFound { oldest: Some(9) });
    assert_eq!(
        action,
        HistoryAction::ImportPage {
            chat_id,
            topic_id: None,
            oldest: Some(9),
            limit: 200,
            download_media: false,
            fetch_all: false,
            show_progress: false,
            timeout_seconds: 60,
        }
    );
    let action = history_page(&mut run, HistoryEvent::PageDone { outcome });
    assert_eq!(action, HistoryAction::WriteState { text: history_json(&run.state) });
    let action = history_page(&mut run, HistoryEvent::StateWritten);
    assert_eq!(action, HistoryAction::Done);
    assert_eq!(run.stage, HistoryStage::Finished);
    (chat_id, run.state)
}

fn full() -> PageOutcome {
    PageOutcome::Imported { count: 200, stopping: false }
}

fn keys(state: &HistoryState) -> Vec<&str> {
    state.chats.iter().map(|(key, _)| key.as_str()).collect()
}

#[test]
fn without_a_request_nothing_is_done() {
    let mut run = HistoryRun::start();
    assert_eq!(history_page(&mut run, HistoryEvent::RequestMissing), HistoryAction::Done);
    assert_eq!(run.stage, HistoryStage::Finished);
}

#[test]
fn too_many_chats_are_refused() {
    requested(vec![1; 10_000]);
    let mut run = HistoryRun::start();
    let action = history_page(&mut run, HistoryEvent::RequestRead { chat_ids: vec![1; 10_001] });
    assert_eq!(action, HistoryAction::Fail { failure: HistoryFailure::TooManyRequests });
    assert_eq!(HistoryFailure::TooManyRequests.message(), Some("Too many history requests"));
    assert_eq!(HistoryFailure::Outside.message(), None);
}

#[test]
fn an_empty_request_is_done_at_once() {
    let mut run = requested(vec![]);
    assert_eq!(history_page(&mut run, HistoryEvent::StateMissing), HistoryAction::Done);
}

#[test]
fn pages_go_round() {
    let ids = [30, -4, 100];
    let (chat, state) = import(&ids, HistoryState::default(), full());
    assert_eq!((chat, state.next_chat), (30, 1));
    let (chat, state) = import(&ids, state, full());
    assert_eq!((chat, state.next_chat), (-4, 2));
    let (chat, state) = import(&ids, state, full());
    assert_eq!((chat, state.next_chat), (100, 0));
    let (chat, state) = import(&ids, state, full());
    assert_eq!((chat, state.next_chat), (30, 1));
    assert_eq!(keys(&state), vec!["-4", "100", "30"]);
    assert_eq!(state.chats[2].1.messages_stored, 400);
    assert!(!state.chats[2].1.complete);
}

#[test]
fn a_short_page_completes_its_chat() {
    let ids = [1, 2];
    let short = PageOutcome::Imported { count: 199, stopping: false };
    let (_, state) = import(&ids, HistoryState::default(), short);
    assert!(state.chats[0].1.complete);
    assert_eq!(state.chats[0].1.messages_stored, 199);
    let (chat, state) = import(&ids, state, full());
    assert_eq!(chat, 2);
    let (chat, _) = import(&ids, state, full());
    assert_eq!(chat, 2);
}

#[test]
fn a_page_cut_short_by_the_end_completes_nothing() {
    let cut = PageOutcome::Imported { count: 3, stopping: true };
    let (_, state) = import(&[1], HistoryState::default(), cut);
    assert!(!state.chats[0].1.complete);
    assert_eq!(state.chats[0].1.messages_stored, 3);
}

#[test]
fn a_paused_page_is_tried_again() {
    let (_, state) = import(&[1], HistoryState::default(), full());
    let (_, state) = import(&[1], state, PageOutcome::Paused);
    assert_eq!(state.chats[0].1.error, Some("History import paused; it will retry".to_string()));
    assert_eq!(state.chats[0].1.messages_stored, 200);
    let (chat, state) = import(&[1], state, full());
    assert_eq!(chat, 1);
    assert_eq!(state.chats[0].1.error, None);
    assert_eq!(state.chats[0].1.messages_stored, 400);
}

#[test]
fn nothing_is_left_when_all_is_complete() {
    let mut state = HistoryState::default();
    for key in ["1", "2"] {
        let chat = HistoryChat { complete: true, ..HistoryChat::default() };
        state.insert(key.to_string(), chat);
    }
    let mut run = requested(vec![2, 1, 2]);
    assert_eq!(history_page(&mut run, HistoryEvent::StateRead { state }), HistoryAction::Done);
}

#[test]
fn a_cursor_beyond_the_request_goes_round() {
    let state = HistoryState { chats: vec![], next_chat: 7 };
    let (chat, state) = import(&[1, 2, 3], state, full());
    assert_eq!((chat, state.next_chat), (2, 2));
}

#[test]
fn failures_outside_end_the_import() {
    let outside = HistoryAction::Fail { failure: HistoryFailure::Outside };
    let mut run = HistoryRun::start();
    assert_eq!(history_page(&mut run, HistoryEvent::Failed), outside);
    let mut run = requested(vec![1]);
    assert_eq!(history_page(&mut run, HistoryEvent::Failed), outside);
    let mut run = requested(vec![1]);
    history_page(&mut run, HistoryEvent::StateMissing);
    assert_eq!(history_page(&mut run, HistoryEvent::Failed), outside);
}

#[test]
fn scans_are_checked_for_overflow() {
    let far = HistoryState { chats: vec![], next_chat: usize::MAX };
    assert!(far.check_scan(&vec![1]));
    let mut done = HistoryState { chats: vec![], next_chat: usize::MAX };
    done.insert("1".to_string(), HistoryChat { complete: true, ..HistoryChat::default() });
    assert!(!done.check_scan(&vec![1, 1]));
    assert!(HistoryState::default().check_scan(&vec![1, 2, 3]));
}

#[test]
fn keys_are_checked_for_their_order() {
    let listed = |keys: Vec<&str>| HistoryState {
        chats: keys.into_iter().map(|key| (key.to_string(), HistoryChat::default())).collect(),
        next_chat: 0,
    };
    assert!(listed(vec![]).check_keys());
    assert!(listed(vec!["-4", "100", "30"]).check_keys());
    assert!(!listed(vec!["30", "100"]).check_keys());
    assert!(!listed(vec!["1", "1"]).check_keys());
}

#[test]
fn pages_are_checked_for_overflow() {
    let mut state = HistoryState::default();
    let chat = HistoryChat { messages_stored: usize::MAX - 200, ..HistoryChat::default() };
    state.insert("7".to_string(), chat);
    assert!(state.check_page(7, full()));
    assert!(!state.check_page(7, PageOutcome::Imported { count: 201, stopping: false }));
    assert!(state.check_page(7, PageOutcome::Paused));
    assert!(state.check_page(8, PageOutcome::Imported { count: usize::MAX, stopping: false }));
}

#[test]
fn a_chat_waits_for_the_chats_before_it() {
    let ids = [1, 2, 3, 4];
    let mut state = HistoryState { chats: vec![], next_chat: 1 };
    let mut order = vec![];
    for _ in 0..4 {
        let (chat, next) = import(&ids, state, PageOutcome::Paused);
        order.push(chat);
        state = next;
    }
    assert_eq!(order, vec![2, 3, 4, 1]);
}

#[test]
fn a_progress_file_that_is_not_understood_is_left_alone() {
    let mut run = requested(vec![1]);
    let action = history_page(&mut run, HistoryEvent::StateInvalid);
    assert_eq!(action, HistoryAction::Fail { failure: HistoryFailure::InvalidState });
    assert_eq!(HistoryFailure::InvalidState.message(), Some("Invalid history state"));
    assert_eq!(run.stage, HistoryStage::Finished);
}

#[test]
fn a_round_fetches_each_open_chat_once() {
    let ids = [10, 20, 30, 40, 50];
    let mut state = HistoryState { chats: vec![], next_chat: 3 };
    for key in ["20", "50"] {
        let chat = HistoryChat { complete: true, ..HistoryChat::default() };
        state.insert(key.to_string(), chat);
    }
    let outcomes = [PageOutcome::Paused, full(), PageOutcome::Imported { count: 1, stopping: false }];
    let mut fetched = vec![];
    for outcome in outcomes {
        let (chat, next) = import(&ids, state, outcome);
        fetched.push(chat);
        state = next;
    }
    assert_eq!(fetched, vec![40, 10, 30]);
}

#[test]
fn progress_is_written_in_its_order() {
    assert_eq!(history_json(&HistoryState::default()), "{\"chats\":{},\"next_chat\":0}");
    let (_, state) = import(&[30, -4], HistoryState::default(), full());
    let (_, state) = import(&[30, -4], state, PageOutcome::Paused);
    assert_eq!(
        history_json(&state),
        "{\"chats\":{\"-4\":{\"complete\":false,\"messagesStored\":0,\
         \"error\":\"History import paused; it will retry\"},\
         \"30\":{\"complete\":false,\"messagesStored\":200,\"error\":null}},\"next_chat\":0}"
    );
}
