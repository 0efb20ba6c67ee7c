use fs_notify::{
    run, settle, step, LoopState, NotifyEvent, NotifyEventKind, RawCreateKind, RawDataChange,
    RawEvent, RawEventKind, RawModifyKind, RawOutcome, RawRemoveKind, Reply, WatchError,
};
use std::cell::RefCell;

fn raw(kind: RawEventKind, path: &str) -> RawEvent<String> {
    RawEvent { kind, paths: vec![path.to_string()] }
}

fn created(path: &str) -> RawOutcome<String> {
    RawOutcome::Event(raw(RawEventKind::Create(RawCreateKind::File), path))
}

fn written(path: &str) -> RawOutcome<String> {
    RawOutcome::Event(raw(RawEventKind::Modify(RawModifyKind::Data(RawDataChange::Content)), path))
}

fn removed(path: &str) -> RawOutcome<String> {
    RawOutcome::Event(raw(RawEventKind::Remove(RawRemoveKind::File), path))
}

/// Drives the loop over `stream` the way a caller does: one step per item,
/// for as long as the loop runs. `reply(n)` is the handler's answer to its
/// `n`-th call, counted from zero.
fn drive(
    stream: Vec<RawOutcome<String>>,
    reply: impl Fn(usize) -> Reply,
) -> (LoopState, Vec<(NotifyEventKind, Vec<String>)>) {
    let mut delivered: Vec<(NotifyEventKind, Vec<String>)> = Vec::new();
    let mut state = LoopState::Running;
    for outcome in stream {
        if !state.is_running() {
            break;
        }
        state = step(state, outcome, |event: NotifyEvent<String>| {
            let answer = reply(delivered.len());
            delivered.push((event.kind(), event.into_paths()));
            answer
        });
    }
    (state, delivered)
}

/// Feeds the whole of `stream` to the loop, also after it has ended.
fn feed_all(
    stream: Vec<RawOutcome<String>>,
    reply: impl Fn(usize) -> Reply,
) -> (LoopState, Vec<(NotifyEventKind, Vec<String>)>) {
    let mut delivered: Vec<(NotifyEventKind, Vec<String>)> = Vec::new();
    let mut state = LoopState::Running;
    for outcome in stream {
        state = step(state, outcome, |event: NotifyEvent<String>| {
            let answer = reply(delivered.len());
            delivered.push((event.kind(), event.into_paths()));
            answer
        });
    }
    (state, delivered)
}

/// Runs the recorded `stream` and tells what the run returned and what the
/// handler was handed.
fn record(
    stream: Vec<RawOutcome<String>>,
    reply: impl Fn(usize) -> Reply,
) -> (Result<(), WatchError>, Vec<(NotifyEventKind, Vec<String>)>) {
    let delivered: RefCell<Vec<(NotifyEventKind, Vec<String>)>> = RefCell::new(Vec::new());
    let result = run(stream, &|event: NotifyEvent<String>| {
        let answer = reply(delivered.borrow().len());
        delivered.borrow_mut().push((event.kind(), event.into_paths()));
        answer
    });
    (result, delivered.into_inner())
}

fn seen(kind: NotifyEventKind, path: &str) -> (NotifyEventKind, Vec<String>) {
    (kind, vec![path.to_string()])
}

#[test]
fn settle_goes_on_on_true() {
    assert_eq!(settle(Ok(true)), LoopState::Running);
}

#[test]
fn settle_stops_on_false() {
    assert_eq!(settle(Ok(false)), LoopState::StoppedByHandler);
}

#[test]
fn settle_fails_with_the_handlers_message_unchanged() {
    assert_eq!(
        settle(Err("boom: handler threw".to_string())),
        LoopState::Failed(WatchError::HandlerFailure("boom: handler threw".to_string()))
    );
}

#[test]
fn a_running_loop_has_no_result_yet() {
    assert!(LoopState::Running.is_running());
    assert_eq!(LoopState::Running.into_result(), None);
}

#[test]
fn a_stopped_loop_returns_success() {
    assert!(!LoopState::StoppedByHandler.is_running());
    assert_eq!(LoopState::StoppedByHandler.into_result(), Some(Ok(())));
}

#[test]
fn a_closed_loop_returns_success() {
    assert!(!LoopState::Closed.is_running());
    assert_eq!(LoopState::Closed.into_result(), Some(Ok(())));
}

#[test]
fn a_failed_loop_returns_its_error() {
    let failed = LoopState::Failed(WatchError::Platform("queue overflow".to_string()));
    assert!(!failed.is_running());
    assert_eq!(
        failed.into_result(),
        Some(Err(WatchError::Platform("queue overflow".to_string())))
    );
}

#[test]
fn step_delivers_the_normalized_event_once() {
    let mut calls: Vec<NotifyEvent<String>> = Vec::new();
    let next = step(LoopState::Running, written("/tmp/dir/f.txt"), |event: NotifyEvent<String>| {
        calls.push(event);
        Ok(true)
    });
    assert_eq!(next, LoopState::Running);
    assert_eq!(calls.len(), 1);
    assert_eq!(calls[0].kind(), NotifyEventKind::ModifyDataContent);
    assert_eq!(calls[0].paths(), &vec!["/tmp/dir/f.txt".to_string()]);
}

#[test]
fn step_fails_on_a_platform_error_without_calling_the_handler() {
    let mut calls: usize = 0;
    let next = step(
        LoopState::Running,
        RawOutcome::Error("watch handle closed".to_string()),
        |_event: NotifyEvent<String>| {
            calls += 1;
            Ok(true)
        },
    );
    assert_eq!(next, LoopState::Failed(WatchError::Platform("watch handle closed".to_string())));
    assert_eq!(calls, 0);
}

#[test]
fn step_closes_at_the_end_of_the_channel() {
    let mut calls: usize = 0;
    let next = step(LoopState::Running, RawOutcome::End, |_event: NotifyEvent<String>| {
        calls += 1;
        Ok(true)
    });
    assert_eq!(next, LoopState::Closed);
    assert_eq!(calls, 0);
}

#[test]
fn an_ended_loop_drops_what_comes_after() {
    let ended = vec![
        LoopState::StoppedByHandler,
        LoopState::Closed,
        LoopState::Failed(WatchError::Platform("gone".to_string())),
        LoopState::Failed(WatchError::HandlerFailure("threw".to_string())),
    ];
    for state in ended {
        for outcome in [created("/a"), RawOutcome::Error("late".to_string()), RawOutcome::End] {
            let before = format!("{:?}", state);
            let mut calls: usize = 0;
            let copy = match &state {
                LoopState::StoppedByHandler => LoopState::StoppedByHandler,
                LoopState::Closed => LoopState::Closed,
                LoopState::Failed(WatchError::Platform(m)) => {
                    LoopState::Failed(WatchError::Platform(m.clone()))
                }
                LoopState::Failed(WatchError::HandlerFailure(m)) => {
                    LoopState::Failed(WatchError::HandlerFailure(m.clone()))
                }
                LoopState::Running => unreachable!(),
            };
            let next = step(copy, outcome, |_event: NotifyEvent<String>| {
                calls += 1;
                Ok(true)
            });
            assert_eq!(format!("{:?}", next), before);
            assert_eq!(calls, 0);
        }
    }
}

#[test]
fn events_are_delivered_in_stream_order() {
    let stream = vec![created("/w/e1"), written("/w/e2"), removed("/w/e3")];
    let (state, delivered) = drive(stream, |_n| Ok(true));
    assert_eq!(state, LoopState::Running);
    assert_eq!(
        delivered,
        vec![
            seen(NotifyEventKind::CreateFile, "/w/e1"),
            seen(NotifyEventKind::ModifyDataContent, "/w/e2"),
            seen(NotifyEventKind::RemoveFile, "/w/e3"),
        ]
    );
}

#[test]
fn stop_on_false_delivers_exactly_the_first_k() {
    let total: usize = 5;
    for k in 1..=total {
        let stream: Vec<RawOutcome<String>> =
            (1..=total).map(|i| written(&format!("/w/e{}", i))).collect();
        let (state, delivered) = feed_all(stream, |n| Ok(n + 1 < k));
        let expected: Vec<(NotifyEventKind, Vec<String>)> = (1..=k)
            .map(|i| seen(NotifyEventKind::ModifyDataContent, &format!("/w/e{}", i)))
            .collect();
        assert_eq!(delivered, expected);
        assert_eq!(state, LoopState::StoppedByHandler);
        assert_eq!(state.into_result(), Some(Ok(())));
    }
}

#[test]
fn stop_on_the_first_event_delivers_one() {
    let stream = vec![written("/w/e1"), written("/w/e2"), written("/w/e3")];
    let (state, delivered) = feed_all(stream, |_n| Ok(false));
    assert_eq!(delivered, vec![seen(NotifyEventKind::ModifyDataContent, "/w/e1")]);
    assert_eq!(state.into_result(), Some(Ok(())));
}

#[test]
fn a_platform_error_ends_the_run_with_that_error() {
    let stream = vec![
        created("/w/e1"),
        RawOutcome::Error("inotify: watch handle closed".to_string()),
        written("/w/e2"),
        RawOutcome::End,
    ];
    let (state, delivered) = feed_all(stream, |_n| Ok(true));
    assert_eq!(delivered, vec![seen(NotifyEventKind::CreateFile, "/w/e1")]);
    assert_eq!(
        state.into_result(),
        Some(Err(WatchError::Platform("inotify: watch handle closed".to_string())))
    );
}

#[test]
fn a_platform_error_on_the_first_item_delivers_nothing() {
    let stream = vec![RawOutcome::Error("no watch".to_string()), created("/w/e1")];
    let (state, delivered) = feed_all(stream, |_n| Ok(true));
    assert!(delivered.is_empty());
    assert_eq!(state, LoopState::Failed(WatchError::Platform("no watch".to_string())));
}

#[test]
fn the_end_of_the_channel_ends_the_run_in_success() {
    let stream = vec![created("/w/e1"), written("/w/e1"), RawOutcome::End, removed("/w/e1")];
    let (state, delivered) = feed_all(stream, |_n| Ok(true));
    assert_eq!(
        delivered,
        vec![
            seen(NotifyEventKind::CreateFile, "/w/e1"),
            seen(NotifyEventKind::ModifyDataContent, "/w/e1"),
        ]
    );
    assert_eq!(state, LoopState::Closed);
    assert_eq!(state.into_result(), Some(Ok(())));
}

#[test]
fn an_empty_channel_closes_at_once() {
    let (state, delivered) = drive(vec![RawOutcome::<String>::End], |_n| Ok(true));
    assert!(delivered.is_empty());
    assert_eq!(state.into_result(), Some(Ok(())));
}

#[test]
fn a_handler_failure_ends_the_run_with_the_handlers_message() {
    let stream = vec![created("/w/e1"), written("/w/e2"), removed("/w/e3")];
    let (state, delivered) = feed_all(stream, |n| {
        if n == 1 {
            Err("TypeError: handler must return bool".to_string())
        } else {
            Ok(true)
        }
    });
    assert_eq!(
        delivered,
        vec![
            seen(NotifyEventKind::CreateFile, "/w/e1"),
            seen(NotifyEventKind::ModifyDataContent, "/w/e2"),
        ]
    );
    assert_eq!(
        state.into_result(),
        Some(Err(WatchError::HandlerFailure("TypeError: handler must return bool".to_string())))
    );
}

#[test]
fn one_written_file_then_stop() {
    let stream = vec![
        created("/tmp/dir/f.txt"),
        written("/tmp/dir/f.txt"),
        RawOutcome::Event(raw(
            RawEventKind::Modify(RawModifyKind::Data(RawDataChange::Any)),
            "/tmp/dir/f.txt",
        )),
    ];
    let (state, delivered) = drive(stream, |_n| Ok(false));
    assert_eq!(delivered.len(), 1);
    let (kind, paths) = &delivered[0];
    assert!(matches!(
        kind,
        NotifyEventKind::ModifyDataAny
            | NotifyEventKind::ModifyDataContent
            | NotifyEventKind::CreateFile
    ));
    assert!(paths.contains(&"/tmp/dir/f.txt".to_string()));
    assert_eq!(state, LoopState::StoppedByHandler);
    assert_eq!(state.into_result(), Some(Ok(())));
}

#[test]
fn run_delivers_a_whole_stream_in_order_and_closes() {
    let stream = vec![created("/w/e1"), written("/w/e2"), removed("/w/e3")];
    let (result, delivered) = record(stream, |_n| Ok(true));
    assert_eq!(result, Ok(()));
    assert_eq!(
        delivered,
        vec![
            seen(NotifyEventKind::CreateFile, "/w/e1"),
            seen(NotifyEventKind::ModifyDataContent, "/w/e2"),
            seen(NotifyEventKind::RemoveFile, "/w/e3"),
        ]
    );
}

#[test]
fn run_stops_on_false_after_exactly_k_events() {
    let total: usize = 6;
    for k in 1..=total {
        let stream: Vec<RawOutcome<String>> =
            (1..=total).map(|i| written(&format!("/w/e{}", i))).collect();
        let (result, delivered) = record(stream, |n| Ok(n + 1 < k));
        let expected: Vec<(NotifyEventKind, Vec<String>)> = (1..=k)
            .map(|i| seen(NotifyEventKind::ModifyDataContent, &format!("/w/e{}", i)))
            .collect();
        assert_eq!(result, Ok(()));
        assert_eq!(delivered, expected);
    }
}

#[test]
fn run_returns_the_platform_error_and_drops_the_rest() {
    let stream = vec![
        created("/w/e1"),
        written("/w/e1"),
        RawOutcome::Error("watch handle closed".to_string()),
        removed("/w/e1"),
    ];
    let (result, delivered) = record(stream, |_n| Ok(true));
    assert_eq!(result, Err(WatchError::Platform("watch handle closed".to_string())));
    assert_eq!(
        delivered,
        vec![
            seen(NotifyEventKind::CreateFile, "/w/e1"),
            seen(NotifyEventKind::ModifyDataContent, "/w/e1"),
        ]
    );
}

#[test]
fn run_returns_the_handlers_failure_unchanged() {
    let stream = vec![created("/w/e1"), written("/w/e1")];
    let (result, delivered) = record(stream, |_n| Err("RuntimeException: nope".to_string()));
    assert_eq!(result, Err(WatchError::HandlerFailure("RuntimeException: nope".to_string())));
    assert_eq!(delivered, vec![seen(NotifyEventKind::CreateFile, "/w/e1")]);
}

#[test]
fn run_of_an_empty_stream_succeeds_without_a_call() {
    let (result, delivered) = record(Vec::new(), |_n| Ok(false));
    assert_eq!(result, Ok(()));
    assert!(delivered.is_empty());
}

#[test]
fn run_drops_what_follows_the_end_of_the_channel() {
    let stream = vec![created("/w/e1"), RawOutcome::End, written("/w/e1")];
    let (result, delivered) = record(stream, |_n| Ok(true));
    assert_eq!(result, Ok(()));
    assert_eq!(delivered, vec![seen(NotifyEventKind::CreateFile, "/w/e1")]);
}
