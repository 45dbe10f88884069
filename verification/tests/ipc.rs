use arto_desktop::ipc::{
    event_from_line, is_address_in_use, listener_step, messages_for_paths, send_result,
    socket_path, IpcMessage, ListenerAction, ListenerError, ListenerEvent, ListenerStage,
    OpenEvent, PathKind, ResolvedPath, SendResult,
};

fn resolved(path: &str, kind: PathKind) -> ResolvedPath {
    ResolvedPath { path: path.to_string(), kind }
}

#[test]
fn socket_path_in_runtime_dir() {
    assert_eq!(socket_path(Some("/run/user/1000"), 1000), "/run/user/1000/com.lambdalisue.arto.sock");
    assert_eq!(socket_path(Some("/run/user/1000/"), 1000), "/run/user/1000/com.lambdalisue.arto.sock");
}

#[test]
fn socket_path_without_runtime_dir() {
    assert_eq!(socket_path(None, 501), "/tmp/arto-501/com.lambdalisue.arto.sock");
    assert_eq!(socket_path(None, 0), "/tmp/arto-0/com.lambdalisue.arto.sock");
}

#[test]
fn address_in_use_code() {
    assert!(is_address_in_use(Some(98), 98));
    assert!(!is_address_in_use(Some(2), 98));
    assert!(!is_address_in_use(None, 98));
}

#[test]
fn no_paths_sends_reopen() {
    assert_eq!(messages_for_paths(&[]), vec![IpcMessage::Reopen]);
}

#[test]
fn every_path_becomes_a_message_in_order() {
    let paths = vec![
        resolved("/docs", PathKind::Directory),
        resolved("/missing.md", PathKind::Missing),
        resolved("/docs/a.md", PathKind::File),
    ];
    assert_eq!(
        messages_for_paths(&paths),
        vec![
            IpcMessage::Directory { path: "/docs".to_string() },
            IpcMessage::File { path: "/missing.md".to_string() },
            IpcMessage::File { path: "/docs/a.md".to_string() },
        ]
    );
}

#[test]
fn a_missing_path_is_still_sent() {
    let paths = vec![resolved("/nope", PathKind::Missing)];
    assert_eq!(messages_for_paths(&paths), vec![IpcMessage::File { path: "/nope".to_string() }]);
}

#[test]
fn messages_become_events() {
    assert_eq!(
        IpcMessage::File { path: "/a.md".to_string() }.into_open_event(),
        OpenEvent::File("/a.md".to_string())
    );
    assert_eq!(
        IpcMessage::Directory { path: "/d".to_string() }.into_open_event(),
        OpenEvent::Directory("/d".to_string())
    );
    assert_eq!(IpcMessage::Reopen.into_open_event(), OpenEvent::Reopen);
}

#[test]
fn received_lines() {
    assert_eq!(event_from_line("", Some(IpcMessage::Reopen)), None);
    assert_eq!(event_from_line("garbage", None), None);
    assert_eq!(
        event_from_line("{\"type\":\"reopen\"}", Some(IpcMessage::Reopen)),
        Some(OpenEvent::Reopen)
    );
}

#[test]
fn send_outcomes() {
    assert_eq!(send_result(true, true), SendResult::Sent);
    assert_eq!(send_result(true, false), SendResult::NoExistingInstance);
    assert_eq!(send_result(false, false), SendResult::NoExistingInstance);
}

#[test]
fn listener_created_directly() {
    assert_eq!(listener_step(ListenerStage::FirstAttempt, ListenerEvent::Created), ListenerAction::Ready);
    assert_eq!(
        listener_step(ListenerStage::FirstAttempt, ListenerEvent::NameInvalid),
        ListenerAction::Fail(ListenerError::InvalidName)
    );
    assert_eq!(
        listener_step(ListenerStage::FirstAttempt, ListenerEvent::CreateFailed { address_in_use: false }),
        ListenerAction::Fail(ListenerError::CreateFailed)
    );
}

#[test]
fn listener_replaces_stale_socket() {
    let mut stage = ListenerStage::FirstAttempt;
    let events = [
        ListenerEvent::CreateFailed { address_in_use: true },
        ListenerEvent::StaleCheck { active: false },
        ListenerEvent::Removed { ok: true },
        ListenerEvent::Created,
    ];
    let mut last = ListenerAction::Ready;
    for event in events {
        last = listener_step(stage, event);
        if let ListenerAction::Continue(next) = last {
            stage = next;
        }
    }
    assert_eq!(stage, ListenerStage::SecondAttempt);
    assert_eq!(last, ListenerAction::Ready);
}

#[test]
fn listener_refuses_live_socket_and_failures() {
    assert_eq!(
        listener_step(ListenerStage::CheckingStale, ListenerEvent::StaleCheck { active: true }),
        ListenerAction::Fail(ListenerError::AlreadyRunning)
    );
    assert_eq!(
        listener_step(ListenerStage::RemovingStale, ListenerEvent::Removed { ok: false }),
        ListenerAction::Fail(ListenerError::RemoveFailed)
    );
    assert_eq!(
        listener_step(ListenerStage::SecondAttempt, ListenerEvent::CreateFailed { address_in_use: true }),
        ListenerAction::Fail(ListenerError::CreateFailedAfterCleanup)
    );
}
