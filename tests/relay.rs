use mysql_relay::correlation::{
    decode_secret_payload, response_event_name, secret_or_empty, CorrelationSlot, CorrelationStore,
    Delivery, REQUEST_EVENT,
};
use mysql_relay::installer::{masked_command, privileged_args, privileged_command};
use mysql_relay::prompt::{finish_wait, PromptError, SudoPasswordRequest, WaitOutcome, PROMPT_TIMEOUT_SECS};
use mysql_relay::supervisor::{
    classify_termination, probe_reports_installed, relay_step, ProcessEvent, RelayAction,
};
use tokio::sync::oneshot;

#[test]
fn response_event_name_appends_id() {
    assert_eq!(response_event_name("abc"), "sudo-password-response-abc");
    assert_eq!(REQUEST_EVENT, "sudo-password-request");
}

#[test]
fn slot_delivers_only_once() {
    let (tx, mut rx) = oneshot::channel::<String>();
    let mut slot = CorrelationSlot::new(tx);
    assert!(slot.is_pending());
    assert_eq!(slot.deliver("first".to_string()), Delivery::Delivered);
    assert!(!slot.is_pending());
    assert_eq!(slot.deliver("second".to_string()), Delivery::AlreadyResolved);
    assert_eq!(rx.try_recv().unwrap(), "first");
}

#[test]
fn slot_with_dropped_receiver_resolves() {
    let (tx, rx) = oneshot::channel::<String>();
    drop(rx);
    let mut slot = CorrelationSlot::new(tx);
    assert_eq!(slot.deliver("x".to_string()), Delivery::ReceiverGone);
    assert_eq!(slot.deliver("y".to_string()), Delivery::AlreadyResolved);
}

#[test]
fn new_request_ids_are_hyphenated_uuids() {
    let mut store = CorrelationStore::new();
    let (tx, _rx) = oneshot::channel::<String>();
    let id = store.open_request(tx).unwrap();
    assert_eq!(id.len(), 36);
    for (i, c) in id.chars().enumerate() {
        if i == 8 || i == 13 || i == 18 || i == 23 {
            assert_eq!(c, '-');
        } else {
            assert!(c.is_ascii_hexdigit() && !c.is_ascii_uppercase());
        }
    }
    assert_eq!(store.len(), 1);
    assert_eq!(store.request_state(&id), Some(true));
}

#[test]
fn concurrent_prompts_do_not_resolve_each_other() {
    let mut store = CorrelationStore::new();
    let (tx_a, mut rx_a) = oneshot::channel::<String>();
    let (tx_b, mut rx_b) = oneshot::channel::<String>();
    let a = store.open_request(tx_a).unwrap();
    let b = store.open_request(tx_b).unwrap();
    assert_ne!(a, b);
    let event_a = response_event_name(&a);
    assert_eq!(store.deliver(&event_a, "for-a".to_string()), Delivery::Delivered);
    assert_eq!(store.request_state(&a), Some(false));
    assert_eq!(store.request_state(&b), Some(true));
    assert_eq!(rx_a.try_recv().unwrap(), "for-a");
    assert!(rx_b.try_recv().is_err());
    let event_b = response_event_name(&b);
    assert_eq!(store.deliver(&event_b, "for-b".to_string()), Delivery::Delivered);
    assert_eq!(rx_b.try_recv().unwrap(), "for-b");
}

#[test]
fn second_response_is_a_silent_noop() {
    let mut store = CorrelationStore::new();
    let (tx, mut rx) = oneshot::channel::<String>();
    let id = store.open_request(tx).unwrap();
    let event = response_event_name(&id);
    assert_eq!(store.deliver(&event, "one".to_string()), Delivery::Delivered);
    assert_eq!(store.deliver(&event, "two".to_string()), Delivery::AlreadyResolved);
    assert_eq!(rx.try_recv().unwrap(), "one");
    assert_eq!(store.request_state(&id), Some(false));
}

#[test]
fn unknown_event_reaches_no_request() {
    let mut store = CorrelationStore::new();
    let (tx, mut rx) = oneshot::channel::<String>();
    let id = store.open_request(tx).unwrap();
    assert_eq!(store.deliver("sudo-password-response-other", "s".to_string()), Delivery::NoSuchRequest);
    assert_eq!(store.deliver(&id, "s".to_string()), Delivery::NoSuchRequest);
    assert_eq!(store.request_state(&id), Some(true));
    assert!(rx.try_recv().is_err());
}

#[test]
fn closed_request_ignores_late_response() {
    let mut store = CorrelationStore::new();
    let (tx, mut rx) = oneshot::channel::<String>();
    let id = store.open_request(tx).unwrap();
    assert!(store.close(&id));
    assert!(!store.close(&id));
    assert_eq!(store.len(), 0);
    assert_eq!(store.request_state(&id), None);
    let event = response_event_name(&id);
    assert_eq!(store.deliver(&event, "late".to_string()), Delivery::NoSuchRequest);
    assert!(rx.try_recv().is_err());
}

#[test]
fn timeout_fails_with_timeout() {
    assert_eq!(PROMPT_TIMEOUT_SECS, 120);
    let r = finish_wait(WaitOutcome::TimedOut);
    assert_eq!(r, Err(PromptError::Timeout));
    assert_eq!(PromptError::Timeout.message(), "deadline has elapsed");
}

#[test]
fn closed_channel_fails_as_cancelled() {
    assert_eq!(finish_wait(WaitOutcome::ChannelClosed), Err(PromptError::Cancelled));
    assert_eq!(PromptError::Cancelled.message(), "channel closed");
    assert_eq!(PromptError::Publish("bus down".to_string()).message(), "bus down");
}

#[test]
fn received_secret_is_returned() {
    assert_eq!(finish_wait(WaitOutcome::Received("pw".to_string())), Ok("pw".to_string()));
}

#[test]
fn request_payload_holds_id() {
    let req = SudoPasswordRequest::new("id-1".to_string());
    assert_eq!(req.request_id, "id-1");
}

#[test]
fn well_formed_payload_gives_secret() {
    assert_eq!(decode_secret_payload("\"hunter2\""), "hunter2");
    assert_eq!(decode_secret_payload("\"a\\\"b\""), "a\"b");
}

#[test]
fn malformed_payload_gives_empty_secret() {
    assert_eq!(decode_secret_payload("{not json"), "");
    assert_eq!(decode_secret_payload(""), "");
    assert_eq!(decode_secret_payload("42"), "");
    assert_eq!(secret_or_empty(None), "");
    assert_eq!(secret_or_empty(Some("k".to_string())), "k");
}

#[test]
fn exit_zero_succeeds_without_failure() {
    assert_eq!(classify_termination(Some(0)), Ok(()));
    assert!(matches!(relay_step(&ProcessEvent::Terminated(Some(0))), RelayAction::Continue));
}

#[test]
fn exit_seventeen_names_the_code() {
    let r = classify_termination(Some(17));
    assert_eq!(r, Err("Command failed with exit code 17: MySQL installation".to_string()));
    assert!(r.unwrap_err().contains("17"));
    assert_eq!(
        classify_termination(Some(-3)),
        Err("Command failed with exit code -3: MySQL installation".to_string())
    );
}

#[test]
fn signal_termination_is_distinct() {
    let r = classify_termination(None).unwrap_err();
    assert_eq!(r, "Command was terminated by a signal during MySQL installation");
    assert!(r.contains("terminated by a signal"));
    match relay_step(&ProcessEvent::Terminated(None)) {
        RelayAction::Fail(m) => assert_eq!(m, r),
        _ => panic!("a signal must fail the relay"),
    }
}

#[test]
fn stub_command_lines_are_relayed() {
    let events = vec![
        ProcessEvent::Stdout(b"a".to_vec()),
        ProcessEvent::Stderr(b"b".to_vec()),
        ProcessEvent::Terminated(Some(0)),
    ];
    let mut published = Vec::new();
    let mut failure = None;
    for e in &events {
        match relay_step(e) {
            RelayAction::Publish { event, payload } => published.push((event, payload)),
            RelayAction::Continue => {}
            RelayAction::Fail(m) => failure = Some(m),
        }
    }
    assert_eq!(
        published,
        vec![
            ("mysql-install-log".to_string(), "[MySQL Installation] a".to_string()),
            ("mysql-install-error".to_string(), "[MySQL Installation Error] b".to_string()),
        ]
    );
    assert_eq!(failure, None);
}

#[test]
fn invalid_utf8_is_replaced() {
    match relay_step(&ProcessEvent::Stdout(vec![0x66, 0xff])) {
        RelayAction::Publish { payload, .. } => assert_eq!(payload, "[MySQL Installation] f\u{FFFD}"),
        _ => panic!("an output line must be published"),
    }
    assert!(matches!(relay_step(&ProcessEvent::Other), RelayAction::Continue));
}

#[test]
fn probe_of_missing_binary_is_false() {
    assert!(!probe_reports_installed(None));
    assert!(!probe_reports_installed(Some(Some(1))));
    assert!(!probe_reports_installed(Some(None)));
    assert!(probe_reports_installed(Some(Some(0))));
}

#[test]
fn privileged_line_pipes_secret_to_sudo() {
    assert_eq!(
        privileged_command("s3cret"),
        "echo s3cret | sudo -S bash -c 'apt update && apt install -y mysql-server'"
    );
    assert_eq!(
        masked_command(),
        "echo ****** | sudo -S bash -c 'apt update && apt install -y mysql-server'"
    );
    assert!(!masked_command().contains("s3cret"));
    let args = privileged_args("pw");
    assert_eq!(args.len(), 2);
    assert_eq!(args[0], "-c");
    assert_eq!(args[1], privileged_command("pw"));
}
