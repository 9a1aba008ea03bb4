use mqtt_sql_forwarder::config::MqttClientConfig;
use mqtt_sql_forwarder::session::{InboundMessage, SessionEvent, SessionManager, SessionState};

fn fresh_manager() -> SessionManager {
    SessionManager::new(MqttClientConfig::default())
}

fn drive_to_ready(mgr: &mut SessionManager) {
    let d = mgr.handle(SessionEvent::PollRequested);
    assert!(d.attempt_connect);
    let d = mgr.handle(SessionEvent::ConnectSucceeded);
    assert!(d.issue_subscribe);
    let d = mgr.handle(SessionEvent::SubscribeAcked);
    assert!(!d.attempt_connect && !d.issue_subscribe && !d.emit_notice);
    assert_eq!(mgr.state(), SessionState::Ready);
}

#[test]
fn retries_then_single_subscribe_and_ready() {
    let mut mgr = fresh_manager();
    let mut subscribes = 0;
    let mut ready_entries = 0;

    let d = mgr.handle(SessionEvent::PollRequested);
    assert!(d.attempt_connect);
    if d.issue_subscribe {
        subscribes += 1;
    }
    for _ in 0..4 {
        let d = mgr.handle(SessionEvent::ConnectFailed);
        assert!(d.attempt_connect);
        assert!(!d.emit_notice);
        if d.issue_subscribe {
            subscribes += 1;
        }
        assert_eq!(mgr.state(), SessionState::Connecting);
    }
    let d = mgr.handle(SessionEvent::ConnectSucceeded);
    if d.issue_subscribe {
        subscribes += 1;
    }
    assert_eq!(mgr.state(), SessionState::Subscribing);
    let was_ready = mgr.state() == SessionState::Ready;
    let d = mgr.handle(SessionEvent::SubscribeAcked);
    if d.issue_subscribe {
        subscribes += 1;
    }
    if !was_ready && mgr.state() == SessionState::Ready {
        ready_entries += 1;
    }

    assert_eq!(subscribes, 1);
    assert_eq!(ready_entries, 1);
    assert_eq!(mgr.state(), SessionState::Ready);
}

#[test]
fn one_notice_per_disconnection_episode() {
    let mut mgr = fresh_manager();
    drive_to_ready(&mut mgr);

    // First episode: the drop emits the one notice; retries emit none.
    let mut notices = 0;
    let d = mgr.handle(SessionEvent::StreamInterrupted);
    if d.emit_notice {
        notices += 1;
    }
    assert_eq!(mgr.state(), SessionState::Reconnecting);
    for _ in 0..5 {
        let d = mgr.handle(SessionEvent::ConnectFailed);
        if d.emit_notice {
            notices += 1;
        }
    }
    // A reconnect that subscribes but fails stays inside the same episode.
    let d = mgr.handle(SessionEvent::ConnectSucceeded);
    if d.emit_notice {
        notices += 1;
    }
    assert!(d.issue_subscribe);
    let d = mgr.handle(SessionEvent::SubscribeFailed);
    if d.emit_notice {
        notices += 1;
    }
    assert_eq!(mgr.state(), SessionState::Connecting);
    let d = mgr.handle(SessionEvent::ConnectSucceeded);
    if d.emit_notice {
        notices += 1;
    }
    let d = mgr.handle(SessionEvent::SubscribeAcked);
    if d.emit_notice {
        notices += 1;
    }
    assert_eq!(mgr.state(), SessionState::Ready);
    assert_eq!(notices, 1);

    // A new episode emits its own single notice.
    let d = mgr.handle(SessionEvent::StreamInterrupted);
    assert!(d.emit_notice);
}

#[test]
fn ready_delivers_messages() {
    let mut mgr = fresh_manager();
    drive_to_ready(&mut mgr);
    let msg = InboundMessage {
        topic: "sensors/temp".to_string(),
        payload: br#"{"v":10}"#.to_vec(),
        retained: false,
        qos: 1,
    };
    let d = mgr.handle(SessionEvent::MessageArrived(msg.clone()));
    assert_eq!(d.deliver, Some(msg));
    assert_eq!(mgr.state(), SessionState::Ready);
}

#[test]
fn unexpected_events_change_nothing() {
    let mut mgr = fresh_manager();
    let d = mgr.handle(SessionEvent::ConnectFailed);
    assert!(!d.attempt_connect && !d.issue_subscribe && !d.emit_notice && d.deliver.is_none());
    assert_eq!(mgr.state(), SessionState::Disconnected);

    drive_to_ready(&mut mgr);
    let d = mgr.handle(SessionEvent::PollRequested);
    assert!(!d.attempt_connect && !d.issue_subscribe && !d.emit_notice && d.deliver.is_none());
    assert_eq!(mgr.state(), SessionState::Ready);
}

#[test]
fn handle_keeps_configuration() {
    let mut mgr = fresh_manager();
    assert_eq!(mgr.config().msg_buffer_limit, 1);
    drive_to_ready(&mut mgr);
    mgr.handle(SessionEvent::StreamInterrupted);
    assert_eq!(mgr.config().msg_buffer_limit, 1);
    assert_eq!(mgr.config().subscriptions.topics.len(), 0);
}
