//! Request/reply correlation: serials, cancellation, futures and wakes.

use busrpc::cells::{OnReply, ReplyCell};
use busrpc::channel::{BusType, Channel};
use busrpc::message::{BodyArg, Message, MessageType};
use busrpc::nonblock::{NonblockReply, Process, SyncConnection};
use busrpc::proxy::Proxy;
use busrpc::reply::{PollOutcome, ReadFn, ReplyValue, Transform};

fn fresh_conn() -> SyncConnection {
    SyncConnection::from(Channel::get_private(BusType::Session).unwrap())
}

fn reply_to(serial: u32) -> Message {
    let mut m = Message::method_call(
        "x".to_string(),
        "/".to_string(),
        "i".to_string(),
        "m".to_string(),
    );
    m.msg_type = MessageType::MethodReturn;
    m.reply_serial = Some(serial);
    m.path = None;
    m.interface = None;
    m.member = None;
    m.no_reply_expected = true;
    m
}

#[test]
fn test_conn_send_sync() {
    fn is_send<T: Send>(_: &T) {}
    fn is_sync<T: Sync>(_: &T) {}
    let c = SyncConnection::from(Channel::get_private(BusType::Session).unwrap());
    is_send(&c);
    is_sync(&c);
}

#[test]
fn ping_assigned_serial_five_resolves_once() {
    let mut conn = fresh_conn();
    // Four earlier sends move the serial counter so the call gets serial 5.
    for _ in 0..4 {
        let m = Message::signal("/".to_string(), "i".to_string(), "m".to_string());
        conn.send(m).unwrap();
    }
    let proxy = Proxy::new("org.example.Peer".to_string(), "/".to_string());
    let fut = proxy.method_call(
        &mut conn,
        "org.example.Peer".to_string(),
        "Ping".to_string(),
        Vec::new(),
        ReadFn::Unit,
    );
    // The call went out with serial 5 and is pending under it.
    assert_eq!(conn.state.channel.outbound.last().unwrap().serial, 5);
    assert!(conn.state.replies.contains(5));

    // A reply with reply-serial 5 and an empty success payload arrives.
    conn.process_one(reply_to(5));
    assert!(!conn.state.replies.contains(5));
    assert_eq!(conn.state.replies.len(), 0);

    // The future resolves to the unit result exactly once.
    match fut.poll(&mut conn.state.cells, 11) {
        PollOutcome::Ready(Ok(ReplyValue::Unit)) => (),
        _ => panic!("expected the unit completion"),
    }
    // The second poll is the documented fatal outcome, never a re-resolution.
    match fut.poll(&mut conn.state.cells, 12) {
        PollOutcome::PolledAfterReady => (),
        _ => panic!("expected the fatal after-consumed outcome"),
    }
}

#[test]
fn reply_invokes_only_its_own_serial() {
    let mut conn = fresh_conn();
    let proxy = Proxy::new("d".to_string(), "/".to_string());
    let fut1 = proxy.method_call(
        &mut conn,
        "i".to_string(),
        "A".to_string(),
        Vec::new(),
        ReadFn::Unit,
    );
    let fut2 = proxy.method_call(
        &mut conn,
        "i".to_string(),
        "B".to_string(),
        Vec::new(),
        ReadFn::Unit,
    );
    assert!(conn.state.replies.contains(1));
    assert!(conn.state.replies.contains(2));

    conn.process_one(reply_to(1));
    assert!(!conn.state.replies.contains(1));
    assert!(conn.state.replies.contains(2));

    match fut1.poll(&mut conn.state.cells, 1) {
        PollOutcome::Ready(Ok(ReplyValue::Unit)) => (),
        _ => panic!("the first call's future must be resolved"),
    }
    match fut2.poll(&mut conn.state.cells, 2) {
        PollOutcome::Pending => (),
        _ => panic!("the second call's future must still be pending"),
    }
}

#[test]
fn cancel_then_late_reply_is_dropped() {
    let mut conn = fresh_conn();
    let msg = Message::method_call(
        "d".to_string(),
        "/".to_string(),
        "i".to_string(),
        "m".to_string(),
    );
    let cell = conn.new_reply_cell();
    let serial = conn
        .send_with_reply(msg, OnReply::Resolve { cell })
        .unwrap();
    assert_eq!(serial, 1);

    // Cancel returns the callback without invoking it; a second cancel finds
    // nothing.
    assert!(conn.cancel_reply(serial).is_some());
    assert!(conn.cancel_reply(serial).is_none());
    assert_eq!(conn.state.replies.len(), 0);

    // The late reply falls into the unmatched count and is dropped.
    conn.process_one(reply_to(serial));
    assert_eq!(conn.state.replies.len(), 0);
    assert_eq!(conn.state.unmatched, 1);
    // No callback ran: the cell never resolved.
    assert!(matches!(conn.state.cells.cells[cell], ReplyCell::Empty));
}

#[test]
fn resolution_wakes_the_parked_poller_once() {
    let mut conn = fresh_conn();
    let proxy = Proxy::new("d".to_string(), "/".to_string());
    let fut = proxy.method_call(
        &mut conn,
        "i".to_string(),
        "m".to_string(),
        Vec::new(),
        ReadFn::Unit,
    );
    conn.take_woken();
    match fut.poll(&mut conn.state.cells, 77) {
        PollOutcome::Pending => (),
        _ => panic!("nothing has arrived yet"),
    }
    conn.process_one(reply_to(1));
    assert_eq!(conn.take_woken(), vec![77]);
    assert_eq!(conn.take_woken(), Vec::<u64>::new());
}

#[test]
fn send_failure_resolves_future_immediately() {
    let mut conn = fresh_conn();
    conn.state.channel.set_connected(false);
    let proxy = Proxy::new("d".to_string(), "/".to_string());
    let fut = proxy.method_call(
        &mut conn,
        "i".to_string(),
        "m".to_string(),
        Vec::new(),
        ReadFn::Unit,
    );
    assert_eq!(conn.state.replies.len(), 0);
    match fut.poll(&mut conn.state.cells, 1) {
        PollOutcome::Ready(Err(e)) => {
            assert_eq!(e.message().as_str(), "Failed to send message");
        },
        _ => panic!("the future must resolve to the send failure at once"),
    }
}

#[test]
fn and_then_transforms_the_single_result() {
    let mut conn = fresh_conn();
    let proxy = Proxy::new("d".to_string(), "/".to_string());
    let fut = proxy
        .method_call(
            &mut conn,
            "i".to_string(),
            "m".to_string(),
            Vec::new(),
            ReadFn::Bool,
        )
        .and_then(Transform::NegateBool);
    let mut rep = reply_to(1);
    rep.body.push(BodyArg::Bool(true));
    conn.process_one(rep);
    match fut.poll(&mut conn.state.cells, 1) {
        PollOutcome::Ready(Ok(ReplyValue::Bool(false))) => (),
        _ => panic!("the chained transform must flip the boolean"),
    }
}

#[test]
fn error_reply_surfaces_typed_error() {
    let mut conn = fresh_conn();
    let proxy = Proxy::new("d".to_string(), "/".to_string());
    let fut = proxy.method_call(
        &mut conn,
        "i".to_string(),
        "m".to_string(),
        Vec::new(),
        ReadFn::Unit,
    );
    let mut rep = reply_to(1);
    rep.msg_type = MessageType::Error;
    rep.error_name = Some("org.example.Error.Denied".to_string());
    rep.body.push(BodyArg::Str("no".to_string()));
    conn.process_one(rep);
    match fut.poll(&mut conn.state.cells, 1) {
        PollOutcome::Ready(Err(e)) => {
            assert_eq!(e.name().as_str(), "org.example.Error.Denied");
            assert_eq!(e.message().as_str(), "no");
        },
        _ => panic!("the protocol error must surface as the typed result"),
    }
}

#[test]
fn name_has_owner_round_trip() {
    let mut conn = fresh_conn();
    let proxy = Proxy::new("org.freedesktop.DBus".to_string(), "/".to_string());
    let fut = proxy.method_call(
        &mut conn,
        "org.freedesktop.DBus".to_string(),
        "NameHasOwner".to_string(),
        vec![BodyArg::Str("dummy.name.without.owner".to_string())],
        ReadFn::Bool,
    );
    let sent = conn.state.channel.take_outbound();
    assert_eq!(sent.len(), 1);
    assert_eq!(sent[0].member.as_deref(), Some("NameHasOwner"));
    assert!(matches!(&sent[0].body[0], BodyArg::Str(s) if s == "dummy.name.without.owner"));

    let mut rep = reply_to(sent[0].serial);
    rep.body.push(BodyArg::Bool(false));
    conn.process_one(rep);
    match fut.poll(&mut conn.state.cells, 1) {
        PollOutcome::Ready(Ok(ReplyValue::Bool(has_owner))) => {
            assert_eq!(has_owner, false);
        },
        _ => panic!("expected the boolean completion"),
    }
}

#[test]
fn process_all_drains_inbound_in_order() {
    let mut conn = fresh_conn();
    let proxy = Proxy::new("d".to_string(), "/".to_string());
    let fut1 = proxy.method_call(
        &mut conn,
        "i".to_string(),
        "A".to_string(),
        Vec::new(),
        ReadFn::Unit,
    );
    let fut2 = proxy.method_call(
        &mut conn,
        "i".to_string(),
        "B".to_string(),
        Vec::new(),
        ReadFn::Unit,
    );
    conn.state.channel.push_message(reply_to(1));
    conn.state.channel.push_message(reply_to(2));
    conn.process_all();
    assert_eq!(conn.state.channel.inbound.len(), 0);
    assert!(matches!(
        fut1.poll(&mut conn.state.cells, 1),
        PollOutcome::Ready(Ok(ReplyValue::Unit))
    ));
    assert!(matches!(
        fut2.poll(&mut conn.state.cells, 2),
        PollOutcome::Ready(Ok(ReplyValue::Unit))
    ));
}

#[test]
fn unmatched_call_gets_default_error_reply() {
    let mut conn = fresh_conn();
    let mut call = Message::method_call(
        "d".to_string(),
        "/".to_string(),
        "i".to_string(),
        "m".to_string(),
    );
    call.serial = 9;
    conn.process_one(call);
    let out = conn.state.channel.take_outbound();
    assert_eq!(out.len(), 1);
    assert_eq!(out[0].msg_type, MessageType::Error);
    assert_eq!(out[0].reply_serial, Some(9));
    assert_eq!(
        out[0].error_name.as_deref(),
        Some("org.freedesktop.DBus.Error.UnknownMethod")
    );

    // A signal that matches nothing is owed nothing.
    let sig = Message::signal("/".to_string(), "i".to_string(), "m".to_string());
    conn.process_one(sig);
    assert_eq!(conn.state.channel.take_outbound().len(), 0);
}
