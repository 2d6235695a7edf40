//! Signal subscriptions: id allocation, registration-order precedence,
//! continuation flags and best-effort remote cleanup.

use busrpc::channel::{BusType, Channel};
use busrpc::filters::{HandlerMode, SignalHandler};
use busrpc::message::{BodyArg, Message, MessageType};
use busrpc::nonblock::{LocalConnection, Process, SyncConnection};
use busrpc::rule::MatchRule;

fn foo_rule() -> MatchRule {
    let mut r = MatchRule::new();
    r.msg_type = Some(MessageType::Signal);
    r.interface = Some("com.example.Foo".to_string());
    r
}

fn foo_signal() -> Message {
    Message::signal(
        "/".to_string(),
        "com.example.Foo".to_string(),
        "Changed".to_string(),
    )
}

#[test]
fn subscription_ids_run_from_one_in_order() {
    let mut conn = LocalConnection::from(Channel::get_private(BusType::Session).unwrap());
    let id1 = conn.start_receive(foo_rule(), SignalHandler::keep());
    let id2 = conn.start_receive(foo_rule(), SignalHandler::keep());
    let id3 = conn.start_receive(foo_rule(), SignalHandler::keep());
    assert_eq!((id1, id2, id3), (1, 2, 3));

    // Stopping returns exactly what was registered; a second stop finds
    // nothing, and the freed id is never reused.
    let (rule, handler) = conn.stop_receive(id2).unwrap();
    assert_eq!(rule.interface.as_deref(), Some("com.example.Foo"));
    assert_eq!(handler.mode, HandlerMode::Keep);
    assert_eq!(handler.received, 0);
    assert!(conn.stop_receive(id2).is_none());
    let id4 = conn.start_receive(foo_rule(), SignalHandler::keep());
    assert_eq!(id4, 4);
}

#[test]
fn first_matching_filter_wins_and_continuation_is_honored() {
    let mut conn = LocalConnection::from(Channel::get_private(BusType::Session).unwrap());
    let id1 = conn.start_receive(foo_rule(), SignalHandler::once());
    let id2 = conn.start_receive(foo_rule(), SignalHandler::keep());
    assert_eq!((id1, id2), (1, 2));

    // Both filters match, but only the earlier registration is delivered to;
    // its handler declines continuation, so it leaves the table.
    conn.process_one(foo_signal());
    assert!(conn.stop_receive(id1).is_none());

    // The next identical signal goes to the surviving filter.
    conn.process_one(foo_signal());
    let (_, handler) = conn.stop_receive(id2).unwrap();
    assert_eq!(handler.received, 1);
}

#[test]
fn kept_filter_sees_every_delivery() {
    let mut conn = LocalConnection::from(Channel::get_private(BusType::Session).unwrap());
    let id = conn.start_receive(foo_rule(), SignalHandler::keep());
    conn.process_one(foo_signal());
    conn.process_one(foo_signal());
    conn.process_one(foo_signal());
    let (_, handler) = conn.stop_receive(id).unwrap();
    assert_eq!(handler.received, 3);
}

#[test]
fn non_matching_signal_is_not_delivered() {
    let mut conn = LocalConnection::from(Channel::get_private(BusType::Session).unwrap());
    let id = conn.start_receive(foo_rule(), SignalHandler::keep());
    let other = Message::signal(
        "/".to_string(),
        "com.example.Bar".to_string(),
        "Changed".to_string(),
    );
    conn.process_one(other);
    let (_, handler) = conn.stop_receive(id).unwrap();
    assert_eq!(handler.received, 0);
}

#[test]
fn stop_receive_queues_best_effort_remote_unregister() {
    let mut conn = SyncConnection::from(Channel::get_private(BusType::Session).unwrap());
    let id = conn.start_receive(foo_rule(), SignalHandler::keep());
    assert!(conn.stop_receive(id).is_some());

    // One fire-and-forget unregister call went out, carrying the serialized
    // rule, and its in-flight reply sits in the cleanup queue.
    assert_eq!(conn.state.cleanup.len(), 1);
    let out = conn.state.channel.take_outbound();
    assert_eq!(out.len(), 1);
    assert_eq!(out[0].member.as_deref(), Some("RemoveMatch"));
    assert!(
        matches!(&out[0].body[0], BodyArg::Str(s) if s == "type='signal',interface='com.example.Foo'")
    );

    // Unfinished cleanups are re-queued; a finished one leaves the queue.
    conn.drops(5);
    assert_eq!(conn.state.cleanup.len(), 1);
    let mut rep = Message::signal("/".to_string(), "i".to_string(), "m".to_string());
    rep.msg_type = MessageType::MethodReturn;
    rep.reply_serial = Some(out[0].serial);
    conn.process_one(rep);
    conn.drops(5);
    assert_eq!(conn.state.cleanup.len(), 0);
}

#[test]
fn match_str_serializes_constrained_fields_in_order() {
    let mut r = MatchRule::new();
    assert_eq!(r.match_str(), "");
    r.msg_type = Some(MessageType::Signal);
    assert_eq!(r.match_str(), "type='signal'");
    r.interface = Some("com.example.Foo".to_string());
    r.member = Some("Changed".to_string());
    assert_eq!(
        r.match_str(),
        "type='signal',interface='com.example.Foo',member='Changed'"
    );
    r.sender = Some("org.bus".to_string());
    r.path = Some("/obj".to_string());
    assert_eq!(
        r.match_str(),
        "type='signal',sender='org.bus',path='/obj',interface='com.example.Foo',member='Changed'"
    );
}

#[test]
fn rule_matching_checks_every_constrained_field() {
    let r = foo_rule();
    assert!(r.matches(&foo_signal()));
    let mut call = Message::method_call(
        "d".to_string(),
        "/".to_string(),
        "com.example.Foo".to_string(),
        "Changed".to_string(),
    );
    assert!(!r.matches(&call));
    call.msg_type = MessageType::Signal;
    assert!(r.matches(&call));
    let other = Message::signal(
        "/".to_string(),
        "com.example.Bar".to_string(),
        "Changed".to_string(),
    );
    assert!(!r.matches(&other));
    let unconstrained = MatchRule::new();
    assert!(unconstrained.matches(&other));
}
