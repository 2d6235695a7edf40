//! The transport model and the typed reading of replies.

use busrpc::channel::{BusType, Channel};
use busrpc::crossroads::MsgCtx;
use busrpc::handlers::{
    IfaceAction, Local, LocalMethod, LocalMethods, MakeHandler, PropSetAction, UserMethod,
};
use busrpc::crossroads::{Crossroads, IfaceData, IfaceEntry, MethodInfo, PropInfo};
use busrpc::message::{default_reply, BodyArg, Message, MessageType};
use busrpc::nonblock::{LocalConnection, Process};
use busrpc::proxy::Proxy;
use busrpc::reply::{PollOutcome, ReadFn, ReplyValue, Transform};

#[test]
fn channel_stamps_strictly_increasing_serials() {
    let mut ch = Channel::get_private(BusType::Session).unwrap();
    let m = || Message::signal("/".to_string(), "i".to_string(), "m".to_string());
    assert_eq!(ch.send(m()).unwrap(), 1);
    assert_eq!(ch.send(m()).unwrap(), 2);
    assert_eq!(ch.send(m()).unwrap(), 3);
    assert_eq!(ch.outbound.len(), 3);
    assert_eq!(ch.outbound[2].serial, 3);
}

#[test]
fn disconnected_channel_refuses_to_send() {
    let mut ch = Channel::get_private(BusType::System).unwrap();
    ch.set_connected(false);
    let m = Message::signal("/".to_string(), "i".to_string(), "m".to_string());
    assert!(ch.send(m).is_err());
    assert_eq!(ch.outbound.len(), 0);
    assert_eq!(ch.next_serial, 1);
}

#[test]
fn exhausted_serial_counter_refuses_to_send() {
    let mut ch = Channel::get_private(BusType::Session).unwrap();
    ch.next_serial = u32::MAX;
    let m = Message::signal("/".to_string(), "i".to_string(), "m".to_string());
    assert!(ch.send(m).is_err());
    assert_eq!(ch.outbound.len(), 0);
}

#[test]
fn default_reply_is_owed_only_to_expectant_calls() {
    let mut call = Message::method_call(
        "d".to_string(),
        "/".to_string(),
        "i".to_string(),
        "m".to_string(),
    );
    call.serial = 3;
    let rep = default_reply(&call).unwrap();
    assert_eq!(rep.msg_type, MessageType::Error);
    assert_eq!(rep.reply_serial, Some(3));

    call.no_reply_expected = true;
    assert!(default_reply(&call).is_none());
    let sig = Message::signal("/".to_string(), "i".to_string(), "m".to_string());
    assert!(default_reply(&sig).is_none());
}

#[test]
fn mistyped_reply_payload_reads_as_invalid_args() {
    let mut conn = LocalConnection::from(Channel::get_private(BusType::Session).unwrap());
    let proxy = Proxy::new("d".to_string(), "/".to_string());
    let fut = proxy.method_call(
        &mut conn,
        "i".to_string(),
        "m".to_string(),
        Vec::new(),
        ReadFn::Bool,
    );
    let mut rep = Message::signal("/".to_string(), "i".to_string(), "m".to_string());
    rep.msg_type = MessageType::MethodReturn;
    rep.reply_serial = Some(1);
    rep.body.push(BodyArg::Str("not a boolean".to_string()));
    conn.process_one(rep);
    match fut.poll(&mut conn.state.cells, 1) {
        PollOutcome::Ready(Err(e)) => {
            assert_eq!(e.name().as_str(), "org.freedesktop.DBus.Error.InvalidArgs");
        },
        _ => panic!("a mistyped payload must read as the argument error"),
    }
}

#[test]
fn require_true_accepts_only_a_true_boolean() {
    let mut conn = LocalConnection::from(Channel::get_private(BusType::Session).unwrap());
    let proxy = Proxy::new("d".to_string(), "/".to_string());
    for (answer, ok) in [(true, true), (false, false)] {
        let fut = proxy
            .method_call(
                &mut conn,
                "i".to_string(),
                "m".to_string(),
                Vec::new(),
                ReadFn::Bool,
            )
            .and_then(Transform::RequireTrue);
        let mut rep = Message::signal("/".to_string(), "i".to_string(), "m".to_string());
        rep.msg_type = MessageType::MethodReturn;
        rep.reply_serial = conn.state.channel.outbound.last().map(|m| m.serial);
        rep.body.push(BodyArg::Bool(answer));
        conn.process_one(rep);
        match fut.poll(&mut conn.state.cells, 1) {
            PollOutcome::Ready(Ok(ReplyValue::Unit)) => assert!(ok),
            PollOutcome::Ready(Err(_)) => assert!(!ok),
            _ => panic!("the future must be resolved either way"),
        }
    }
}

#[test]
fn set_value_without_argument_is_invalid_args() {
    let mut cr: Crossroads<Local> = Crossroads::new();
    cr.register(IfaceEntry {
        name: "com.example.Foo".to_string(),
        typeid: 1,
        methods: vec![MethodInfo {
            name: "SetValue".to_string(),
            handler: IfaceAction::SetValue.make(),
        }],
        props: vec![PropInfo {
            name: "Value".to_string(),
            get: None,
            set: Some(PropSetAction::SetValueQuiet),
        }],
    });
    cr.insert_path(busrpc::crossroads::PathData {
        name: "/o".to_string(),
        local: 0,
        ifaces: vec![(1, IfaceData::new())],
    });
    let call = Message::method_call(
        "d".to_string(),
        "/o".to_string(),
        "com.example.Foo".to_string(),
        "SetValue".to_string(),
    );
    let reply = cr.handle_message(&call).unwrap();
    assert_eq!(
        reply.error_name.as_deref(),
        Some("org.freedesktop.DBus.Error.InvalidArgs")
    );

    // A property write without the typed argument fails the same way.
    let mut set = call.clone();
    set.member = Some("Value".to_string());
    set.body.push(BodyArg::Str("wrong".to_string()));
    let ctx = MsgCtx::from_message(set).unwrap();
    let e = cr.dispatch_set_prop(&ctx).unwrap_err();
    assert_eq!(
        e.error_name().as_str(),
        "org.freedesktop.DBus.Error.InvalidArgs"
    );
}

#[test]
fn user_handler_wrapped_by_make_method_responds_through_posthandler() {
    let handler: LocalMethod = UserMethod::ReturnEmpty.make();
    assert!(matches!(
        handler,
        LocalMethod(LocalMethods::AllRef(_))
    ));
    let mut call = Message::method_call(
        "d".to_string(),
        "/".to_string(),
        "i".to_string(),
        "m".to_string(),
    );
    call.serial = 5;
    let out = busrpc::handlers::posthandler(&call, Ok(vec![BodyArg::U32(4)]));
    assert_eq!(out.msg_type, MessageType::MethodReturn);
    assert_eq!(out.reply_serial, Some(5));
    assert!(matches!(out.body[0], BodyArg::U32(4)));
}
