//! Handler registry and method resolution: the fallback order of the four
//! handler shapes, the deferred exclusive path of the shared flavor, and
//! property access.

use busrpc::crossroads::{
    Crossroads, IfaceData, IfaceEntry, MethodInfo, MsgCtx, PathData, PropInfo,
};
use busrpc::err::ErrKind;
use busrpc::handlers::{
    CrAction, IfaceAction, Local, LocalMethod, LocalMethods, MakeHandler, Par, ParMethod,
    ParMethods, PathAction, PropGetAction, PropSetAction, UserMethod,
};
use busrpc::message::{BodyArg, Message, MessageType};

const WIDGET_TAG: u64 = 7;

fn call(interface: &str, member: &str) -> Message {
    let mut m = Message::method_call(
        "org.example.Server".to_string(),
        "/widget".to_string(),
        interface.to_string(),
        member.to_string(),
    );
    m.serial = 42;
    m
}

fn widget_iface_local() -> IfaceEntry<Local> {
    IfaceEntry {
        name: "com.example.Foo".to_string(),
        typeid: WIDGET_TAG,
        methods: vec![
            MethodInfo {
                name: "Echo".to_string(),
                handler: UserMethod::EchoArgs.make(),
            },
            MethodInfo {
                name: "Visit".to_string(),
                handler: PathAction::BumpLocal.make(),
            },
            MethodInfo {
                name: "Count".to_string(),
                handler: IfaceAction::Increment.make(),
            },
            MethodInfo {
                name: "Drop".to_string(),
                handler: LocalMethod(LocalMethods::MutCr(CrAction::RemoveAddressedObject)),
            },
        ],
        props: vec![PropInfo {
            name: "Value".to_string(),
            get: Some(PropGetAction::GetValue),
            set: Some(PropSetAction::SetValueNotify),
        }],
    }
}

fn widget_registry_local() -> Crossroads<Local> {
    let mut cr = Crossroads::new();
    cr.register(widget_iface_local());
    cr.insert_path(PathData {
        name: "/widget".to_string(),
        local: 0,
        ifaces: vec![(WIDGET_TAG, IfaceData::new())],
    });
    cr
}

#[test]
fn unknown_interface_yields_error_reply_and_loop_stays_healthy() {
    let mut cr = widget_registry_local();
    // A call to an interface nobody registered is answered, not dropped and
    // not a crash.
    let bad = {
        let mut m = call("com.example.Missing", "Bar");
        m.interface = Some("com.example.Missing".to_string());
        m
    };
    let reply = cr.handle_message(&bad).unwrap();
    assert_eq!(reply.msg_type, MessageType::Error);
    assert_eq!(reply.reply_serial, Some(42));
    assert_eq!(
        reply.error_name.as_deref(),
        Some("org.freedesktop.DBus.Error.UnknownInterface")
    );

    // The dispatcher still resolves the next, valid call.
    let good = call("com.example.Foo", "Echo");
    let reply = cr.handle_message(&good).unwrap();
    assert_eq!(reply.msg_type, MessageType::MethodReturn);
    assert_eq!(reply.reply_serial, Some(42));
}

#[test]
fn unknown_method_and_unknown_path_resolve_to_their_errors() {
    let mut cr = widget_registry_local();
    let reply = cr.handle_message(&call("com.example.Foo", "Nope")).unwrap();
    assert_eq!(
        reply.error_name.as_deref(),
        Some("org.freedesktop.DBus.Error.UnknownMethod")
    );

    let mut elsewhere = call("com.example.Foo", "Visit");
    elsewhere.path = Some("/nowhere".to_string());
    let reply = cr.handle_message(&elsewhere).unwrap();
    assert_eq!(
        reply.error_name.as_deref(),
        Some("org.freedesktop.DBus.Error.UnknownObject")
    );
}

#[test]
fn shared_handler_echoes_arguments() {
    let mut cr = widget_registry_local();
    let mut m = call("com.example.Foo", "Echo");
    m.body.push(BodyArg::U32(9));
    m.body.push(BodyArg::Str("hi".to_string()));
    let reply = cr.handle_message(&m).unwrap();
    assert_eq!(reply.msg_type, MessageType::MethodReturn);
    assert!(matches!(reply.body[0], BodyArg::U32(9)));
    assert!(matches!(&reply.body[1], BodyArg::Str(s) if s == "hi"));
}

#[test]
fn path_exclusive_handler_mutates_path_local_data_only() {
    let mut cr = widget_registry_local();
    let reply = cr.handle_message(&call("com.example.Foo", "Visit")).unwrap();
    assert!(matches!(reply.body[0], BodyArg::U32(1)));
    let reply = cr.handle_message(&call("com.example.Foo", "Visit")).unwrap();
    assert!(matches!(reply.body[0], BodyArg::U32(2)));
    assert_eq!(cr.paths[0].local, 2);
    assert_eq!(cr.paths[0].ifaces[0].1.counter, 0);
}

#[test]
fn interface_exclusive_handler_downcasts_by_type_tag() {
    let mut cr = widget_registry_local();
    let reply = cr.handle_message(&call("com.example.Foo", "Count")).unwrap();
    assert!(matches!(reply.body[0], BodyArg::U32(1)));
    assert_eq!(cr.paths[0].ifaces[0].1.counter, 1);

    // A mismatched type tag is a failed downcast: the interface resolution
    // error, not a crash.
    cr.paths[0].ifaces[0].0 = WIDGET_TAG + 1;
    let reply = cr.handle_message(&call("com.example.Foo", "Count")).unwrap();
    assert_eq!(
        reply.error_name.as_deref(),
        Some("org.freedesktop.DBus.Error.UnknownInterface")
    );
}

#[test]
fn registry_exclusive_handler_may_remove_objects() {
    let mut cr = widget_registry_local();
    let reply = cr.handle_message(&call("com.example.Foo", "Drop")).unwrap();
    assert_eq!(reply.msg_type, MessageType::MethodReturn);
    assert_eq!(cr.paths.len(), 0);
    // The object is gone: the same call now fails to resolve its path.
    let reply = cr.handle_message(&call("com.example.Foo", "Drop")).unwrap();
    assert_eq!(
        reply.error_name.as_deref(),
        Some("org.freedesktop.DBus.Error.UnknownObject")
    );
}

#[test]
fn shared_flavor_defers_registry_exclusive_exactly_once() {
    let mut cr: Crossroads<Par> = Crossroads::new();
    cr.register(IfaceEntry {
        name: "com.example.Foo".to_string(),
        typeid: WIDGET_TAG,
        methods: vec![
            MethodInfo {
                name: "Tick".to_string(),
                handler: ParMethod(ParMethods::MutCr(CrAction::BumpCounterAt {
                    typeid: WIDGET_TAG,
                })),
            },
            MethodInfo {
                name: "Hello".to_string(),
                handler: UserMethod::ReturnEmpty.make(),
            },
        ],
        props: Vec::new(),
    });
    cr.insert_path(PathData {
        name: "/widget".to_string(),
        local: 0,
        ifaces: vec![(WIDGET_TAG, IfaceData::new())],
    });

    // The registry-exclusive handler runs through the deferred path exactly
    // once: the invocation counter it keeps moves by one, never two.
    let reply = cr.handle_message(&call("com.example.Foo", "Tick")).unwrap();
    assert_eq!(reply.msg_type, MessageType::MethodReturn);
    assert!(matches!(reply.body[0], BodyArg::U32(1)));
    assert_eq!(cr.paths[0].ifaces[0].1.counter, 1);

    // The shared fast path still serves read-only handlers.
    let reply = cr.handle_message(&call("com.example.Foo", "Hello")).unwrap();
    assert_eq!(reply.msg_type, MessageType::MethodReturn);
    assert_eq!(cr.paths[0].ifaces[0].1.counter, 1);
}

#[test]
fn failing_user_handler_becomes_error_reply() {
    let mut cr: Crossroads<Local> = Crossroads::new();
    cr.register(IfaceEntry {
        name: "com.example.Foo".to_string(),
        typeid: WIDGET_TAG,
        methods: vec![MethodInfo {
            name: "Refuse".to_string(),
            handler: UserMethod::Fail(ErrKind::Failed).make(),
        }],
        props: Vec::new(),
    });
    cr.insert_path(PathData {
        name: "/widget".to_string(),
        local: 0,
        ifaces: vec![(WIDGET_TAG, IfaceData::new())],
    });
    let reply = cr.handle_message(&call("com.example.Foo", "Refuse")).unwrap();
    assert_eq!(reply.msg_type, MessageType::Error);
    assert_eq!(
        reply.error_name.as_deref(),
        Some("org.freedesktop.DBus.Error.Failed")
    );
}

#[test]
fn property_get_and_set_follow_the_same_resolution() {
    let mut cr = widget_registry_local();
    let mut set = call("com.example.Foo", "Value");
    set.body.push(BodyArg::U32(31));
    let ctx = MsgCtx::from_message(set).unwrap();
    // The write lands and asks for a change notification.
    assert!(matches!(cr.dispatch_set_prop(&ctx), Ok(true)));
    assert_eq!(cr.paths[0].ifaces[0].1.value, 31);

    let get = call("com.example.Foo", "Value");
    let ctx = MsgCtx::from_message(get).unwrap();
    match cr.dispatch_get_prop(&ctx) {
        Ok(BodyArg::U32(v)) => assert_eq!(v, 31),
        _ => panic!("expected the stored value"),
    }

    // An unknown property resolves to its own failure.
    let mut missing = call("com.example.Foo", "Colour");
    missing.body.push(BodyArg::U32(1));
    let ctx = MsgCtx::from_message(missing).unwrap();
    let e = cr.dispatch_set_prop(&ctx).unwrap_err();
    assert_eq!(
        e.error_name().as_str(),
        "org.freedesktop.DBus.Error.UnknownProperty"
    );
}

#[test]
fn non_call_messages_are_not_dispatched() {
    let mut cr = widget_registry_local();
    let sig = Message::signal(
        "/widget".to_string(),
        "com.example.Foo".to_string(),
        "Echo".to_string(),
    );
    assert!(cr.handle_message(&sig).is_none());
}
