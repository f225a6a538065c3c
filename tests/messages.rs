use serde_json::Value;
use wamp_core::{
    Call, Error, Event, Field, Goodbye, Hello, Invocation, Json, Malformation, MessageKind,
    Messages, Published, Registered, Shape, Subscribe, Unregister, Unregistered, Unsubscribe,
    WampError, WampErrorEvent, WampMessage, WampResult, Welcome, Yield,
};

fn to_value(j: Json) -> Value {
    match j {
        Json::Null => Value::Null,
        Json::Bool(b) => Value::Bool(b),
        Json::UInt(n) => Value::from(n),
        Json::Int(n) => Value::from(n),
        Json::Float(bits) => Value::from(f64::from_bits(bits)),
        Json::Str(s) => Value::String(s),
        Json::Array(items) => Value::Array(items.into_iter().map(to_value).collect()),
        Json::Object(members) => {
            Value::Object(members.into_iter().map(|(k, v)| (k, to_value(v))).collect())
        }
    }
}

fn from_value(v: Value) -> Json {
    match v {
        Value::Null => Json::Null,
        Value::Bool(b) => Json::Bool(b),
        Value::Number(n) => match (n.as_u64(), n.as_i64(), n.as_f64()) {
            (Some(u), _, _) => Json::UInt(u),
            (None, Some(i), _) => Json::Int(i),
            (None, None, Some(f)) => Json::Float(f.to_bits()),
            _ => panic!("unrepresentable number"),
        },
        Value::String(s) => Json::Str(s),
        Value::Array(items) => Json::Array(items.into_iter().map(from_value).collect()),
        Value::Object(members) => {
            Json::Object(members.into_iter().map(|(k, v)| (k, from_value(v))).collect())
        }
    }
}

/// A JSON value written as text, read the way a peer would read it.
fn json(text: &str) -> Json {
    from_value(serde_json::from_str(text).unwrap())
}

fn members(text: &str) -> Vec<(String, Json)> {
    match json(text) {
        Json::Object(m) => m,
        other => panic!("not an object: {:?}", other),
    }
}

fn items(text: &str) -> Vec<Json> {
    match json(text) {
        Json::Array(v) => v,
        other => panic!("not an array: {:?}", other),
    }
}

fn to_text(frame: Vec<Json>) -> String {
    serde_json::to_string(&to_value(Json::Array(frame))).unwrap()
}

fn event_test_value() -> Event {
    Event {
        subscription: 5512315355,
        publication: 4429313566,
        details: members("{}"),
        args: None,
        kwargs: Some(members(r#"{"color":"orange","sizes":[23,42,7]}"#)),
    }
}

#[test]
fn event_test() {
    let d = r#"[36,5512315355,4429313566,{},[],{"color":"orange","sizes":[23,42,7]}]"#;
    let mut ed = event_test_value();
    let ed2: Event = Event::decode(items(d)).unwrap();
    let d2 = to_text(event_test_value().encode());
    assert_ne!(ed, ed2);
    ed.args = Some(items("[]"));
    assert_eq!(ed, ed2);
    assert_eq!(d, d2);
}

#[test]
fn goodbye_test() {
    let d1 = r#"[6,{"message":"The host is shutting down now."},"wamp.close.system_shutdown"]"#;
    let g1 = || Goodbye {
        details: members(r#"{"message":"The host is shutting down now."}"#),
        reason: "wamp.close.system_shutdown".to_string(),
    };
    let d2 = to_text(g1().encode());
    let g2: Goodbye = Goodbye::decode(items(d1)).unwrap();
    assert_eq!(d1, d2);
    assert_eq!(g1(), g2);
}

#[test]
fn invocation_test() {
    let d = r#"[68,6131533,9823529,{},["johnny"],{"firstname":"John","surname":"Doe"}]"#;
    let mut ed = Invocation {
        request_id: 6131533,
        registration: 9823529,
        details: members("{}"),
        args: None,
        kwargs: Some(members(r#"{"firstname":"John","surname":"Doe"}"#)),
    };
    let ed2: Invocation = Invocation::decode(items(d)).unwrap();
    assert_ne!(ed, ed2);
    ed.args = Some(items(r#"["johnny"]"#));
    assert_eq!(ed, ed2);
    let d2 = to_text(ed.encode());
    assert_eq!(d, d2);
}

#[test]
fn published_test() {
    let d1 = r#"[17,239714735,4429313566]"#;
    let m1 = || Published { request_id: 239714735, publication: 4429313566 };
    assert_eq!(d1, to_text(m1().encode()));
    assert_eq!(Published::decode(items(d1)).unwrap(), m1());
}

#[test]
fn registered_test() {
    let d1 = r#"[65,25349185,2103333224]"#;
    let m1 = || Registered { request_id: 25349185, registration: 2103333224 };
    assert_eq!(d1, to_text(m1().encode()));
    assert_eq!(Registered::decode(items(d1)).unwrap(), m1());
}

#[test]
fn result_test() {
    let d1 = r#"[50,7814135,{},[],{"karma":10,"userid":123}]"#;
    let mut w1 = WampResult {
        request_id: 7814135,
        details: members("{}"),
        args: None,
        kwargs: Some(members(r#"{"userid":123,"karma":10}"#)),
    };
    assert_ne!(WampResult::decode(items(d1)).unwrap(), w1);
    w1.args = Some(items("[]"));
    assert_eq!(WampResult::decode(items(d1)).unwrap(), w1);
    assert_eq!(to_text(w1.encode()), d1);
}

#[test]
fn subscribe_test() {
    let d1 = r#"[32,713845233,{},"com.myapp.mytopic1"]"#;
    let r1 = || Subscribe {
        request_id: 713845233,
        options: members("{}"),
        topic: "com.myapp.mytopic1".to_string(),
    };
    assert_eq!(d1, to_text(r1().encode()));
    assert_eq!(r1(), Subscribe::decode(items(d1)).unwrap())
}

#[test]
fn unregister_test() {
    let d1 = r#"[66,788923562,2103333224]"#;
    let m1 = || Unregister { request_id: 788923562, registration: 2103333224 };
    assert_eq!(d1, to_text(m1().encode()));
    assert_eq!(Unregister::decode(items(d1)).unwrap(), m1());
}

#[test]
fn unregistered_test() {
    let d1 = r#"[67,788923562]"#;
    let m1 = || Unregistered { request_id: 788923562 };
    assert_eq!(d1, to_text(m1().encode()));
    assert_eq!(Unregistered::decode(items(d1)).unwrap(), m1());
}

#[test]
fn unsubscribe_test() {
    let d1 = r#"[34,85346237,5512315355]"#;
    let m1 = || Unsubscribe { request_id: 85346237, subscription: 5512315355 };
    assert_eq!(d1, to_text(m1().encode()));
    assert_eq!(Unsubscribe::decode(items(d1)).unwrap(), m1());
}

#[test]
fn welcome_test() {
    let d1 = r#"[2,9129137332,{"roles":{"broker":{}}}]"#;
    let w1 = || Welcome { session: 9129137332, details: members(r#"{"roles": {"broker": {}}}"#) };
    assert_eq!(w1(), Welcome::decode(items(d1)).unwrap());
    assert_eq!(d1, to_text(w1().encode()));
}

fn call_example() -> Call {
    Call {
        request_id: 7814135,
        options: members("{}"),
        procedure: "com.myapp.user.new".to_string(),
        args: Some(items(r#"["johnny"]"#)),
        kwargs: Some(members(r#"{"firstname":"John","surname":"Doe"}"#)),
    }
}

#[test]
fn call_encodes_args_and_kwargs() {
    let expected =
        r#"[48,7814135,{},"com.myapp.user.new",["johnny"],{"firstname":"John","surname":"Doe"}]"#;
    assert_eq!(to_text(call_example().encode()), expected);
    assert_eq!(Call::decode(items(expected)).unwrap(), call_example());
}

#[test]
fn result_without_args_encodes_empty_args() {
    let w = WampResult {
        request_id: 7814135,
        details: members("{}"),
        args: None,
        kwargs: Some(members(r#"{"userid":123,"karma":10}"#)),
    };
    assert_eq!(to_text(w.encode()), r#"[50,7814135,{},[],{"karma":10,"userid":123}]"#);
}

#[test]
fn published_has_no_trailing_fields() {
    let frame = Published { request_id: 17, publication: 2 }.encode();
    assert_eq!(frame, vec![Json::UInt(17), Json::UInt(17), Json::UInt(2)]);
    assert_eq!(to_text(frame), "[17,17,2]");
}

#[test]
fn args_without_kwargs_encodes_args_only() {
    let y =
        Yield { request_id: 5, options: members("{}"), args: Some(items("[1,2]")), kwargs: None };
    assert_eq!(to_text(y.encode()), "[70,5,{},[1,2]]");
    let y = Yield { request_id: 5, options: members("{}"), args: None, kwargs: None };
    assert_eq!(to_text(y.encode()), "[70,5,{}]");
}

#[test]
fn hello_decodes() {
    let hello = Hello::decode(items(r#"[1,"realm",{}]"#)).unwrap();
    assert_eq!(hello.realm, "realm");
    assert_eq!(hello.details, members("{}"));
    let any = Messages::decode(items(r#"[1,"realm",{}]"#)).unwrap();
    assert_eq!(any, Messages::Hello(Hello { realm: "realm".to_string(), details: vec![] }));
}

#[test]
fn unknown_tag_is_extension() {
    let any = Messages::decode(items(r#"[99,"x"]"#)).unwrap();
    assert_eq!(any, Messages::Extension(vec![Json::UInt(99), Json::Str("x".to_string())]));
    assert_eq!(any.id(), Some(99));
}

#[test]
fn call_with_cancel_tag_is_tag_mismatch() {
    let r = Call::decode(items(r#"[49,7814135,{},"com.myapp.user.new"]"#));
    assert_eq!(
        r,
        Err(Error::TagMismatch { kind: MessageKind::Call, expected: 48, actual: 49 })
    );
}

#[test]
fn missing_field_is_reported() {
    let r = Call::decode(items(r#"[48,7814135,{}]"#));
    assert_eq!(r, Err(Error::MissingField { kind: MessageKind::Call, field: Field::Procedure }));
}

#[test]
fn wrong_shapes_are_reported() {
    let r = Call::decode(items(r#"[48,7814135,[],"p"]"#));
    assert_eq!(
        r,
        Err(Error::ShapeViolation {
            kind: MessageKind::Call,
            field: Field::Options,
            shape: Shape::Dict
        })
    );
    let r = Call::decode(items(r#"[48,1,{},"p",{}]"#));
    assert_eq!(
        r,
        Err(Error::ShapeViolation {
            kind: MessageKind::Call,
            field: Field::Args,
            shape: Shape::ArrayOrNull
        })
    );
    let r = Call::decode(items(r#"[48,1,{},"p",[],[]]"#));
    assert_eq!(
        r,
        Err(Error::ShapeViolation {
            kind: MessageKind::Call,
            field: Field::Kwargs,
            shape: Shape::DictOrNull
        })
    );
    let r = Published::decode(items(r#"[17,"one",2]"#));
    assert_eq!(
        r,
        Err(Error::ShapeViolation {
            kind: MessageKind::Published,
            field: Field::RequestId,
            shape: Shape::Integer
        })
    );
    let r = WampError::decode(items(r#"[8,17,1,{},"wamp.error.x"]"#));
    assert_eq!(
        r,
        Err(Error::ShapeViolation {
            kind: MessageKind::Error,
            field: Field::RequestType,
            shape: Shape::RequestType
        })
    );
}

#[test]
fn null_trailing_values_decode_as_absent() {
    let c = Call::decode(items(r#"[48,1,{},"p",null,{"a":1}]"#)).unwrap();
    assert_eq!(c.args, None);
    assert_eq!(c.kwargs, Some(members(r#"{"a":1}"#)));
}

#[test]
fn malformed_frames_are_reported() {
    assert_eq!(Messages::decode(vec![]), Err(Error::Malformed(Malformation::NoTag)));
    assert_eq!(
        Messages::decode(items(r#"["48"]"#)),
        Err(Error::Malformed(Malformation::TagNotInteger))
    );
    assert_eq!(
        Messages::decode(items("[-3]")),
        Err(Error::Malformed(Malformation::TagNotInteger))
    );
    assert_eq!(
        Messages::decode(items("[67,1,2]")),
        Err(Error::Malformed(Malformation::ExtraElements))
    );
    assert_eq!(
        Messages::from_value(json("{}")),
        Err(Error::Malformed(Malformation::NotAnArray))
    );
    assert_eq!(Messages::from_value(json("[67,1]")).unwrap().id(), Some(67));
}

#[test]
fn error_message_round_trip() {
    let make = || WampError {
        event: WampErrorEvent::Call,
        request_id: 7814135,
        details: members("{}"),
        error: "com.myapp.error.object_write_protected".to_string(),
        args: Some(items(r#"["Object is write protected."]"#)),
        kwargs: Some(members(r#"{"severity":3}"#)),
    };
    let text = r#"[8,48,7814135,{},"com.myapp.error.object_write_protected",["Object is write protected."],{"severity":3}]"#;
    assert_eq!(to_text(make().encode()), text);
    assert_eq!(WampError::decode(items(text)).unwrap(), make());
}

#[test]
fn messages_round_trip_through_dispatch() {
    let frame = Messages::Call(call_example()).encode();
    assert_eq!(Messages::decode(frame).unwrap(), Messages::Call(call_example()));
    let ext = vec![Json::UInt(1000), Json::Bool(true)];
    let frame = Messages::Extension(ext).encode();
    assert_eq!(
        Messages::decode(frame),
        Ok(Messages::Extension(vec![Json::UInt(1000), Json::Bool(true)]))
    );
}

#[test]
fn ids_follow_the_tag_table() {
    let challenge = Messages::decode(items(r#"[4,"ticket",{}]"#)).unwrap();
    assert_eq!(challenge.id(), Some(4));
    assert_eq!(Messages::Extension(vec![]).id(), None);
    assert_eq!(Messages::Extension(vec![Json::Str("x".to_string())]).id(), None);
    assert_eq!(MessageKind::Authenticate.tag(), 5);
    assert_eq!(MessageKind::from_tag(70), Some(MessageKind::Yield));
    assert_eq!(MessageKind::from_tag(7), None);
    assert_eq!(WampErrorEvent::from_tag(49), Some(WampErrorEvent::Cancel));
    assert_eq!(WampErrorEvent::from_tag(50), None);
}

#[test]
fn floats_and_negative_numbers_pass_through() {
    let text = r#"[36,1,2,{},[-4,2.5,true,null]]"#;
    let e = Event::decode(items(text)).unwrap();
    assert_eq!(to_text(e.encode()), text);
}

#[test]
fn conversions_between_messages_and_types() {
    let any = Messages::from(Published { request_id: 1, publication: 2 });
    assert_eq!(any, Messages::Published(Published { request_id: 1, publication: 2 }));
    assert_eq!(WampError::try_from(any), Err(Error::InvalidMessageEnumMember));
    let result = || WampResult { request_id: 3, details: vec![], args: None, kwargs: None };
    assert_eq!(WampResult::try_from(Messages::from(result())), Ok(result()));
    let any = Messages::from(Call::new(&mut wamp_core::RequestIdCounter::new(), "p".to_string()));
    assert_eq!(any.id(), Some(48));
}

#[test]
fn constructors_stamp_fresh_request_ids() {
    let mut ids = wamp_core::RequestIdCounter::new();
    let call = Call::new(&mut ids, "procedure".to_string());
    assert_eq!(
        call,
        Call {
            request_id: 1,
            options: vec![],
            procedure: "procedure".to_string(),
            args: None,
            kwargs: None
        }
    );
    assert_eq!(to_text(call.encode()), r#"[48,1,{},"procedure"]"#);
    let publish = wamp_core::Publish::new(&mut ids, "topic".to_string());
    assert_eq!(publish.request_id, 2);
    let subscribe = Subscribe::new(&mut ids, "topic".to_string());
    assert_eq!((subscribe.request_id, subscribe.topic.as_str()), (3, "topic"));
    assert_eq!(wamp_core::Register::new(&mut ids, "p".to_string()).request_id, 4);
    assert_eq!(Unregister::new(&mut ids, 9).request_id, 5);
    assert_eq!(Unsubscribe::new(&mut ids, 9).subscription, 9);
    let inv = Invocation::new(&mut ids, 12);
    assert_eq!((inv.request_id, inv.registration), (7, 12));
    assert_eq!(ids.last, 7);
}

fn one_of_each() -> Vec<Messages> {
    let d = || members(r#"{"k":"v"}"#);
    let s = |t: &str| t.to_string();
    vec![
        Messages::Hello(wamp_core::Hello { realm: s("realm"), details: d() }),
        Messages::Welcome(Welcome { session: 9, details: d() }),
        Messages::Abort(wamp_core::Abort { details: d(), reason: s("wamp.error.no_such_realm") }),
        Messages::Challenge(wamp_core::Challenge { authmethod: s("ticket"), details: d() }),
        Messages::Authenticate(wamp_core::Authenticate { signature: s("secret"), details: d() }),
        Messages::Goodbye(Goodbye { details: d(), reason: s("wamp.close.close_realm") }),
        Messages::Error(WampError {
            event: WampErrorEvent::Register,
            request_id: 3,
            details: d(),
            error: s("wamp.error.procedure_already_exists"),
            args: None,
            kwargs: None,
        }),
        Messages::Publish(wamp_core::Publish {
            request_id: 4,
            options: d(),
            topic: s("com.topic"),
            args: Some(items("[1]")),
            kwargs: None,
        }),
        Messages::Published(Published { request_id: 4, publication: 5 }),
        Messages::Subscribe(Subscribe { request_id: 6, options: d(), topic: s("com.topic") }),
        Messages::Subscribed(wamp_core::Subscribed { request_id: 6, subscription: 7 }),
        Messages::Unsubscribe(Unsubscribe { request_id: 8, subscription: 7 }),
        Messages::Unsubscribed(wamp_core::Unsubscribed { request_id: 8 }),
        Messages::Event(Event {
            subscription: 7,
            publication: 5,
            details: d(),
            args: Some(items("[]")),
            kwargs: Some(d()),
        }),
        Messages::Call(call_example()),
        Messages::Cancel(wamp_core::Cancel { request_id: 7814135, options: d() }),
        Messages::Result(WampResult { request_id: 7814135, details: d(), args: None, kwargs: None }),
        Messages::Register(wamp_core::Register { request_id: 9, options: d(), procedure: s("p") }),
        Messages::Registered(Registered { request_id: 9, registration: 10 }),
        Messages::Unregister(Unregister { request_id: 11, registration: 10 }),
        Messages::Unregistered(Unregistered { request_id: 11 }),
        Messages::Invocation(Invocation {
            request_id: 12,
            registration: 10,
            details: d(),
            args: Some(items(r#"["x"]"#)),
            kwargs: Some(d()),
        }),
        Messages::Interrupt(wamp_core::Interrupt { request_id: 12, options: d() }),
        Messages::Yield(Yield { request_id: 12, options: d(), args: None, kwargs: None }),
    ]
}

#[test]
fn every_type_round_trips() {
    let originals = one_of_each();
    let copies = one_of_each();
    assert_eq!(originals.len(), 24);
    for (original, copy) in originals.into_iter().zip(copies) {
        let id = original.id();
        let text = to_text(original.encode());
        let back = Messages::decode(items(&text)).unwrap();
        assert_eq!(back, copy, "{}", text);
        assert_eq!(back.id(), id);
    }
}
