use wamp_core::{
    add_associated_subscription, direction, increment, subscribe, subscription_contains,
    unsubscribe, Call, EasyRule, Interrupt, MessageDirection, MessageKind, Published,
    RequestIdCounter, Roles, Rule, WampMessage, WampRules, Welcome, Yield,
};

#[test]
fn increment_counts_from_one() {
    let mut counter = RequestIdCounter::new();
    for i in 1..10 {
        assert_eq!(i, increment(&mut counter));
    }
}

#[test]
fn ten_thousand_ids_are_distinct_and_gapless() {
    let mut counter = RequestIdCounter::new();
    let mut ids: Vec<u64> = (0..10_000).map(|_| increment(&mut counter)).collect();
    ids.sort();
    ids.dedup();
    assert_eq!(ids.len(), 10_000);
    assert_eq!(ids, (1..=10_000).collect::<Vec<u64>>());
}

#[test]
fn topics_are_recorded_and_removed() {
    add_associated_subscription();
    let mut topics: Vec<String> = Vec::new();
    subscribe(&mut topics, "com.a");
    subscribe(&mut topics, "com.b");
    subscribe(&mut topics, "com.a");
    assert!(subscription_contains(&topics, "com.a"));
    assert!(!subscription_contains(&topics, "com.c"));
    unsubscribe(&mut topics, "com.a");
    assert_eq!(topics, vec!["com.b".to_string()]);
    assert!(!subscription_contains(&topics, "com.a"));
    unsubscribe(&mut topics, "com.missing");
    assert_eq!(topics, vec!["com.b".to_string()]);
}

#[test]
fn role_matrix_entries() {
    let d = |receives, sends| MessageDirection { receives, sends };
    assert_eq!(direction(Roles::Caller, MessageKind::Call), d(false, true));
    assert_eq!(direction(Roles::Caller, MessageKind::Cancel), d(false, true));
    assert_eq!(direction(Roles::Caller, MessageKind::Result), d(true, false));
    assert_eq!(direction(Roles::Caller, MessageKind::Error), d(true, false));
    assert_eq!(direction(Roles::Caller, MessageKind::Interrupt), d(true, false));
    assert_eq!(direction(Roles::Callee, MessageKind::Invocation), d(true, false));
    assert_eq!(direction(Roles::Callee, MessageKind::Yield), d(false, true));
    assert_eq!(direction(Roles::Callee, MessageKind::Error), d(true, true));
    assert_eq!(direction(Roles::Broker, MessageKind::Publish), d(true, false));
    assert_eq!(direction(Roles::Broker, MessageKind::Event), d(false, true));
    assert_eq!(direction(Roles::Broker, MessageKind::Subscribed), d(false, true));
    assert_eq!(direction(Roles::Subscriber, MessageKind::Goodbye), d(true, false));
    assert_eq!(direction(Roles::Dealer, MessageKind::Hello), d(true, false));
    assert_eq!(direction(Roles::Publisher, MessageKind::Subscribe), d(false, false));
}

#[test]
fn message_types_answer_for_their_kind() {
    let d = |receives, sends| MessageDirection { receives, sends };
    assert_eq!(Call::kind(), MessageKind::Call);
    assert_eq!(Call::direction(Roles::Caller), direction(Roles::Caller, MessageKind::Call));
    assert_eq!(Yield::direction(Roles::Dealer), d(true, false));
    assert_eq!(Interrupt::direction(Roles::Callee), d(true, false));
    assert_eq!(Published::direction(Roles::Broker), d(false, true));
    assert_eq!(Welcome::direction(Roles::Caller), d(true, false));
}

#[test]
fn uri_rule_patterns() {
    let r = WampRules::Name.rule();
    assert_eq!(r.loose, r"^[^\s\.#]+$");
    assert_eq!(r.strict, r"^[\da-z_]+$");
    let r = WampRules::Prefix.rule();
    assert_eq!(r.strict, r"^([\da-z_]+\.)*([\da-z_]*)$");
    let r = EasyRule::NoEmpty.rule();
    assert_eq!(r.loose, r"^([^\s\.#]+\.)*([^\s\.#]+)$");
    let r = EasyRule::WithEmpty.rule();
    assert_eq!(r.strict, r"^(([0-9a-z_]+\.)|\.)*([0-9a-z_]+)?$");
}

#[test]
fn type_ids_match_the_tag_table() {
    assert_eq!(Call::ID, 48);
    assert_eq!(Published::ID, 17);
    assert_eq!(Welcome::ID, 2);
    assert_eq!(Yield::ID, MessageKind::Yield.tag());
    assert_eq!(Interrupt::ID, 69);
}
