use subd_core::bus::{BusError, BusVerdict, EventBus, HandlerExit, Received};
use subd_core::types::{
    get_nyx_sub, get_nyx_sub_for_begin, get_prime_sub, ChatLine, Event, SubscriptionKind,
    ThemesongDownload, ThemesongPlay, UserMessage, UserRoles,
};

fn chat(text: &str) -> Event {
    Event::UserMessage(UserMessage {
        user_name: "adminUser".to_string(),
        contents: text.to_string(),
        roles: UserRoles::default(),
    })
}

fn contents(got: Received) -> String {
    match got {
        Received::Event(Event::UserMessage(m)) => m.contents,
        other => panic!("unexpected {other:?}"),
    }
}

#[test]
fn zero_capacity_is_refused() {
    assert_eq!(EventBus::new(0).err(), Some(BusError::ZeroCapacity));
    let bus = EventBus::new(4).unwrap();
    assert_eq!(bus.capacity(), 4);
    assert!(!bus.is_started());
    assert!(!bus.is_closed());
    assert_eq!(bus.subscription_count(), 0);
}

#[test]
fn register_only_before_start() {
    let mut bus = EventBus::new(2).unwrap();
    assert_eq!(bus.register(), Ok(0));
    assert_eq!(bus.register(), Ok(1));
    bus.start();
    assert!(bus.is_started());
    assert_eq!(bus.register(), Err(BusError::AlreadyStarted));
    assert_eq!(bus.subscription_count(), 2);
}

#[test]
fn every_subscription_gets_a_copy_in_order() {
    let mut bus = EventBus::new(8).unwrap();
    let a = bus.register().unwrap();
    let b = bus.register().unwrap();
    bus.start();
    assert_eq!(bus.publish(&chat("one")), Ok(2));
    assert_eq!(bus.publish(&chat("two")), Ok(2));
    assert_eq!(contents(bus.receive(a).unwrap()), "one");
    assert_eq!(contents(bus.receive(b).unwrap()), "one");
    assert_eq!(contents(bus.receive(b).unwrap()), "two");
    assert!(matches!(bus.receive(b), Ok(Received::Empty)));
    assert_eq!(contents(bus.receive(a).unwrap()), "two");
    assert!(matches!(bus.receive(a), Ok(Received::Empty)));
}

#[test]
fn slow_subscriber_sees_a_gap_and_resumes() {
    let mut bus = EventBus::new(3).unwrap();
    let slow = bus.register().unwrap();
    let fast = bus.register().unwrap();
    bus.start();
    for i in 0..10 {
        assert_eq!(bus.publish(&chat(&format!("m{i}"))), Ok(2));
        assert_eq!(contents(bus.receive(fast).unwrap()), format!("m{i}"));
    }
    assert!(matches!(bus.receive(slow), Ok(Received::Lagged(7))));
    assert_eq!(contents(bus.receive(slow).unwrap()), "m7");
    assert_eq!(contents(bus.receive(slow).unwrap()), "m8");
    assert_eq!(contents(bus.receive(slow).unwrap()), "m9");
    assert!(matches!(bus.receive(slow), Ok(Received::Empty)));
    assert!(matches!(bus.receive(fast), Ok(Received::Empty)));
}

#[test]
fn exactly_full_buffer_loses_nothing() {
    let mut bus = EventBus::new(2).unwrap();
    let s = bus.register().unwrap();
    assert_eq!(bus.publish(&chat("a")), Ok(1));
    assert_eq!(bus.publish(&chat("b")), Ok(1));
    assert_eq!(contents(bus.receive(s).unwrap()), "a");
    assert_eq!(bus.publish(&chat("c")), Ok(1));
    assert_eq!(contents(bus.receive(s).unwrap()), "b");
    assert_eq!(contents(bus.receive(s).unwrap()), "c");
    assert_eq!(bus.publish(&chat("d")), Ok(1));
    assert_eq!(bus.publish(&chat("e")), Ok(1));
    assert_eq!(bus.publish(&chat("f")), Ok(1));
    assert!(matches!(bus.receive(s), Ok(Received::Lagged(1))));
    assert_eq!(contents(bus.receive(s).unwrap()), "e");
}

#[test]
fn shutdown_is_broadcast_like_any_event() {
    let mut bus = EventBus::new(4).unwrap();
    let a = bus.register().unwrap();
    let b = bus.register().unwrap();
    bus.start();
    assert_eq!(bus.publish(&Event::Shutdown), Ok(2));
    assert!(matches!(bus.receive(a), Ok(Received::Event(Event::Shutdown))));
    assert!(matches!(bus.receive(b), Ok(Received::Event(Event::Shutdown))));
}

#[test]
fn closed_bus_drains_then_ends() {
    let mut bus = EventBus::new(4).unwrap();
    let a = bus.register().unwrap();
    assert_eq!(bus.publish(&chat("last")), Ok(1));
    bus.close();
    assert!(bus.is_closed());
    assert_eq!(bus.publish(&chat("late")), Err(BusError::Closed));
    assert_eq!(contents(bus.receive(a).unwrap()), "last");
    assert!(matches!(bus.receive(a), Ok(Received::Closed)));
    assert!(matches!(bus.receive(a), Ok(Received::Closed)));
}

#[test]
fn unknown_subscription_is_an_error() {
    let mut bus = EventBus::new(4).unwrap();
    assert_eq!(bus.receive(0).err(), Some(BusError::NoSuchSubscription));
    let a = bus.register().unwrap();
    assert_eq!(bus.receive(a + 1).err(), Some(BusError::NoSuchSubscription));
    assert_eq!(bus.handler_exited(a + 1, HandlerExit::Finished), Err(BusError::NoSuchSubscription));
}

#[test]
fn run_ends_when_every_handler_returned() {
    let mut bus = EventBus::new(4).unwrap();
    let a = bus.register().unwrap();
    let b = bus.register().unwrap();
    bus.start();
    assert_eq!(bus.handler_exited(a, HandlerExit::Finished), Ok(BusVerdict::Running));
    assert_eq!(bus.publish(&chat("x")), Ok(1));
    assert_eq!(bus.receive(a).err(), Some(BusError::NoSuchSubscription));
    assert_eq!(bus.handler_exited(a, HandlerExit::Finished), Err(BusError::NoSuchSubscription));
    assert_eq!(bus.handler_exited(b, HandlerExit::Finished), Ok(BusVerdict::Finished));
    assert!(!bus.is_closed());
    assert_eq!(bus.publish(&chat("y")), Ok(0));
}

#[test]
fn fatal_handler_stops_the_bus() {
    let mut bus = EventBus::new(4).unwrap();
    let a = bus.register().unwrap();
    let b = bus.register().unwrap();
    bus.start();
    assert_eq!(bus.publish(&chat("x")), Ok(2));
    assert_eq!(bus.handler_exited(a, HandlerExit::Fatal), Ok(BusVerdict::Failed));
    assert!(bus.is_closed());
    assert_eq!(bus.publish(&chat("y")), Err(BusError::Closed));
    assert_eq!(contents(bus.receive(b).unwrap()), "x");
    assert!(matches!(bus.receive(b), Ok(Received::Closed)));
}

#[test]
fn sample_subscriptions() {
    let begin = get_nyx_sub_for_begin();
    assert_eq!(begin.display_name(), "NyxKrage");
    assert_eq!(begin.user_name, "nyxkrage");
    assert_eq!(begin.channel_name, "beginbot");
    assert_eq!(begin.channel_id, "424038378");
    assert_eq!(begin.kind, SubscriptionKind::Sub);
    assert_eq!(begin.sub_plan, "1000");
    assert_eq!(begin.cumulative_months, 1);
    assert!(!begin.is_gift);
    assert_eq!(begin.message, "You are my favorite streamer");
    let nyx = get_nyx_sub();
    assert_eq!(nyx.display_name(), "NyxKrage");
    assert_eq!(nyx.channel_name, "teej_dv");
    assert_eq!(nyx.channel_id, "27620241");
    let prime = get_prime_sub();
    assert_eq!(prime.display_name(), "ThePrimeagen");
    assert_eq!(prime.user_name, "theprimeagen");
    assert_eq!(prime.channel_name, "teej_dv");
}

#[test]
fn every_kind_of_event_is_copied_to_each_subscription() {
    let mut bus = EventBus::new(16).unwrap();
    let a = bus.register().unwrap();
    let events = vec![
        Event::TwitchChatMessage(ChatLine {
            sender_login: "ann".to_string(),
            message_text: "hi".to_string(),
        }),
        Event::TwitchSubscriptionCount(7),
        Event::TwitchSubscription(get_prime_sub()),
        Event::GithubSponsorshipEvent,
        Event::ThemesongDownload(ThemesongDownload::Finish {
            display_name: "ann".to_string(),
            success: true,
        }),
        Event::ThemesongPlay(ThemesongPlay { user_id: 9, display_name: "ann".to_string() }),
        Event::RequestTwitchSubCount,
    ];
    for e in events.iter() {
        assert_eq!(bus.publish(e), Ok(1));
    }
    assert!(matches!(
        bus.receive(a),
        Ok(Received::Event(Event::TwitchChatMessage(l))) if l.sender_login == "ann" && l.message_text == "hi"
    ));
    assert!(matches!(bus.receive(a), Ok(Received::Event(Event::TwitchSubscriptionCount(7)))));
    assert!(matches!(
        bus.receive(a),
        Ok(Received::Event(Event::TwitchSubscription(s))) if s.display_name == "ThePrimeagen"
    ));
    assert!(matches!(bus.receive(a), Ok(Received::Event(Event::GithubSponsorshipEvent))));
    assert!(matches!(
        bus.receive(a),
        Ok(Received::Event(Event::ThemesongDownload(ThemesongDownload::Finish { success: true, .. })))
    ));
    assert!(matches!(
        bus.receive(a),
        Ok(Received::Event(Event::ThemesongPlay(t))) if t.user_id == 9
    ));
    assert!(matches!(bus.receive(a), Ok(Received::Event(Event::RequestTwitchSubCount))));
}
