use nats_spy::application::Command;
use nats_spy::events::{
    Effect, Events, InputEvent, Producer, REQUEST_TIMEOUT_MS, TICK_INTERVAL_MS,
};
use nats_spy::keys::{Event, KeyCode, KeyEvent, NO_MODIFIERS};
use nats_spy::log::{Level, Log};
use nats_spy::nats::{
    ConnectOptions, Credentials, Message, Publication, Request, RequestFailure, Status,
    Subscription, DEFAULT_SUBJECT, DEFAULT_URL,
};

fn text(s: &str) -> String {
    s.to_string()
}

fn key(ch: char) -> InputEvent {
    InputEvent::Input(Event::Key(KeyEvent { code: KeyCode::Char(ch), modifiers: NO_MODIFIERS }))
}

fn message(subject: &str, payload: &str) -> InputEvent {
    InputEvent::Messages(text(subject), payload.as_bytes().to_vec())
}

fn info(line: &str) -> InputEvent {
    InputEvent::Logs(Log { level: Level::Info, text: text(line) })
}

fn error(line: &str) -> InputEvent {
    InputEvent::Logs(Log { level: Level::Error, text: text(line) })
}

fn events(subject: &str) -> Events<u32> {
    Events::new(text("nats://localhost:4222"), text(subject), None, None, None, None)
}

fn events_without_connection() -> Events<u32> {
    events(">")
}

fn connected_events(subject: &str) -> Events<u32> {
    let mut events = events(subject);
    assert!(events.connect().is_some());
    assert_eq!(events.connected(Ok(1)), Some(text(subject)));
    drain_queue(&mut events);
    events
}

fn drain_queue(events: &mut Events<u32>) -> Vec<InputEvent> {
    let mut taken = Vec::new();
    while let Some(event) = events.next() {
        taken.push(event);
    }
    taken
}

#[test]
fn new_aggregator_is_empty() {
    let mut events: Events<u32> = Events::new(
        text("nats://broker:4222"),
        text("orders.*"),
        None,
        None,
        Some(text("tok")),
        None,
    );
    assert_eq!(events.pending(), 0);
    assert_eq!(events.next(), None);
    assert_eq!(events.subject(), "orders.*");
    assert_eq!(events.session().url(), "nats://broker:4222");
    assert_eq!(events.session().credentials(), &Credentials::Token { token: text("tok") });
    assert_eq!(events.session().status(), Status::Disconnected);
}

#[test]
fn events_leave_in_order_of_arrival() {
    let mut events = events(">");
    events.send(key('a'));
    events.send(InputEvent::Tick);
    events.send(message("orders.new", "1"));
    assert_eq!(events.pending(), 3);
    assert_eq!(events.next(), Some(key('a')));
    events.send(key('b'));
    assert_eq!(events.next(), Some(InputEvent::Tick));
    assert_eq!(events.next(), Some(message("orders.new", "1")));
    assert_eq!(events.next(), Some(key('b')));
    assert_eq!(events.next(), None);
    assert_eq!(events.pending(), 0);
}

#[test]
fn each_producer_is_delivered_in_its_own_order() {
    let mut events = events(">");
    let arrivals = vec![
        key('a'),
        message("s", "1"),
        InputEvent::Tick,
        key('b'),
        message("s", "2"),
        key('c'),
        InputEvent::Tick,
        message("s", "3"),
    ];
    let mut delivered = Vec::new();
    for (turn, event) in arrivals.iter().enumerate() {
        events.send(event.clone());
        if turn % 3 == 2 {
            delivered.extend(events.next());
        }
    }
    delivered.extend(drain_queue(&mut events));
    assert_eq!(delivered, arrivals);
    for who in [Producer::Keyboard, Producer::Ticker, Producer::Broker] {
        let emitted: Vec<&InputEvent> = arrivals.iter().filter(|e| e.producer() == who).collect();
        let got: Vec<&InputEvent> = delivered.iter().filter(|e| e.producer() == who).collect();
        assert_eq!(got, emitted);
    }
}

#[test]
fn every_kind_of_event_has_its_producer() {
    assert_eq!(key('x').producer(), Producer::Keyboard);
    assert_eq!(InputEvent::Input(Event::Other).producer(), Producer::Keyboard);
    assert_eq!(InputEvent::Tick.producer(), Producer::Ticker);
    assert_eq!(message("s", "p").producer(), Producer::Broker);
    assert_eq!(info("x").producer(), Producer::Broker);
}

#[test]
fn listener_connects_and_subscribes() {
    let mut events = events("orders.*");
    let plan = events.connect();
    assert_eq!(
        plan,
        Some(ConnectOptions {
            url: text("nats://localhost:4222"),
            credentials: Credentials::Anonymous,
            name: text("nats-spy"),
            max_reconnects: 10,
        })
    );
    assert_eq!(events.connected(Ok(1)), Some(text("orders.*")));
    assert_eq!(events.session().status(), Status::Connected);
    assert_eq!(
        events.subscribed(text("orders.*"), Ok::<u8, String>(4)),
        Some(Subscription { subject: text("orders.*"), stream: 4 })
    );
    events.message(Message { subject: text("orders.new"), payload: b"hello".to_vec() });
    assert_eq!(
        drain_queue(&mut events),
        vec![
            info("Trying to connect NATS Server..."),
            info("Connected to NATS Server."),
            InputEvent::Messages(text("orders.new"), b"hello".to_vec()),
        ]
    );
}

#[test]
fn listener_stops_when_dialling_fails() {
    let mut events = events("orders.*");
    assert!(events.connect().is_some());
    assert_eq!(events.connected(Err(text("connection refused"))), None);
    assert_eq!(events.session().status(), Status::Disconnected);
    assert_eq!(
        drain_queue(&mut events),
        vec![
            info("Trying to connect NATS Server..."),
            error("Cannot connect. connection refused"),
        ]
    );
}

#[test]
fn listener_does_not_dial_a_connected_session() {
    let mut events = connected_events("orders.*");
    assert_eq!(events.connect(), None);
    assert_eq!(
        drain_queue(&mut events),
        vec![info("Trying to connect NATS Server..."), error("Already connected.")]
    );
    assert_eq!(events.connected(Ok(2)), None);
    assert_eq!(events.session().handle(), Some(&1));
    assert_eq!(drain_queue(&mut events), vec![error("Already connected.")]);
}

#[test]
fn listener_does_not_subscribe_to_an_empty_subject() {
    let mut events = events("");
    assert!(events.connect().is_some());
    assert_eq!(events.connected(Ok(1)), None);
    assert_eq!(events.session().status(), Status::Connected);
    assert_eq!(
        drain_queue(&mut events),
        vec![
            info("Trying to connect NATS Server..."),
            info("Connected to NATS Server."),
            error("Subject is empty!"),
        ]
    );
}

#[test]
fn refused_subscription_is_logged() {
    let mut events = connected_events("orders.*");
    assert_eq!(
        events.subscribed(text("orders.*"), Err::<u8, String>(text("permission denied"))),
        None
    );
    assert_eq!(drain_queue(&mut events), vec![error("Cannot subscribe. permission denied")]);
}

#[test]
fn publish_with_empty_subject_sends_nothing() {
    let mut events = connected_events(">");
    assert_eq!(events.publish(text(""), text("anything")), None);
    assert_eq!(drain_queue(&mut events), vec![error("Subject is empty!")]);
}

#[test]
fn publish_without_connection_sends_nothing() {
    let mut events = events(">");
    assert_eq!(events.publish(text("orders.new"), text("x")), None);
    assert_eq!(drain_queue(&mut events), vec![error("Connection cannot established.")]);
}

#[test]
fn publish_is_confirmed_in_the_log() {
    let mut events = connected_events(">");
    let publication = events.publish(text("orders.new"), text("hello"));
    assert_eq!(
        publication,
        Some(Publication { subject: text("orders.new"), payload: text("hello") })
    );
    assert_eq!(events.pending(), 0);
    events.published(&publication.unwrap(), Ok(()));
    assert_eq!(drain_queue(&mut events), vec![info("Message send to subject 'orders.new'")]);
}

#[test]
fn failed_publish_is_logged() {
    let mut events = connected_events(">");
    let publication = events.publish(text("orders.new"), text("hello")).unwrap();
    events.published(&publication, Err(text("broken pipe")));
    assert_eq!(drain_queue(&mut events), vec![error("Cannot publish. broken pipe")]);
}

#[test]
fn request_is_announced_and_handed_out() {
    let mut events = connected_events(">");
    assert_eq!(
        events.request(text("svc.time"), text("now")),
        Some(Request { subject: text("svc.time"), payload: text("now"), timeout_ms: 1000 })
    );
    assert_eq!(REQUEST_TIMEOUT_MS, 1000);
    assert_eq!(drain_queue(&mut events), vec![info("Subject 'svc.time' requested.")]);
}

#[test]
fn request_with_empty_subject_sends_nothing() {
    let mut events = connected_events(">");
    assert_eq!(events.request(text(""), text("now")), None);
    assert_eq!(drain_queue(&mut events), vec![error("Subject is empty!")]);
}

#[test]
fn request_without_connection_sends_nothing() {
    let mut events = events(">");
    assert_eq!(events.request(text("svc.time"), text("now")), None);
    assert_eq!(
        drain_queue(&mut events),
        vec![info("Subject 'svc.time' requested."), error("Connection cannot established.")]
    );
}

#[test]
fn reply_becomes_a_broker_message() {
    let mut events = connected_events(">");
    events.send(InputEvent::Tick);
    events.replied(Ok(Message { subject: text("_INBOX.7"), payload: b"12:00".to_vec() }));
    assert_eq!(
        drain_queue(&mut events),
        vec![InputEvent::Tick, InputEvent::Messages(text("_INBOX.7"), b"12:00".to_vec())]
    );
}

#[test]
fn timed_out_request_emits_no_broker_message() {
    let mut events = connected_events(">");
    events.replied(Err(RequestFailure::TimedOut));
    let taken = drain_queue(&mut events);
    assert_eq!(taken, vec![error("Request timed out.")]);
    assert!(taken.iter().all(|event| !matches!(event, InputEvent::Messages(_, _))));
}

#[test]
fn failed_request_is_logged() {
    let mut events = connected_events(">");
    events.replied(Err(RequestFailure::Failed(text("broken pipe"))));
    assert_eq!(drain_queue(&mut events), vec![error("Cannot publish. broken pipe")]);
}

#[test]
fn drain_releases_the_connection_and_keeps_the_queue() {
    let mut events = connected_events(">");
    events.send(InputEvent::Tick);
    assert_eq!(events.drain(), Some(1));
    assert_eq!(events.session().status(), Status::Disconnected);
    assert_eq!(events.drain(), None);
    assert_eq!(events.session().status(), Status::Disconnected);
    assert_eq!(events.pending(), 1);
    assert_eq!(events.next(), Some(InputEvent::Tick));
}

#[test]
fn subscribed_traffic_reaches_the_consumer() {
    let mut events: Events<u32> =
        Events::new(text("nats://localhost:4222"), text("orders.*"), None, None, None, None);
    assert!(events.connect().is_some());
    assert_eq!(events.connected(Ok(1)), Some(text("orders.*")));
    assert_eq!(events.session().status(), Status::Connected);
    assert!(events.subscribed(text("orders.*"), Ok::<u8, String>(0)).is_some());
    drain_queue(&mut events);
    events.message(Message { subject: text("orders.new"), payload: b"hello".to_vec() });
    assert_eq!(
        events.next(),
        Some(InputEvent::Messages(text("orders.new"), b"hello".to_vec()))
    );
}

#[test]
fn reconnection_is_information_not_failure() {
    let mut events = connected_events(">");
    events.connection_lost();
    events.connection_reestablished();
    assert_eq!(events.session().status(), Status::Connected);
    assert_eq!(
        drain_queue(&mut events),
        vec![info("Connection has been lost."), info("Connection has been reestablished.")]
    );
}

#[test]
fn defaults_of_an_unconfigured_console() {
    assert_eq!(DEFAULT_URL, "nats://localhost:4222");
    assert_eq!(DEFAULT_SUBJECT, ">");
    assert_eq!(TICK_INTERVAL_MS, 200);
}

#[test]
fn quitting_drains_the_session() {
    let mut events = connected_events(">");
    assert_eq!(events.execute(Command::Quit), Effect::Leave(Some(1)));
    assert_eq!(events.session().status(), Status::Disconnected);
    assert_eq!(events.execute(Command::Quit), Effect::Leave(None));
    assert_eq!(events.session().status(), Status::Disconnected);
    assert_eq!(events.pending(), 0);
}

#[test]
fn accepted_commands_lead_to_transport_work() {
    let mut events = connected_events(">");
    assert_eq!(
        events.execute(Command::Publish { subject: text("orders.new"), message: text("hello") }),
        Effect::Publish(Publication { subject: text("orders.new"), payload: text("hello") })
    );
    assert_eq!(events.pending(), 0);
    assert_eq!(
        events.execute(Command::Request { subject: text("svc.time"), message: text("now") }),
        Effect::Request(Request {
            subject: text("svc.time"),
            payload: text("now"),
            timeout_ms: 1000
        })
    );
    assert_eq!(drain_queue(&mut events), vec![info("Subject 'svc.time' requested.")]);
}

#[test]
fn refused_commands_lead_to_a_log_record_only() {
    let mut events = connected_events(">");
    assert_eq!(
        events.execute(Command::Publish { subject: text(""), message: text("hello") }),
        Effect::Nothing
    );
    assert_eq!(
        events.execute(Command::Request { subject: text(""), message: text("now") }),
        Effect::Nothing
    );
    assert_eq!(
        drain_queue(&mut events),
        vec![error("Subject is empty!"), error("Subject is empty!")]
    );
    let mut disconnected = events_without_connection();
    assert_eq!(
        disconnected.execute(Command::Publish { subject: text("a"), message: text("b") }),
        Effect::Nothing
    );
    assert_eq!(drain_queue(&mut disconnected), vec![error("Connection cannot established.")]);
}

#[test]
fn idle_and_log_commands_leave_the_aggregator_alone() {
    let mut events = connected_events(">");
    assert_eq!(events.execute(Command::Idle), Effect::Nothing);
    assert_eq!(
        events.execute(Command::Show(Log::info(text("hello")))),
        Effect::Show(Log { level: Level::Info, text: text("hello") })
    );
    assert_eq!(events.pending(), 0);
    assert_eq!(events.session().status(), Status::Connected);
}
