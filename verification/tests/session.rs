use nats_spy::nats::{
    publish_outcome, request_outcome, subscribe_outcome, ConnectOptions, Credentials, Message,
    NatsClient, Publication, Request, RequestFailure, SessionError, Status, Subscription,
    CLIENT_NAME, MAX_RECONNECTS,
};

fn text(s: &str) -> String {
    s.to_string()
}

fn session() -> NatsClient<u32> {
    NatsClient::new(text("nats://localhost:4222"), None, None, None, None)
}

fn connected_session(handle: u32) -> NatsClient<u32> {
    let mut session = session();
    assert_eq!(session.connect(Ok(handle)), Ok(()));
    session
}

#[test]
fn new_session_is_disconnected() {
    let session = session();
    assert_eq!(session.status(), Status::Disconnected);
    assert!(!session.is_connected());
    assert_eq!(session.handle(), None);
    assert_eq!(session.url(), "nats://localhost:4222");
    assert_eq!(session.credentials(), &Credentials::Anonymous);
}

#[test]
fn user_and_password_come_first() {
    let session: NatsClient<u32> = NatsClient::new(
        text("u"),
        Some(text("ann")),
        Some(text("secret")),
        Some(text("tok")),
        Some(text("file.creds")),
    );
    assert_eq!(
        session.credentials(),
        &Credentials::UserPass { user: text("ann"), pass: text("secret") }
    );
}

#[test]
fn token_comes_before_credentials_file() {
    let session: NatsClient<u32> =
        NatsClient::new(text("u"), None, None, Some(text("tok")), Some(text("file.creds")));
    assert_eq!(session.credentials(), &Credentials::Token { token: text("tok") });
}

#[test]
fn credentials_file_comes_last() {
    let session: NatsClient<u32> =
        NatsClient::new(text("u"), None, None, None, Some(text("file.creds")));
    assert_eq!(
        session.credentials(),
        &Credentials::CredentialsFile { path: text("file.creds") }
    );
}

#[test]
fn user_without_password_is_not_a_pair() {
    assert_eq!(
        Credentials::resolve(Some(text("ann")), None, Some(text("tok")), None),
        Credentials::Token { token: text("tok") }
    );
    assert_eq!(
        Credentials::resolve(None, Some(text("secret")), None, Some(text("f"))),
        Credentials::CredentialsFile { path: text("f") }
    );
    assert_eq!(
        Credentials::resolve(Some(text("ann")), None, None, None),
        Credentials::Anonymous
    );
}

#[test]
fn connect_options_describe_the_dial() {
    let session: NatsClient<u32> =
        NatsClient::new(text("nats://broker:4222"), None, None, Some(text("tok")), None);
    assert_eq!(
        session.connect_options(),
        Ok(ConnectOptions {
            url: text("nats://broker:4222"),
            credentials: Credentials::Token { token: text("tok") },
            name: text("nats-spy"),
            max_reconnects: 10,
        })
    );
    assert_eq!(CLIENT_NAME, "nats-spy");
    assert_eq!(MAX_RECONNECTS, 10);
}

#[test]
fn connect_options_refused_while_connected() {
    let session = connected_session(7);
    assert_eq!(session.connect_options(), Err(SessionError::AlreadyConnected));
}

#[test]
fn connect_keeps_the_handle() {
    let mut session = session();
    assert_eq!(session.connect(Ok(7)), Ok(()));
    assert_eq!(session.status(), Status::Connected);
    assert!(session.is_connected());
    assert_eq!(session.handle(), Some(&7));
}

#[test]
fn failed_dial_leaves_the_session_disconnected() {
    let mut session = session();
    assert_eq!(
        session.connect(Err(text("connection refused"))),
        Err(SessionError::ConnectionError(text("connection refused")))
    );
    assert_eq!(session.status(), Status::Disconnected);
    assert_eq!(session.handle(), None);
    assert_eq!(session.publish(text("a"), text("b")), Err(SessionError::NotConnected));
    assert_eq!(session.connect(Ok(3)), Ok(()));
    assert_eq!(session.handle(), Some(&3));
}

#[test]
fn connect_while_connected_changes_nothing() {
    let mut session: NatsClient<u32> =
        NatsClient::new(text("nats://a"), Some(text("u")), Some(text("p")), None, None);
    assert_eq!(session.connect(Ok(1)), Ok(()));
    assert_eq!(session.connect(Ok(2)), Err(SessionError::AlreadyConnected));
    assert_eq!(session.status(), Status::Connected);
    assert_eq!(session.handle(), Some(&1));
    assert_eq!(session.url(), "nats://a");
    assert_eq!(
        session.credentials(),
        &Credentials::UserPass { user: text("u"), pass: text("p") }
    );
    assert_eq!(session.connect(Err(text("down"))), Err(SessionError::AlreadyConnected));
    assert_eq!(session.handle(), Some(&1));
}

#[test]
fn drain_twice_stays_disconnected() {
    let mut session = connected_session(5);
    assert_eq!(session.drain(), Some(5));
    assert_eq!(session.status(), Status::Disconnected);
    assert_eq!(session.drain(), None);
    assert_eq!(session.status(), Status::Disconnected);
    assert_eq!(session.url(), "nats://localhost:4222");
}

#[test]
fn drain_of_a_fresh_session_is_a_no_op() {
    let mut session = session();
    assert_eq!(session.drain(), None);
    assert_eq!(session.status(), Status::Disconnected);
}

#[test]
fn session_can_connect_again_after_drain() {
    let mut session = connected_session(5);
    assert_eq!(session.drain(), Some(5));
    assert_eq!(session.connect(Ok(6)), Ok(()));
    assert_eq!(session.handle(), Some(&6));
}

#[test]
fn publish_with_empty_subject_is_refused() {
    let connected = connected_session(1);
    assert_eq!(connected.publish(text(""), text("anything")), Err(SessionError::EmptySubject));
    assert_eq!(connected.publish(text(""), text("")), Err(SessionError::EmptySubject));
    let disconnected = session();
    assert_eq!(
        disconnected.publish(text(""), text("anything")),
        Err(SessionError::EmptySubject)
    );
}

#[test]
fn publish_needs_a_connection() {
    let session = session();
    assert_eq!(session.publish(text("orders.new"), text("x")), Err(SessionError::NotConnected));
}

#[test]
fn publish_hands_out_what_to_send() {
    let session = connected_session(1);
    assert_eq!(
        session.publish(text("orders.new"), text("hello")),
        Ok(Publication { subject: text("orders.new"), payload: text("hello") })
    );
    assert_eq!(
        session.publish(text("orders.new"), text("")),
        Ok(Publication { subject: text("orders.new"), payload: text("") })
    );
}

#[test]
fn request_is_checked_as_publish_is() {
    let connected = connected_session(1);
    assert_eq!(connected.request(text(""), text("x"), 1000), Err(SessionError::EmptySubject));
    assert_eq!(
        connected.request(text("svc.time"), text("now"), 250),
        Ok(Request { subject: text("svc.time"), payload: text("now"), timeout_ms: 250 })
    );
    let disconnected = session();
    assert_eq!(disconnected.request(text(""), text("x"), 1000), Err(SessionError::EmptySubject));
    assert_eq!(
        disconnected.request(text("svc.time"), text("x"), 1000),
        Err(SessionError::NotConnected)
    );
}

#[test]
fn subscribe_with_empty_subject() {
    let connected = connected_session(1);
    assert_eq!(connected.subscribe(text("")), Err(SessionError::EmptySubject));
    let disconnected = session();
    assert_eq!(disconnected.subscribe(text("")), Err(SessionError::NotConnected));
}

#[test]
fn subscribe_needs_a_connection() {
    let disconnected = session();
    assert_eq!(disconnected.subscribe(text("orders.*")), Err(SessionError::NotConnected));
    let connected = connected_session(1);
    assert_eq!(connected.subscribe(text("orders.*")), Ok(text("orders.*")));
}

#[test]
fn subscribe_outcome_wraps_the_stream() {
    assert_eq!(
        subscribe_outcome(text("orders.*"), Ok::<u8, String>(9)),
        Ok(Subscription { subject: text("orders.*"), stream: 9 })
    );
    assert_eq!(
        subscribe_outcome(text("orders.*"), Err::<u8, String>(text("bad subject"))),
        Err(SessionError::SubscribeError(text("bad subject")))
    );
}

#[test]
fn publish_outcome_reports_the_transport() {
    assert_eq!(publish_outcome(Ok(())), Ok(()));
    assert_eq!(
        publish_outcome(Err(text("broken pipe"))),
        Err(SessionError::PublishError(text("broken pipe")))
    );
}

#[test]
fn request_without_reply_times_out() {
    assert_eq!(
        request_outcome(Err(RequestFailure::TimedOut)),
        Err(SessionError::RequestTimeout)
    );
}

#[test]
fn request_outcome_hands_the_reply_on() {
    let reply = Message { subject: text("_INBOX.1"), payload: b"12:00".to_vec() };
    assert_eq!(
        request_outcome(Ok(Message { subject: text("_INBOX.1"), payload: b"12:00".to_vec() })),
        Ok(reply)
    );
    assert_eq!(
        request_outcome(Err(RequestFailure::Failed(text("broken pipe")))),
        Err(SessionError::PublishError(text("broken pipe")))
    );
}

#[test]
fn errors_describe_themselves() {
    assert_eq!(
        SessionError::ConnectionError(text("refused")).describe(),
        "Cannot connect. refused"
    );
    assert_eq!(SessionError::AlreadyConnected.describe(), "Already connected.");
    assert_eq!(
        SessionError::SubscribeError(text("bad subject")).describe(),
        "Cannot subscribe. bad subject"
    );
    assert_eq!(SessionError::NotConnected.describe(), "Connection cannot established.");
    assert_eq!(SessionError::EmptySubject.describe(), "Subject is empty!");
    assert_eq!(
        SessionError::PublishError(text("broken pipe")).describe(),
        "Cannot publish. broken pipe"
    );
    assert_eq!(SessionError::RequestTimeout.describe(), "Request timed out.");
}

#[test]
fn credentials_clone_is_equal() {
    let all = vec![
        Credentials::Anonymous,
        Credentials::UserPass { user: text("u"), pass: text("p") },
        Credentials::Token { token: text("t") },
        Credentials::CredentialsFile { path: text("f") },
    ];
    for credentials in all.iter() {
        assert_eq!(&credentials.clone(), credentials);
    }
}
