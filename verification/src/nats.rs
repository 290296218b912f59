//! The broker session: one connection, its credentials and its lifecycle.
//!
//! The session decides and validates; it never touches the network. Each
//! operation comes in two steps. The first (`connect_options`, `subscribe`,
//! `publish`, `request`, `drain`) checks the session's state and the
//! arguments and says what the transport has to do. The caller does that
//! work on the connection handle and hands the outcome to the second step
//! (`connect`, `subscribe_outcome`, `publish_outcome`, `request_outcome`),
//! which turns it into the session's own result.

use vstd::prelude::*;
use vstd::string::StringExecFns;

verus! {

/// The address of a broker on this machine, dialled where none is given.
pub const DEFAULT_URL: &'static str = "nats://localhost:4222";

/// The subject that matches every message, subscribed to where none is
/// given.
pub const DEFAULT_SUBJECT: &'static str = ">";

/// The name under which the console announces itself to the broker.
pub const CLIENT_NAME: &'static str = "nats-spy";

/// How often a lost connection is dialled again before it is given up.
pub const MAX_RECONNECTS: usize = 10;

/// How the session authenticates. Exactly one variant is active.
#[derive(Debug, PartialEq, Eq)]
pub enum Credentials {
    /// No credentials at all.
    Anonymous,
    UserPass { user: String, pass: String },
    Token { token: String },
    CredentialsFile { path: String },
}

impl Credentials {
    /// The variant chosen when several are supplied: user and password
    /// together come first, then a token, then a credentials file.
    pub open spec fn resolved(
        username: Option<String>,
        password: Option<String>,
        token: Option<String>,
        credentials: Option<String>,
    ) -> Credentials {
        if username is Some && password is Some {
            Credentials::UserPass { user: username->0, pass: password->0 }
        } else if token is Some {
            Credentials::Token { token: token->0 }
        } else if credentials is Some {
            Credentials::CredentialsFile { path: credentials->0 }
        } else {
            Credentials::Anonymous
        }
    }

    /// Picks the active variant among the credentials supplied.
    pub fn resolve(
        username: Option<String>,
        password: Option<String>,
        token: Option<String>,
        credentials: Option<String>,
    ) -> (chosen: Credentials)
        ensures
            chosen == Credentials::resolved(username, password, token, credentials),
    {
        match (username, password, token, credentials) {
            (Some(user), Some(pass), _, _) => Credentials::UserPass { user, pass },
            (_, _, Some(token), _) => Credentials::Token { token },
            (_, _, _, Some(path)) => Credentials::CredentialsFile { path },
            _ => Credentials::Anonymous,
        }
    }
}

impl Clone for Credentials {
    fn clone(&self) -> (copy: Credentials)
        ensures
            copy == *self,
    {
        match self {
            Credentials::Anonymous => Credentials::Anonymous,
            Credentials::UserPass { user, pass } => Credentials::UserPass {
                user: user.clone(),
                pass: pass.clone(),
            },
            Credentials::Token { token } => Credentials::Token { token: token.clone() },
            Credentials::CredentialsFile { path } => Credentials::CredentialsFile {
                path: path.clone(),
            },
        }
    }
}

/// Whether the session holds a connection.
#[derive(Clone, Copy, Debug, PartialEq, Eq, Structural)]
pub enum Status {
    Disconnected,
    Connected,
}

/// Why an operation of the session failed.
#[derive(Debug, PartialEq, Eq)]
pub enum SessionError {
    /// The transport could not establish the connection; its report.
    ConnectionError(String),
    /// `connect` on a session that is connected.
    AlreadyConnected,
    /// The broker refused the subscription; its report.
    SubscribeError(String),
    /// An operation that needs a connection, on a session without one.
    NotConnected,
    /// An empty subject.
    EmptySubject,
    /// The transport could not send the message; its report.
    PublishError(String),
    /// No reply arrived within the time allowed.
    RequestTimeout,
}

impl SessionError {
    /// The text under which the error is logged.
    pub open spec fn spec_describe(self) -> Seq<char> {
        match self {
            SessionError::ConnectionError(report) => "Cannot connect. "@ + report@,
            SessionError::AlreadyConnected => "Already connected."@,
            SessionError::SubscribeError(report) => "Cannot subscribe. "@ + report@,
            SessionError::NotConnected => "Connection cannot established."@,
            SessionError::EmptySubject => "Subject is empty!"@,
            SessionError::PublishError(report) => "Cannot publish. "@ + report@,
            SessionError::RequestTimeout => "Request timed out."@,
        }
    }

    /// The text under which the error is logged.
    pub fn describe(&self) -> (text: String)
        ensures
            text@ == self.spec_describe(),
    {
        match self {
            SessionError::ConnectionError(report) => String::from_str("Cannot connect. ").concat(
                report.as_str(),
            ),
            SessionError::AlreadyConnected => String::from_str("Already connected."),
            SessionError::SubscribeError(report) => String::from_str("Cannot subscribe. ").concat(
                report.as_str(),
            ),
            SessionError::NotConnected => String::from_str("Connection cannot established."),
            SessionError::EmptySubject => String::from_str("Subject is empty!"),
            SessionError::PublishError(report) => String::from_str("Cannot publish. ").concat(
                report.as_str(),
            ),
            SessionError::RequestTimeout => String::from_str("Request timed out."),
        }
    }
}

/// A message of the broker: where it was sent and what it carries.
#[derive(Debug, PartialEq, Eq)]
pub struct Message {
    pub subject: String,
    pub payload: Vec<u8>,
}

/// What the transport needs to dial the broker.
#[derive(Debug, PartialEq, Eq)]
pub struct ConnectOptions {
    pub url: String,
    pub credentials: Credentials,
    /// The client name to announce.
    pub name: String,
    /// The bound on automatic reconnection attempts.
    pub max_reconnects: usize,
}

/// A message that passed the session's checks and is to be sent.
#[derive(Debug, PartialEq, Eq)]
pub struct Publication {
    pub subject: String,
    pub payload: String,
}

/// A request that passed the session's checks and is to be sent, with the
/// time to wait for its reply.
#[derive(Debug, PartialEq, Eq)]
pub struct Request {
    pub subject: String,
    pub payload: String,
    pub timeout_ms: u64,
}

/// How a request ended without a reply.
#[derive(Debug, PartialEq, Eq)]
pub enum RequestFailure {
    /// The time allowed ran out.
    TimedOut,
    /// The transport failed before that; its report.
    Failed(String),
}

/// A subscription that the broker accepted: its subject and the stream of
/// its messages, which the session never looks into.
#[derive(Debug, PartialEq, Eq)]
pub struct Subscription<S> {
    pub subject: String,
    pub stream: S,
}

/// What a session is, as the contracts speak of it.
pub struct SessionView<C> {
    pub url: String,
    pub credentials: Credentials,
    /// The connection handle, while the session is connected.
    pub handle: Option<C>,
}

impl<C> SessionView<C> {
    pub open spec fn connected(self) -> bool {
        self.handle is Some
    }

    pub open spec fn status(self) -> Status {
        if self.handle is Some {
            Status::Connected
        } else {
            Status::Disconnected
        }
    }

    /// The session with its connection given up.
    pub open spec fn drained(self) -> SessionView<C> {
        SessionView { url: self.url, credentials: self.credentials, handle: None }
    }

    /// The session holding `handle`.
    pub open spec fn attached(self, handle: C) -> SessionView<C> {
        SessionView { url: self.url, credentials: self.credentials, handle: Some(handle) }
    }

    /// What `subscribe` answers in this state.
    pub open spec fn subscribe_result(self, subject: String) -> Result<String, SessionError> {
        if !self.connected() {
            Err(SessionError::NotConnected)
        } else if subject@.len() == 0 {
            Err(SessionError::EmptySubject)
        } else {
            Ok(subject)
        }
    }

    /// What `publish` answers in this state.
    pub open spec fn publish_result(self, subject: String, message: String) -> Result<
        Publication,
        SessionError,
    > {
        if subject@.len() == 0 {
            Err(SessionError::EmptySubject)
        } else if !self.connected() {
            Err(SessionError::NotConnected)
        } else {
            Ok(Publication { subject, payload: message })
        }
    }

    /// What `request` answers in this state.
    pub open spec fn request_result(
        self,
        subject: String,
        message: String,
        timeout_ms: u64,
    ) -> Result<Request, SessionError> {
        if subject@.len() == 0 {
            Err(SessionError::EmptySubject)
        } else if !self.connected() {
            Err(SessionError::NotConnected)
        } else {
            Ok(Request { subject, payload: message, timeout_ms })
        }
    }
}

/// The session. `C` is the transport's connection handle, which the session
/// keeps and hands out but never looks into.
pub struct NatsClient<C> {
    url: String,
    credentials: Credentials,
    client: Option<C>,
}

impl<C> View for NatsClient<C> {
    type V = SessionView<C>;

    closed spec fn view(&self) -> SessionView<C> {
        SessionView { url: self.url, credentials: self.credentials, handle: self.client }
    }
}

impl<C> NatsClient<C> {
    /// A disconnected session for the broker at `host`, with the credentials
    /// that take precedence among those supplied.
    pub fn new(
        host: String,
        username: Option<String>,
        password: Option<String>,
        token: Option<String>,
        credentials: Option<String>,
    ) -> (session: Self)
        ensures
            session@.url == host,
            session@.credentials == Credentials::resolved(username, password, token, credentials),
            session@.handle is None,
    {
        NatsClient {
            url: host,
            credentials: Credentials::resolve(username, password, token, credentials),
            client: None,
        }
    }

    pub fn url(&self) -> (url: &String)
        ensures
            *url == self@.url,
    {
        &self.url
    }

    pub fn credentials(&self) -> (credentials: &Credentials)
        ensures
            *credentials == self@.credentials,
    {
        &self.credentials
    }

    pub fn status(&self) -> (status: Status)
        ensures
            status == self@.status(),
    {
        if self.client.is_some() {
            Status::Connected
        } else {
            Status::Disconnected
        }
    }

    pub fn is_connected(&self) -> (connected: bool)
        ensures
            connected == self@.connected(),
    {
        self.client.is_some()
    }

    /// The connection handle, for the transport work that an operation asked
    /// for.
    pub fn handle(&self) -> (handle: Option<&C>)
        ensures
            handle is Some == self@.handle is Some,
            handle is Some ==> *handle->0 == self@.handle->0,
    {
        self.client.as_ref()
    }

    /// First step of connecting: refuses with `AlreadyConnected` while a
    /// connection is held, and otherwise says what to dial: the session's
    /// URL and credentials, the client's name and the reconnection bound.
    pub fn connect_options(&self) -> (plan: Result<ConnectOptions, SessionError>)
        ensures
            self@.connected() ==> plan == Err::<ConnectOptions, SessionError>(
                SessionError::AlreadyConnected,
            ),
            !self@.connected() ==> plan is Ok && plan->Ok_0.url == self@.url
                && plan->Ok_0.credentials == self@.credentials && plan->Ok_0.name@
                == CLIENT_NAME@ && plan->Ok_0.max_reconnects == MAX_RECONNECTS,
    {
        if self.client.is_some() {
            Err(SessionError::AlreadyConnected)
        } else {
            Ok(
                ConnectOptions {
                    url: self.url.clone(),
                    credentials: self.credentials.clone(),
                    name: String::from_str(CLIENT_NAME),
                    max_reconnects: MAX_RECONNECTS,
                },
            )
        }
    }

    /// Second step of connecting: takes what dialling gave. A session that
    /// is connected refuses with `AlreadyConnected` and stays as it was. A
    /// disconnected one keeps the handle of a successful dial and is then
    /// connected; a failed dial leaves it disconnected and is reported as
    /// `ConnectionError`.
    pub fn connect(&mut self, dialed: Result<C, String>) -> (result: Result<(), SessionError>)
        ensures
            old(self)@.connected() ==> result == Err::<(), SessionError>(
                SessionError::AlreadyConnected,
            ) && final(self)@ == old(self)@,
            !old(self)@.connected() && dialed is Ok ==> result is Ok && final(self)@ == old(
                self,
            )@.attached(dialed->Ok_0),
            !old(self)@.connected() && dialed is Err ==> result == Err::<(), SessionError>(
                SessionError::ConnectionError(dialed->Err_0),
            ) && final(self)@ == old(self)@,
    {
        if self.client.is_some() {
            return Err(SessionError::AlreadyConnected);
        }
        match dialed {
            Ok(handle) => {
                self.client = Some(handle);
                Ok(())
            },
            Err(report) => Err(SessionError::ConnectionError(report)),
        }
    }

    /// Gives the connection up. The handle that was held is returned, for
    /// the caller to flush and close; the session is disconnected afterwards,
    /// whatever it was before.
    pub fn drain(&mut self) -> (released: Option<C>)
        ensures
            released == old(self)@.handle,
            final(self)@ == old(self)@.drained(),
    {
        self.client.take()
    }

    /// Checks a subscription before it is sent: a connection first, then a
    /// subject that is not empty. `Ok` holds the subject to subscribe to.
    pub fn subscribe(&self, subject: String) -> (result: Result<String, SessionError>)
        ensures
            result == self@.subscribe_result(subject),
    {
        if self.client.is_none() {
            Err(SessionError::NotConnected)
        } else if subject.as_str().is_empty() {
            Err(SessionError::EmptySubject)
        } else {
            Ok(subject)
        }
    }

    /// Checks a message before it is sent: a subject that is not empty
    /// first, then a connection. `Ok` holds what to send.
    pub fn publish(&self, subject: String, message: String) -> (result: Result<
        Publication,
        SessionError,
    >)
        ensures
            result == self@.publish_result(subject, message),
    {
        if subject.as_str().is_empty() {
            Err(SessionError::EmptySubject)
        } else if self.client.is_none() {
            Err(SessionError::NotConnected)
        } else {
            Ok(Publication { subject, payload: message })
        }
    }

    /// Checks a request before it is sent, as `publish` checks a message.
    /// `Ok` holds what to send and how long to wait for the reply.
    pub fn request(&self, subject: String, message: String, timeout_ms: u64) -> (result: Result<
        Request,
        SessionError,
    >)
        ensures
            result == self@.request_result(subject, message, timeout_ms),
    {
        if subject.as_str().is_empty() {
            Err(SessionError::EmptySubject)
        } else if self.client.is_none() {
            Err(SessionError::NotConnected)
        } else {
            Ok(Request { subject, payload: message, timeout_ms })
        }
    }
}

/// What a subscription attempt comes to: the subscription where the broker
/// accepted it, `SubscribeError` with the broker's report where it did not.
pub fn subscribe_outcome<S>(subject: String, outcome: Result<S, String>) -> (result: Result<
    Subscription<S>,
    SessionError,
>)
    ensures
        outcome is Ok ==> result == Ok::<Subscription<S>, SessionError>(
            Subscription { subject, stream: outcome->Ok_0 },
        ),
        outcome is Err ==> result == Err::<Subscription<S>, SessionError>(
            SessionError::SubscribeError(outcome->Err_0),
        ),
{
    match outcome {
        Ok(stream) => Ok(Subscription { subject, stream }),
        Err(report) => Err(SessionError::SubscribeError(report)),
    }
}

/// What sending a message comes to: `PublishError` with the transport's
/// report where it failed.
pub fn publish_outcome(outcome: Result<(), String>) -> (result: Result<(), SessionError>)
    ensures
        outcome is Ok ==> result is Ok,
        outcome is Err ==> result == Err::<(), SessionError>(
            SessionError::PublishError(outcome->Err_0),
        ),
{
    match outcome {
        Ok(()) => Ok(()),
        Err(report) => Err(SessionError::PublishError(report)),
    }
}

/// What a request comes to: the reply where one arrived in time,
/// `RequestTimeout` where none did, and `PublishError` with the transport's
/// report where the request could not be sent.
pub fn request_outcome(outcome: Result<Message, RequestFailure>) -> (result: Result<
    Message,
    SessionError,
>)
    ensures
        outcome is Ok ==> result == Ok::<Message, SessionError>(outcome->Ok_0),
        outcome == Err::<Message, RequestFailure>(RequestFailure::TimedOut) ==> result == Err::<
            Message,
            SessionError,
        >(SessionError::RequestTimeout),
        outcome is Err && outcome->Err_0 is Failed ==> result == Err::<Message, SessionError>(
            SessionError::PublishError(outcome->Err_0->Failed_0),
        ),
{
    match outcome {
        Ok(reply) => Ok(reply),
        Err(RequestFailure::TimedOut) => Err(SessionError::RequestTimeout),
        Err(RequestFailure::Failed(report)) => Err(SessionError::PublishError(report)),
    }
}

/// Draining is idempotent: a session drained twice is as a session drained
/// once, disconnected both times, and the second drain releases nothing.
pub proof fn lemma_drain_idempotent<C>(session: SessionView<C>)
    ensures
        session.drained().status() == Status::Disconnected,
        session.drained().drained() == session.drained(),
        session.drained().drained().status() == Status::Disconnected,
        session.drained().handle is None,
{
}

/// An empty subject is refused before anything else is looked at: whatever
/// the session's state and whatever the message, `publish` fails with
/// `EmptySubject` and hands out nothing to send.
pub proof fn lemma_empty_subject_is_never_published<C>(
    session: SessionView<C>,
    subject: String,
    message: String,
)
    requires
        subject@.len() == 0,
    ensures
        session.publish_result(subject, message) == Err::<Publication, SessionError>(
            SessionError::EmptySubject,
        ),
{
}

/// Success is owed exactly where the session is connected and the subject
/// is not empty: then, and only then, `subscribe`, `publish` and `request`
/// hand out something to send.
pub proof fn lemma_checked_operations<C>(
    session: SessionView<C>,
    subject: String,
    message: String,
    timeout_ms: u64,
)
    ensures
        session.subscribe_result(subject) is Ok <==> session.connected() && subject@.len() > 0,
        session.publish_result(subject, message) is Ok <==> session.connected() && subject@.len()
            > 0,
        session.request_result(subject, message, timeout_ms) is Ok <==> session.connected()
            && subject@.len() > 0,
{
}

} // verus!
