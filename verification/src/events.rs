//! The event aggregator: one queue into which the keyboard, the ticker and
//! the broker session put their events, and from which the interaction loop
//! takes them, first come, first served.
//!
//! The aggregator also owns the session and turns each outcome of a session
//! operation into events: a reply becomes a broker message, a failure
//! becomes a log record. Nothing here blocks or performs I/O; a caller that
//! shares the aggregator between producers keeps it under a lock and waits
//! while `next` has nothing to give.

use crate::application::Command;
use crate::keys::Event;
use crate::log::{Level, Log};
use crate::nats::{
    publish_outcome, request_outcome, subscribe_outcome, ConnectOptions, Credentials, Message,
    NatsClient, Publication, Request, RequestFailure, SessionError, SessionView, Subscription,
    CLIENT_NAME, MAX_RECONNECTS,
};
use std::collections::VecDeque;
use vstd::prelude::*;
use vstd::string::StringExecFns;

verus! {

/// How long a request issued from the console waits for its reply.
pub const REQUEST_TIMEOUT_MS: u64 = 1000;

/// The time between two wake-ups of the ticker.
pub const TICK_INTERVAL_MS: u64 = 200;

/// What the listener logs before it dials.
pub const TRYING: &'static str = "Trying to connect NATS Server...";

/// What the listener logs once the session is connected.
pub const CONNECTED: &'static str = "Connected to NATS Server.";

/// What is logged when the transport reports that the connection broke.
pub const LOST: &'static str = "Connection has been lost.";

/// What is logged when the transport reports that it dialled again with
/// success.
pub const REESTABLISHED: &'static str = "Connection has been reestablished.";

/// The record of a message that was sent to `subject`.
pub open spec fn sent_text(subject: Seq<char>) -> Seq<char> {
    "Message send to subject '"@ + subject + "'"@
}

/// The record of a request that is about to be sent to `subject`.
pub open spec fn requested_text(subject: Seq<char>) -> Seq<char> {
    "Subject '"@ + subject + "' requested."@
}

/// One event of the merged stream.
#[derive(Debug, PartialEq, Eq)]
pub enum InputEvent {
    /// A raw terminal event.
    Input(Event),
    /// A message of the broker: its subject and its payload.
    Messages(String, Vec<u8>),
    /// The periodic wake-up.
    Tick,
    /// A record for the log display.
    Logs(Log),
}

/// Who puts events into the queue.
#[derive(Clone, Copy, Debug, PartialEq, Eq, Structural)]
pub enum Producer {
    Keyboard,
    Ticker,
    Broker,
}

/// An event as the contracts speak of it: texts as sequences of characters,
/// payloads as sequences of bytes.
pub enum EventView {
    Input(Event),
    Messages(Seq<char>, Seq<u8>),
    Tick,
    Logs(Level, Seq<char>),
}

impl EventView {
    /// The one producer that emits events of this kind.
    pub open spec fn producer(self) -> Producer {
        match self {
            EventView::Input(_) => Producer::Keyboard,
            EventView::Tick => Producer::Ticker,
            EventView::Messages(_, _) => Producer::Broker,
            EventView::Logs(_, _) => Producer::Broker,
        }
    }
}

impl View for InputEvent {
    type V = EventView;

    open spec fn view(&self) -> EventView {
        match *self {
            InputEvent::Input(raw) => EventView::Input(raw),
            InputEvent::Messages(subject, payload) => EventView::Messages(subject@, payload@),
            InputEvent::Tick => EventView::Tick,
            InputEvent::Logs(record) => EventView::Logs(record.level, record.text@),
        }
    }
}

impl Clone for InputEvent {
    fn clone(&self) -> (copy: InputEvent)
        ensures
            copy@ == self@,
    {
        match self {
            InputEvent::Input(raw) => InputEvent::Input(*raw),
            InputEvent::Messages(subject, payload) => InputEvent::Messages(
                subject.clone(),
                payload.clone(),
            ),
            InputEvent::Tick => InputEvent::Tick,
            InputEvent::Logs(record) => InputEvent::Logs(record.clone()),
        }
    }
}

impl InputEvent {
    /// The one producer that emits events of this kind.
    pub fn producer(&self) -> (who: Producer)
        ensures
            who == self@.producer(),
    {
        match self {
            InputEvent::Input(_) => Producer::Keyboard,
            InputEvent::Tick => Producer::Ticker,
            InputEvent::Messages(_, _) => Producer::Broker,
            InputEvent::Logs(_) => Producer::Broker,
        }
    }
}

/// The events of `events` that `who` emitted, in their order.
pub open spec fn emitted_by(events: Seq<EventView>, who: Producer) -> Seq<EventView> {
    events.filter(|event: EventView| event.producer() == who)
}

/// The views of the events of a queue, front first.
pub open spec fn views(queue: Seq<InputEvent>) -> Seq<EventView> {
    queue.map_values(|event: InputEvent| event@)
}

/// What the aggregator is, as the contracts speak of it.
pub struct EventsView<C> {
    /// The events that arrived and were not taken yet, oldest first.
    pub pending: Seq<EventView>,
    pub session: SessionView<C>,
    /// The subject that the listener subscribes to.
    pub subject: String,
}

impl<C> EventsView<C> {
    /// The aggregator after `event` arrived.
    pub open spec fn received(self, event: EventView) -> EventsView<C> {
        EventsView {
            pending: self.pending.push(event),
            session: self.session,
            subject: self.subject,
        }
    }

    /// The aggregator after a log record arrived.
    pub open spec fn logged(self, level: Level, text: Seq<char>) -> EventsView<C> {
        self.received(EventView::Logs(level, text))
    }

    /// The aggregator with its session replaced.
    pub open spec fn with_session(self, session: SessionView<C>) -> EventsView<C> {
        EventsView { pending: self.pending, session, subject: self.subject }
    }

    /// The aggregator after its oldest event was taken, if it had one.
    pub open spec fn taken(self) -> EventsView<C> {
        if self.pending.len() == 0 {
            self
        } else {
            EventsView {
                pending: self.pending.drop_first(),
                session: self.session,
                subject: self.subject,
            }
        }
    }

    /// The aggregator after the listener announced that it starts.
    pub open spec fn connecting(self) -> EventsView<C> {
        let announced = self.logged(Level::Info, TRYING@);
        if self.session.connected() {
            announced.logged(Level::Error, SessionError::AlreadyConnected.spec_describe())
        } else {
            announced
        }
    }

    /// The aggregator after the listener learned what dialling gave.
    pub open spec fn dialed(self, outcome: Result<C, String>) -> EventsView<C> {
        if self.session.connected() {
            self.logged(Level::Error, SessionError::AlreadyConnected.spec_describe())
        } else {
            match outcome {
                Ok(handle) => {
                    let up = self.with_session(self.session.attached(handle)).logged(
                        Level::Info,
                        CONNECTED@,
                    );
                    if self.subject@.len() == 0 {
                        up.logged(Level::Error, SessionError::EmptySubject.spec_describe())
                    } else {
                        up
                    }
                },
                Err(report) => self.logged(
                    Level::Error,
                    SessionError::ConnectionError(report).spec_describe(),
                ),
            }
        }
    }

    /// The aggregator after the console asked to publish.
    pub open spec fn publishing(self, subject: String, message: String) -> EventsView<C> {
        match self.session.publish_result(subject, message) {
            Ok(_) => self,
            Err(error) => self.logged(Level::Error, error.spec_describe()),
        }
    }

    /// The aggregator after the console asked for a request.
    pub open spec fn requesting(self, subject: String, message: String) -> EventsView<C> {
        if subject@.len() == 0 {
            self.logged(Level::Error, SessionError::EmptySubject.spec_describe())
        } else {
            let announced = self.logged(Level::Info, requested_text(subject@));
            if self.session.connected() {
                announced
            } else {
                announced.logged(Level::Error, SessionError::NotConnected.spec_describe())
            }
        }
    }
}

/// What the caller has to do after the aggregator executed a command of the
/// interaction loop.
#[derive(Debug, PartialEq, Eq)]
pub enum Effect<C> {
    /// Nothing.
    Nothing,
    /// Leave the loop, after flushing and closing the connection that the
    /// session released, if it held one.
    Leave(Option<C>),
    /// Send the message, and report the outcome with `published`.
    Publish(Publication),
    /// Send the request, and report the outcome with `replied`.
    Request(Request),
    /// Hand the record to the log display.
    Show(Log),
}

/// The aggregator. `C` is the transport's connection handle.
pub struct Events<C> {
    queue: VecDeque<InputEvent>,
    nats_client: NatsClient<C>,
    subject: String,
}

impl<C> View for Events<C> {
    type V = EventsView<C>;

    closed spec fn view(&self) -> EventsView<C> {
        EventsView {
            pending: views(self.queue@),
            session: self.nats_client@,
            subject: self.subject,
        }
    }
}

impl<C> Events<C> {
    /// An aggregator with nothing pending and a disconnected session for the
    /// broker at `nats_url`, whose listener will subscribe to `subject`.
    pub fn new(
        nats_url: String,
        subject: String,
        username: Option<String>,
        password: Option<String>,
        token: Option<String>,
        credentials: Option<String>,
    ) -> (events: Self)
        ensures
            events@.pending == Seq::<EventView>::empty(),
            events@.subject == subject,
            events@.session.url == nats_url,
            events@.session.credentials == Credentials::resolved(
                username,
                password,
                token,
                credentials,
            ),
            events@.session.handle is None,
    {
        let events = Events {
            queue: VecDeque::new(),
            nats_client: NatsClient::new(nats_url, username, password, token, credentials),
            subject,
        };
        assert(views(events.queue@) =~= Seq::<EventView>::empty());
        events
    }

    /// The session that the aggregator owns.
    pub fn session(&self) -> (session: &NatsClient<C>)
        ensures
            session@ == self@.session,
    {
        &self.nats_client
    }

    /// The subject that the listener subscribes to.
    pub fn subject(&self) -> (subject: &String)
        ensures
            *subject == self@.subject,
    {
        &self.subject
    }

    /// How many events wait to be taken.
    pub fn pending(&self) -> (count: usize)
        ensures
            count == self@.pending.len(),
    {
        self.queue.len()
    }

    /// A producer's side of the queue: `event` arrives behind all that wait.
    pub fn send(&mut self, event: InputEvent)
        ensures
            final(self)@ == old(self)@.received(event@),
    {
        self.queue.push_back(event);
        assert(views(self.queue@) =~= views(old(self).queue@).push(event@));
    }

    /// The consumer's side of the queue: takes the event that has waited
    /// longest, or `None` while nothing waits.
    pub fn next(&mut self) -> (event: Option<InputEvent>)
        ensures
            final(self)@ == old(self)@.taken(),
            old(self)@.pending.len() == 0 ==> event is None,
            old(self)@.pending.len() > 0 ==> event is Some && event->0@ == old(self)@.pending[0],
    {
        let event = self.queue.pop_front();
        assert(views(self.queue@) =~= if old(self)@.pending.len() == 0 {
            old(self)@.pending
        } else {
            old(self)@.pending.drop_first()
        });
        event
    }

    /// Puts a log record into the queue.
    fn log(&mut self, level: Level, text: String)
        ensures
            final(self)@ == old(self)@.logged(level, text@),
    {
        self.send(InputEvent::Logs(Log::new(level, text)));
    }

    /// Puts the record of a failed operation into the queue.
    fn log_error(&mut self, error: &SessionError)
        ensures
            final(self)@ == old(self)@.logged(Level::Error, error.spec_describe()),
    {
        self.log(Level::Error, error.describe());
    }

    /// The listener starts: it announces the attempt and asks the session
    /// what to dial. `None`, with the refusal logged, where the session is
    /// connected already.
    pub fn connect(&mut self) -> (plan: Option<ConnectOptions>)
        ensures
            final(self)@ == old(self)@.connecting(),
            plan is Some == !old(self)@.session.connected(),
            plan is Some ==> plan->0.url == old(self)@.session.url && plan->0.credentials == old(
                self,
            )@.session.credentials && plan->0.name@ == CLIENT_NAME@
                && plan->0.max_reconnects == MAX_RECONNECTS,
    {
        self.log(Level::Info, String::from_str(TRYING));
        match self.nats_client.connect_options() {
            Ok(plan) => Some(plan),
            Err(error) => {
                self.log_error(&error);
                None
            },
        }
    }

    /// The listener learns what dialling gave. Where the session is then
    /// connected, that is logged and the subscription is checked: `Some`
    /// holds the subject to subscribe to. Every failure is logged and gives
    /// `None`: the listener stops.
    pub fn connected(&mut self, dialed: Result<C, String>) -> (subject: Option<String>)
        ensures
            final(self)@ == old(self)@.dialed(dialed),
            subject is Some == (!old(self)@.session.connected() && dialed is Ok && old(
                self,
            )@.subject@.len() > 0),
            subject is Some ==> subject->0 == old(self)@.subject,
    {
        match self.nats_client.connect(dialed) {
            Ok(()) => {
                self.log(Level::Info, String::from_str(CONNECTED));
                match self.nats_client.subscribe(self.subject.clone()) {
                    Ok(subject) => Some(subject),
                    Err(error) => {
                        self.log_error(&error);
                        None
                    },
                }
            },
            Err(error) => {
                self.log_error(&error);
                None
            },
        }
    }

    /// The listener learns what subscribing gave: the subscription to read
    /// from, or `None`, with the broker's refusal logged.
    pub fn subscribed<S>(&mut self, subject: String, outcome: Result<S, String>) -> (subscription:
        Option<Subscription<S>>)
        ensures
            outcome is Ok ==> final(self)@ == old(self)@ && subscription == Some(
                Subscription { subject, stream: outcome->Ok_0 },
            ),
            outcome is Err ==> subscription is None && final(self)@ == old(self)@.logged(
                Level::Error,
                SessionError::SubscribeError(outcome->Err_0).spec_describe(),
            ),
    {
        match subscribe_outcome(subject, outcome) {
            Ok(subscription) => Some(subscription),
            Err(error) => {
                self.log_error(&error);
                None
            },
        }
    }

    /// The listener read a message from the subscription: it becomes one
    /// event, behind all that wait.
    pub fn message(&mut self, message: Message)
        ensures
            final(self)@ == old(self)@.received(
                EventView::Messages(message.subject@, message.payload@),
            ),
    {
        self.send(InputEvent::Messages(message.subject, message.payload));
    }

    /// The transport reports that the connection broke and that it dials
    /// again: information for the log, and no failure of the session.
    pub fn connection_lost(&mut self)
        ensures
            final(self)@ == old(self)@.logged(Level::Info, LOST@),
    {
        self.log(Level::Info, String::from_str(LOST));
    }

    /// The transport reports that the connection is back: information for
    /// the log.
    pub fn connection_reestablished(&mut self)
        ensures
            final(self)@ == old(self)@.logged(Level::Info, REESTABLISHED@),
    {
        self.log(Level::Info, String::from_str(REESTABLISHED));
    }

    /// The console asks to publish. `Some` holds what to send; a refusal of
    /// the session is logged and gives `None`, so that nothing is sent.
    pub fn publish(&mut self, sub: String, msg: String) -> (publication: Option<Publication>)
        ensures
            final(self)@ == old(self)@.publishing(sub, msg),
            match old(self)@.session.publish_result(sub, msg) {
                Ok(checked) => publication == Some(checked),
                Err(_) => publication is None,
            },
    {
        match self.nats_client.publish(sub, msg) {
            Ok(publication) => Some(publication),
            Err(error) => {
                self.log_error(&error);
                None
            },
        }
    }

    /// The console learns what sending `publication` gave: either way one
    /// log record.
    pub fn published(&mut self, publication: &Publication, outcome: Result<(), String>)
        ensures
            outcome is Ok ==> final(self)@ == old(self)@.logged(
                Level::Info,
                sent_text(publication.subject@),
            ),
            outcome is Err ==> final(self)@ == old(self)@.logged(
                Level::Error,
                SessionError::PublishError(outcome->Err_0).spec_describe(),
            ),
    {
        match publish_outcome(outcome) {
            Ok(()) => {
                let text = String::from_str("Message send to subject '").concat(
                    publication.subject.as_str(),
                ).concat("'");
                self.log(Level::Info, text);
            },
            Err(error) => {
                self.log_error(&error);
            },
        }
    }

    /// The console asks for a request. An empty subject is refused at once.
    /// Otherwise the request is announced in the log and checked by the
    /// session: `Some` holds what to send and the time to wait; a refusal is
    /// logged and gives `None`.
    pub fn request(&mut self, sub: String, msg: String) -> (request: Option<Request>)
        ensures
            final(self)@ == old(self)@.requesting(sub, msg),
            match old(self)@.session.request_result(sub, msg, REQUEST_TIMEOUT_MS) {
                Ok(checked) => request == Some(checked),
                Err(_) => request is None,
            },
    {
        if sub.as_str().is_empty() {
            self.log_error(&SessionError::EmptySubject);
            return None;
        }
        let text = String::from_str("Subject '").concat(sub.as_str()).concat("' requested.");
        self.log(Level::Info, text);
        match self.nats_client.request(sub, msg, REQUEST_TIMEOUT_MS) {
            Ok(request) => Some(request),
            Err(error) => {
                self.log_error(&error);
                None
            },
        }
    }

    /// The console learns what a request gave. A reply becomes one broker
    /// message in the queue. A request that timed out or failed becomes one
    /// log record, and no broker message.
    pub fn replied(&mut self, outcome: Result<Message, RequestFailure>)
        ensures
            outcome is Ok ==> final(self)@ == old(self)@.received(
                EventView::Messages(outcome->Ok_0.subject@, outcome->Ok_0.payload@),
            ),
            outcome == Err::<Message, RequestFailure>(RequestFailure::TimedOut) ==> final(self)@
                == old(self)@.logged(Level::Error, SessionError::RequestTimeout.spec_describe()),
            outcome is Err && outcome->Err_0 is Failed ==> final(self)@ == old(self)@.logged(
                Level::Error,
                SessionError::PublishError(outcome->Err_0->Failed_0).spec_describe(),
            ),
    {
        match request_outcome(outcome) {
            Ok(reply) => {
                self.message(reply);
            },
            Err(error) => {
                self.log_error(&error);
            },
        }
    }

    /// Executes a command of the interaction loop on the session. Quitting
    /// drains the session. Publishing and requesting are checked as `publish`
    /// and `request` say, and lead to transport work only where the session
    /// accepts them. A log record is passed on.
    pub fn execute(&mut self, command: Command) -> (effect: Effect<C>)
        ensures
            match command {
                Command::Idle => effect is Nothing && final(self)@ == old(self)@,
                Command::Quit => effect == Effect::Leave(old(self)@.session.handle)
                    && final(self)@ == old(self)@.with_session(old(self)@.session.drained()),
                Command::Publish { subject, message } => final(self)@ == old(self)@.publishing(
                    subject,
                    message,
                ) && match old(self)@.session.publish_result(subject, message) {
                    Ok(checked) => effect == Effect::<C>::Publish(checked),
                    Err(_) => effect is Nothing,
                },
                Command::Request { subject, message } => final(self)@ == old(self)@.requesting(
                    subject,
                    message,
                ) && match old(self)@.session.request_result(
                    subject,
                    message,
                    REQUEST_TIMEOUT_MS,
                ) {
                    Ok(checked) => effect == Effect::<C>::Request(checked),
                    Err(_) => effect is Nothing,
                },
                Command::Show(record) => effect == Effect::<C>::Show(record) && final(self)@
                    == old(self)@,
            },
    {
        match command {
            Command::Idle => Effect::Nothing,
            Command::Quit => Effect::Leave(self.drain()),
            Command::Publish { subject, message } => match self.publish(subject, message) {
                Some(publication) => Effect::Publish(publication),
                None => Effect::Nothing,
            },
            Command::Request { subject, message } => match self.request(subject, message) {
                Some(request) => Effect::Request(request),
                None => Effect::Nothing,
            },
            Command::Show(record) => Effect::Show(record),
        }
    }

    /// Gives the session's connection up and returns its handle, for the
    /// caller to flush and close. What waits in the queue stays.
    pub fn drain(&mut self) -> (released: Option<C>)
        ensures
            released == old(self)@.session.handle,
            final(self)@ == old(self)@.with_session(old(self)@.session.drained()),
    {
        self.nats_client.drain()
    }
}

/// One use of the queue: a producer's `send`, or the consumer's `next`.
pub enum QueueOp {
    Send(EventView),
    Next,
}

/// The queue in the course of a run: what waits, and what the consumer has
/// been given so far, both oldest first.
pub struct QueueRun {
    pub pending: Seq<EventView>,
    pub delivered: Seq<EventView>,
}

/// The queue after `op`, as `send` and `next` behave.
pub open spec fn step(run: QueueRun, op: QueueOp) -> QueueRun {
    match op {
        QueueOp::Send(event) => QueueRun {
            pending: run.pending.push(event),
            delivered: run.delivered,
        },
        QueueOp::Next => if run.pending.len() == 0 {
            run
        } else {
            QueueRun {
                pending: run.pending.drop_first(),
                delivered: run.delivered.push(run.pending[0]),
            }
        },
    }
}

/// The queue after the operations `ops`, in their order, on an empty queue.
pub open spec fn run(ops: Seq<QueueOp>) -> QueueRun
    decreases ops.len(),
{
    if ops.len() == 0 {
        QueueRun { pending: Seq::empty(), delivered: Seq::empty() }
    } else {
        step(run(ops.drop_last()), ops.last())
    }
}

/// The events that `ops` put into the queue, in the order of their arrival.
pub open spec fn arrivals(ops: Seq<QueueOp>) -> Seq<EventView>
    decreases ops.len(),
{
    if ops.len() == 0 {
        Seq::empty()
    } else {
        match ops.last() {
            QueueOp::Send(event) => arrivals(ops.drop_last()).push(event),
            QueueOp::Next => arrivals(ops.drop_last()),
        }
    }
}

/// `send` and `next` are the steps of a run: what waits in the aggregator
/// after either is what `step` says.
pub proof fn lemma_queue_steps<C>(
    events: EventsView<C>,
    delivered: Seq<EventView>,
    event: EventView,
)
    ensures
        step(QueueRun { pending: events.pending, delivered }, QueueOp::Send(event)).pending
            == events.received(event).pending,
        step(QueueRun { pending: events.pending, delivered }, QueueOp::Next).pending
            == events.taken().pending,
        events.pending.len() > 0 ==> step(
            QueueRun { pending: events.pending, delivered },
            QueueOp::Next,
        ).delivered == delivered.push(events.pending[0]),
{
}

/// The queue delivers in order of arrival: however sends and takes
/// interleave, what was delivered, followed by what still waits, is what
/// arrived.
pub proof fn lemma_delivery_follows_arrival(ops: Seq<QueueOp>)
    ensures
        run(ops).delivered + run(ops).pending == arrivals(ops),
    decreases ops.len(),
{
    if ops.len() > 0 {
        let before = run(ops.drop_last());
        lemma_delivery_follows_arrival(ops.drop_last());
        match ops.last() {
            QueueOp::Send(event) => {
                assert(before.delivered + before.pending.push(event) =~= (before.delivered
                    + before.pending).push(event));
            },
            QueueOp::Next => {
                if before.pending.len() > 0 {
                    assert(before.delivered.push(before.pending[0]) + before.pending.drop_first()
                        =~= before.delivered + before.pending);
                }
            },
        }
    } else {
        assert(run(ops).delivered + run(ops).pending =~= arrivals(ops));
    }
}

/// Each producer's events are delivered in the order in which it emitted
/// them: however the producers and the consumer interleave, the events of
/// one producer that were delivered, followed by those of its events that
/// still wait, are the events that it emitted, in that order. Once nothing
/// of the producer waits, what was delivered of it is what it emitted.
pub proof fn lemma_producer_fifo(ops: Seq<QueueOp>, who: Producer)
    ensures
        emitted_by(run(ops).delivered, who) + emitted_by(run(ops).pending, who) == emitted_by(
            arrivals(ops),
            who,
        ),
        emitted_by(run(ops).delivered, who).is_prefix_of(emitted_by(arrivals(ops), who)),
        emitted_by(run(ops).pending, who).len() == 0 ==> emitted_by(run(ops).delivered, who)
            == emitted_by(arrivals(ops), who),
{
    let by = |event: EventView| event.producer() == who;
    lemma_delivery_follows_arrival(ops);
    Seq::filter_distributes_over_add(run(ops).delivered, run(ops).pending, by);
    let delivered = emitted_by(run(ops).delivered, who);
    let waiting = emitted_by(run(ops).pending, who);
    assert((delivered + waiting).subrange(0, delivered.len() as int) =~= delivered);
    if waiting.len() == 0 {
        assert(delivered + waiting =~= delivered);
    }
}

/// The broker messages among `events`, in their order.
pub open spec fn broker_messages(events: Seq<EventView>) -> Seq<EventView> {
    events.filter(|event: EventView| event is Messages)
}

/// A log record is no broker message: the broker messages that wait are the
/// same before and after a record is logged. So a request that timed out,
/// which is logged and nothing else, emits no broker message.
pub proof fn lemma_log_emits_no_message<C>(events: EventsView<C>, level: Level, text: Seq<char>)
    ensures
        broker_messages(events.logged(level, text).pending) == broker_messages(events.pending),
{
    let is_message = |event: EventView| event is Messages;
    let record = EventView::Logs(level, text);
    assert(events.pending.push(record).drop_last() =~= events.pending);
    reveal(Seq::filter);
}

/// An empty subject is never published: whatever the session's state and
/// the message, the aggregator hands out nothing to send, and logs the
/// refusal.
pub proof fn lemma_empty_subject_sends_nothing<C>(
    events: EventsView<C>,
    subject: String,
    message: String,
)
    requires
        subject@.len() == 0,
    ensures
        events.session.publish_result(subject, message) is Err,
        events.publishing(subject, message) == events.logged(
            Level::Error,
            SessionError::EmptySubject.spec_describe(),
        ),
{
}

/// The session changes only where it connects or drains: no event that
/// arrives or is taken, no log record, no publish and no request touches
/// its URL, its credentials or its connection.
pub proof fn lemma_session_is_kept<C>(
    events: EventsView<C>,
    event: EventView,
    subject: String,
    message: String,
)
    ensures
        events.received(event).session == events.session,
        events.taken().session == events.session,
        events.connecting().session == events.session,
        events.publishing(subject, message).session == events.session,
        events.requesting(subject, message).session == events.session,
{
}

} // verus!
