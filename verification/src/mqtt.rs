//! The broker facade: bounded messages, the mailboxes between application
//! and network, and the decisions of the publisher and receiver workers.

use vstd::prelude::*;
use embassy_sync::blocking_mutex::raw::CriticalSectionRawMutex;
use embassy_sync::channel::Channel;
use crate::text::{
    long_new, long_push_str, long_text, short_as_str, short_new, short_push_str, short_text,
    utf8_len,
};
use vstd::utf8::{valid_utf8, decode_utf8};

verus! {

/// Most bytes a topic may occupy.
pub const MAX_TOPIC: usize = 64;

/// Most bytes a payload may occupy.
pub const MAX_PAYLOAD: usize = 512;

/// Messages a mailbox holds at most.
pub const MAILBOX_CAPACITY: usize = 5;

/// A topic and a payload, as plain text.
pub struct MessageModel {
    pub topic: Seq<char>,
    pub content: Seq<char>,
}

/// One message for or from the broker. Neither field is ever truncated:
/// a message exists only if both texts fit.
pub struct MqttMessage {
    pub topic: heapless::String<64>,
    pub content: heapless::String<512>,
}

impl View for MqttMessage {
    type V = MessageModel;

    open spec fn view(&self) -> MessageModel {
        MessageModel { topic: short_text(self.topic), content: long_text(self.content) }
    }
}

impl MqttMessage {
    /// Builds a message, or nothing if the topic is longer than
    /// `MAX_TOPIC` bytes or the payload longer than `MAX_PAYLOAD` bytes.
    pub fn new(mqtt_topic: &str, mqtt_message_content: &str) -> (message: Option<Self>)
        ensures
            message is Some <==> utf8_len(mqtt_topic@) <= MAX_TOPIC && utf8_len(
                mqtt_message_content@,
            ) <= MAX_PAYLOAD,
            message is Some ==> message.unwrap()@.topic == mqtt_topic@ && message.unwrap()@.content
                == mqtt_message_content@,
    {
        let mut topic = short_new();
        let mut content = long_new();
        if !short_push_str(&mut topic, mqtt_topic) || !long_push_str(
            &mut content,
            mqtt_message_content,
        ) {
            return None;
        }
        Some(Self { topic, content })
    }
}

/// The `embassy_sync` channel that carries a mailbox's messages.
#[verifier::external_body]
pub struct MessageChannel {
    inner: Channel<CriticalSectionRawMutex, MqttMessage, 5>,
}

/// The messages waiting in a channel, oldest first.
pub uninterp spec fn waiting(channel: MessageChannel) -> Seq<MessageModel>;

/// `embassy_sync::channel::Channel::new`: a new channel holds nothing.
#[verifier::external_body]
fn channel_new() -> (channel: MessageChannel)
    ensures
        waiting(channel) == Seq::<MessageModel>::empty(),
{
    MessageChannel { inner: Channel::new() }
}

/// `embassy_sync::channel::Channel::try_send`: the message goes to the back
/// of the queue unless five are waiting already; then it is dropped and
/// the queue stays as it was.
#[verifier::external_body]
fn channel_try_send(channel: &mut MessageChannel, message: MqttMessage) -> (sent: bool)
    ensures
        sent == (waiting(*old(channel)).len() < 5),
        sent ==> waiting(*final(channel)) == waiting(*old(channel)).push(message@),
        !sent ==> waiting(*final(channel)) == waiting(*old(channel)),
{
    channel.inner.try_send(message).is_ok()
}

/// `embassy_sync::channel::Channel::try_receive`: the oldest message leaves
/// the queue and is returned; from an empty queue nothing is.
#[verifier::external_body]
fn channel_try_receive(channel: &mut MessageChannel) -> (message: Option<MqttMessage>)
    ensures
        match message {
            Some(m) => waiting(*old(channel)).len() > 0 && m@ == waiting(*old(channel))[0]
                && waiting(*final(channel)) == waiting(*old(channel)).skip(1),
            None => waiting(*old(channel)).len() == 0 && waiting(*final(channel)) == waiting(
                *old(channel),
            ),
        },
{
    channel.inner.try_receive().ok()
}

/// `embassy_sync::channel::Channel::len`: how many messages are waiting,
/// never more than the capacity.
#[verifier::external_body]
fn channel_len(channel: &MessageChannel) -> (count: usize)
    ensures
        count == waiting(*channel).len(),
        count <= 5,
{
    channel.inner.len()
}

/// The mailbox after one message has been offered.
pub open spec fn accepted(waiting: Seq<MessageModel>, message: MessageModel) -> Seq<MessageModel> {
    if waiting.len() < MAILBOX_CAPACITY {
        waiting.push(message)
    } else {
        waiting
    }
}

/// The mailbox after the messages `offered` have been offered in order.
pub open spec fn offered_to(waiting: Seq<MessageModel>, offered: Seq<MessageModel>) -> Seq<
    MessageModel,
>
    decreases offered.len(),
{
    if offered.len() == 0 {
        waiting
    } else {
        accepted(offered_to(waiting, offered.drop_last()), offered.last())
    }
}

/// A bounded first-in-first-out queue of messages that never blocks the
/// sender: at capacity the newcomer is dropped.
pub struct Mailbox {
    channel: MessageChannel,
}

impl View for Mailbox {
    type V = Seq<MessageModel>;

    closed spec fn view(&self) -> Seq<MessageModel> {
        waiting(self.channel)
    }
}

impl Mailbox {
    /// An empty mailbox.
    pub fn new() -> (mailbox: Self)
        ensures
            mailbox@ == Seq::<MessageModel>::empty(),
    {
        Mailbox { channel: channel_new() }
    }

    /// How many messages are waiting.
    pub fn len(&self) -> (count: usize)
        ensures
            count == self@.len(),
            count <= MAILBOX_CAPACITY,
    {
        channel_len(&self.channel)
    }

    /// Whether no message is waiting.
    pub fn is_empty(&self) -> (empty: bool)
        ensures
            empty == (self@.len() == 0),
    {
        channel_len(&self.channel) == 0
    }

    /// Puts a message at the back, or drops it if `MAILBOX_CAPACITY`
    /// messages are waiting; says which. The waiting messages are never
    /// disturbed.
    pub fn enqueue(&mut self, message: MqttMessage) -> (queued: bool)
        ensures
            queued == (old(self)@.len() < MAILBOX_CAPACITY),
            final(self)@ == accepted(old(self)@, message@),
    {
        channel_try_send(&mut self.channel, message)
    }

    /// Takes the oldest message, if there is one.
    pub fn try_dequeue(&mut self) -> (message: Option<MqttMessage>)
        ensures
            message is Some <==> old(self)@.len() > 0,
            message is Some ==> message.unwrap()@ == old(self)@[0] && final(self)@ == old(
                self,
            )@.skip(1),
            message is None ==> final(self)@ == old(self)@,
    {
        channel_try_receive(&mut self.channel)
    }
}

/// Pause before a worker starts over after a failure or while it has
/// nothing to do.
pub const RETRY_MS: u64 = 500;

/// Pause before the receiver starts over after a failed subscription or
/// receive.
pub const RESUBSCRIBE_MS: u64 = 100;

/// Pause between finding the network ready and connecting.
pub const SETTLE_MS: u64 = 100;

/// The broker protocol version spoken in the handshake.
pub const PROTOCOL_VERSION: u8 = 5;

/// Delivery guarantee of every publication: at least once.
pub const QUALITY_OF_SERVICE: u8 = 1;

/// Where the broker is and how this device presents itself to it.
pub struct MqttFacadeConfig {
    pub broker_ip: [u8; 4],
    pub broker_port: u16,
    pub client_id: &'static str,
    pub topic_id: heapless::String<64>,
}

impl MqttFacadeConfig {
    /// The topic must fit in `MAX_TOPIC` bytes.
    pub fn new(
        broker_ip: [u8; 4],
        broker_port: u16,
        client_id: &'static str,
        topic_id: &str,
    ) -> (config: Self)
        requires
            utf8_len(topic_id@) <= MAX_TOPIC,
        ensures
            config.broker_ip == broker_ip,
            config.broker_port == broker_port,
            config.client_id == client_id,
            short_text(config.topic_id) == topic_id@,
    {
        let mut topic = short_new();
        short_push_str(&mut topic, topic_id);
        Self { broker_ip, broker_port, client_id, topic_id: topic }
    }
}

/// `core::str::from_utf8`: the bytes read as text, exactly when they are
/// valid UTF-8.
#[verifier::external_body]
fn text_of(bytes: &[u8]) -> (text: Option<&str>)
    ensures
        text is Some <==> valid_utf8(bytes@),
        text is Some ==> text.unwrap()@ == decode_utf8(bytes@),
{
    core::str::from_utf8(bytes).ok()
}

/// Where a worker stands within one cycle of its work.
#[derive(Clone, Copy, Debug, PartialEq, Eq, Structural)]
pub enum WorkerState {
    /// At the start of a cycle, before the readiness check.
    Idle,
    /// A transport connection is being opened.
    Connecting,
    /// The broker handshake is under way.
    Handshaking,
    /// The subscription is under way (receiver only).
    Subscribing,
    /// The one publication or the one receive of this cycle is under way.
    Exchanging,
}

/// What the surrounding loop reports back to a worker.
#[derive(Clone, Copy, Debug, PartialEq, Eq, Structural)]
pub enum WorkerEvent {
    /// What the readiness check found.
    Readiness { mailbox_empty: bool, link_up: bool, configured: bool },
    /// How opening the connection ended.
    Connected { ok: bool },
    /// How the handshake ended.
    Handshaken { ok: bool },
    /// How the subscription ended.
    Subscribed { ok: bool },
    /// How the publication ended.
    Published { ok: bool },
    /// How the receive ended.
    Received { ok: bool },
}

/// What the surrounding loop is to do next for a worker.
#[derive(Clone, Copy, Debug, PartialEq, Eq)]
pub enum WorkerAction {
    /// Wait `after_ms`, then check readiness.
    CheckReadiness { after_ms: u64 },
    /// Wait `after_ms`, then open a new connection to the broker.
    Connect { address: [u8; 4], port: u16, after_ms: u64 },
    /// Clear the wire buffers and shake hands in this protocol version
    /// under this client identifier.
    Handshake { protocol_version: u8, client_id: &'static str },
    /// Subscribe to the command topic.
    Subscribe,
    /// Take one message from the outbound mailbox, waiting for one if need
    /// be, and publish it.
    PublishNext { qos: u8, retain: bool },
    /// Wait for one message from the broker.
    Receive,
}

/// The start of a new cycle after `after_ms`.
pub open spec fn restart(after_ms: u64) -> (WorkerState, WorkerAction) {
    (WorkerState::Idle, WorkerAction::CheckReadiness { after_ms })
}

/// The steps that both workers share: connecting once the network is
/// ready, then the handshake.
pub open spec fn connect_step(config: MqttFacadeConfig) -> (WorkerState, WorkerAction) {
    (
        WorkerState::Connecting,
        WorkerAction::Connect {
            address: config.broker_ip,
            port: config.broker_port,
            after_ms: SETTLE_MS,
        },
    )
}

/// The handshake that follows a connection.
pub open spec fn handshake_step(config: MqttFacadeConfig) -> (WorkerState, WorkerAction) {
    (
        WorkerState::Handshaking,
        WorkerAction::Handshake {
            protocol_version: PROTOCOL_VERSION,
            client_id: config.client_id,
        },
    )
}

/// The publisher's rule. A cycle needs a waiting message and a ready
/// network, opens a new connection, shakes hands, publishes one message,
/// and starts over; any failure starts over after `RETRY_MS`.
pub open spec fn publisher_next(
    config: MqttFacadeConfig,
    state: WorkerState,
    event: WorkerEvent,
) -> (WorkerState, WorkerAction) {
    match (state, event) {
        (WorkerState::Idle, WorkerEvent::Readiness { mailbox_empty, link_up, configured }) => {
            if mailbox_empty || !link_up || !configured {
                restart(RETRY_MS)
            } else {
                connect_step(config)
            }
        },
        (WorkerState::Connecting, WorkerEvent::Connected { ok }) => if ok {
            handshake_step(config)
        } else {
            restart(RETRY_MS)
        },
        (WorkerState::Handshaking, WorkerEvent::Handshaken { ok }) => if ok {
            (
                WorkerState::Exchanging,
                WorkerAction::PublishNext { qos: QUALITY_OF_SERVICE, retain: false },
            )
        } else {
            restart(RETRY_MS)
        },
        (WorkerState::Exchanging, WorkerEvent::Published { ok }) => if ok {
            restart(0)
        } else {
            restart(RETRY_MS)
        },
        _ => restart(RETRY_MS),
    }
}

/// The receiver's rule. A cycle needs a ready network only, opens a new
/// connection, shakes hands, subscribes, receives one message, and starts
/// over; a failed subscription or receive starts over after
/// `RESUBSCRIBE_MS`, any other failure after `RETRY_MS`.
pub open spec fn receiver_next(
    config: MqttFacadeConfig,
    state: WorkerState,
    event: WorkerEvent,
) -> (WorkerState, WorkerAction) {
    match (state, event) {
        (WorkerState::Idle, WorkerEvent::Readiness { mailbox_empty, link_up, configured }) => {
            if !link_up || !configured {
                restart(RETRY_MS)
            } else {
                connect_step(config)
            }
        },
        (WorkerState::Connecting, WorkerEvent::Connected { ok }) => if ok {
            handshake_step(config)
        } else {
            restart(RETRY_MS)
        },
        (WorkerState::Handshaking, WorkerEvent::Handshaken { ok }) => if ok {
            (WorkerState::Subscribing, WorkerAction::Subscribe)
        } else {
            restart(RETRY_MS)
        },
        (WorkerState::Subscribing, WorkerEvent::Subscribed { ok }) => if ok {
            (WorkerState::Exchanging, WorkerAction::Receive)
        } else {
            restart(RESUBSCRIBE_MS)
        },
        (WorkerState::Exchanging, WorkerEvent::Received { ok }) => if ok {
            restart(0)
        } else {
            restart(RESUBSCRIBE_MS)
        },
        _ => restart(RETRY_MS),
    }
}

/// What became of a message that the broker sent.
#[derive(Clone, Copy, Debug, PartialEq, Eq, Structural)]
pub enum Delivery {
    /// It waits in the inbound mailbox.
    Queued,
    /// The mailbox was full.
    DroppedFull,
    /// Topic or payload was too long for a message.
    DroppedOversize,
    /// The payload was not text.
    DroppedNotText,
}

/// What becomes of a received message, given the mailbox it is meant for.
pub open spec fn delivery_of(
    waiting: Seq<MessageModel>,
    topic: Seq<char>,
    payload: Seq<u8>,
) -> Delivery {
    if !valid_utf8(payload) {
        Delivery::DroppedNotText
    } else if utf8_len(topic) > MAX_TOPIC || utf8_len(decode_utf8(payload)) > MAX_PAYLOAD {
        Delivery::DroppedOversize
    } else if waiting.len() >= MAILBOX_CAPACITY {
        Delivery::DroppedFull
    } else {
        Delivery::Queued
    }
}

/// The application's and the workers' handle on the broker.
pub struct MqttFacade {
    _config: MqttFacadeConfig,
}

impl MqttFacade {
    pub fn new(config: MqttFacadeConfig) -> (facade: Self)
        ensures
            facade.config() == config,
    {
        Self { _config: config }
    }

    /// The configuration this facade was made with.
    pub closed spec fn config(&self) -> MqttFacadeConfig {
        self._config
    }

    /// Hands a message to the publisher through the outbound mailbox; a
    /// full mailbox drops it. Says whether it was queued.
    pub fn send_message(&mut self, outbound: &mut Mailbox, message: MqttMessage) -> (queued: bool)
        ensures
            final(self).config() == old(self).config(),
            queued == (old(outbound)@.len() < MAILBOX_CAPACITY),
            final(outbound)@ == accepted(old(outbound)@, message@),
    {
        outbound.enqueue(message)
    }

    /// Takes the oldest message that the receiver has put into the inbound
    /// mailbox, if there is one.
    pub fn poll_message(&mut self, inbound: &mut Mailbox) -> (message: Option<MqttMessage>)
        ensures
            final(self).config() == old(self).config(),
            message is Some <==> old(inbound)@.len() > 0,
            message is Some ==> message.unwrap()@ == old(inbound)@[0] && final(inbound)@ == old(
                inbound,
            )@.skip(1),
            message is None ==> final(inbound)@ == old(inbound)@,
    {
        inbound.try_dequeue()
    }

    /// One decision of the publisher worker: what follows `state` when
    /// `event` is reported.
    pub fn run_publisher_worker(&self, state: WorkerState, event: WorkerEvent) -> (next: (
        WorkerState,
        WorkerAction,
    ))
        ensures
            next == publisher_next(self.config(), state, event),
    {
        let retry = (WorkerState::Idle, WorkerAction::CheckReadiness { after_ms: RETRY_MS });
        match state {
            WorkerState::Idle => match event {
                WorkerEvent::Readiness { mailbox_empty, link_up, configured } => {
                    if mailbox_empty || !link_up || !configured {
                        retry
                    } else {
                        self.connect()
                    }
                },
                _ => retry,
            },
            WorkerState::Connecting => match event {
                WorkerEvent::Connected { ok: true } => self.handshake(),
                _ => retry,
            },
            WorkerState::Handshaking => match event {
                WorkerEvent::Handshaken { ok: true } => (
                    WorkerState::Exchanging,
                    WorkerAction::PublishNext { qos: QUALITY_OF_SERVICE, retain: false },
                ),
                _ => retry,
            },
            WorkerState::Exchanging => match event {
                WorkerEvent::Published { ok: true } => (
                    WorkerState::Idle,
                    WorkerAction::CheckReadiness { after_ms: 0 },
                ),
                _ => retry,
            },
            WorkerState::Subscribing => retry,
        }
    }

    /// One decision of the receiver worker: what follows `state` when
    /// `event` is reported.
    pub fn run_receiver_worker(&self, state: WorkerState, event: WorkerEvent) -> (next: (
        WorkerState,
        WorkerAction,
    ))
        ensures
            next == receiver_next(self.config(), state, event),
    {
        let retry = (WorkerState::Idle, WorkerAction::CheckReadiness { after_ms: RETRY_MS });
        let resubscribe = (
            WorkerState::Idle,
            WorkerAction::CheckReadiness { after_ms: RESUBSCRIBE_MS },
        );
        match state {
            WorkerState::Idle => match event {
                WorkerEvent::Readiness { mailbox_empty, link_up, configured } => {
                    if !link_up || !configured {
                        retry
                    } else {
                        self.connect()
                    }
                },
                _ => retry,
            },
            WorkerState::Connecting => match event {
                WorkerEvent::Connected { ok: true } => self.handshake(),
                _ => retry,
            },
            WorkerState::Handshaking => match event {
                WorkerEvent::Handshaken { ok: true } => (
                    WorkerState::Subscribing,
                    WorkerAction::Subscribe,
                ),
                _ => retry,
            },
            WorkerState::Subscribing => match event {
                WorkerEvent::Subscribed { ok: true } => (
                    WorkerState::Exchanging,
                    WorkerAction::Receive,
                ),
                WorkerEvent::Subscribed { ok: false } => resubscribe,
                _ => retry,
            },
            WorkerState::Exchanging => match event {
                WorkerEvent::Received { ok: true } => (
                    WorkerState::Idle,
                    WorkerAction::CheckReadiness { after_ms: 0 },
                ),
                WorkerEvent::Received { ok: false } => resubscribe,
                _ => retry,
            },
        }
    }

    /// The step from a ready network to a connection attempt.
    fn connect(&self) -> (next: (WorkerState, WorkerAction))
        ensures
            next == connect_step(self.config()),
    {
        (
            WorkerState::Connecting,
            WorkerAction::Connect {
                address: self._config.broker_ip,
                port: self._config.broker_port,
                after_ms: SETTLE_MS,
            },
        )
    }

    /// The step from an open connection to the handshake.
    fn handshake(&self) -> (next: (WorkerState, WorkerAction))
        ensures
            next == handshake_step(self.config()),
    {
        (
            WorkerState::Handshaking,
            WorkerAction::Handshake {
                protocol_version: PROTOCOL_VERSION,
                client_id: self._config.client_id,
            },
        )
    }

    /// The topic that the receiver subscribes to.
    pub fn command_topic(&self) -> (topic: &str)
        ensures
            topic@ == short_text(self.config().topic_id),
    {
        short_as_str(&self._config.topic_id)
    }

    /// Takes in what the receiver got from the broker: a payload that is
    /// text, under a topic, both short enough for a message, is queued in
    /// the inbound mailbox if that has room. Everything else is dropped,
    /// and the mailbox stays as it was.
    pub fn deliver(&self, inbound: &mut Mailbox, topic: &str, payload: &[u8]) -> (outcome: Delivery)
        ensures
            outcome == delivery_of(old(inbound)@, topic@, payload@),
            outcome == Delivery::Queued ==> final(inbound)@ == old(inbound)@.push(
                MessageModel { topic: topic@, content: decode_utf8(payload@) },
            ),
            outcome != Delivery::Queued ==> final(inbound)@ == old(inbound)@,
    {
        match text_of(payload) {
            Some(content) => match MqttMessage::new(topic, content) {
                Some(message) => {
                    if inbound.enqueue(message) {
                        Delivery::Queued
                    } else {
                        Delivery::DroppedFull
                    }
                },
                None => Delivery::DroppedOversize,
            },
            None => Delivery::DroppedNotText,
        }
    }
}

/// No failure is final: whatever a worker is doing, a step that did not
/// succeed sends it back to the start of a cycle after a pause, and every
/// step yields a next action.
pub proof fn lemma_failure_restarts(config: MqttFacadeConfig, state: WorkerState)
    ensures
        publisher_next(config, state, WorkerEvent::Connected { ok: false }) == restart(RETRY_MS),
        publisher_next(config, state, WorkerEvent::Handshaken { ok: false }) == restart(RETRY_MS),
        publisher_next(config, state, WorkerEvent::Published { ok: false }) == restart(RETRY_MS),
        receiver_next(config, state, WorkerEvent::Connected { ok: false }) == restart(RETRY_MS),
        receiver_next(config, state, WorkerEvent::Handshaken { ok: false }) == restart(RETRY_MS),
        receiver_next(config, state, WorkerEvent::Subscribed { ok: false }).0
            == WorkerState::Idle,
        receiver_next(config, state, WorkerEvent::Received { ok: false }).0
            == WorkerState::Idle,
{
}

/// One exchange per connection: a publication is asked for only after a
/// handshake that succeeded, a receive only after a subscription that
/// succeeded, and whatever comes of the exchange the worker starts a new
/// cycle with a new connection.
pub proof fn lemma_one_exchange_per_connection(
    config: MqttFacadeConfig,
    state: WorkerState,
    event: WorkerEvent,
)
    ensures
        publisher_next(config, state, event).1 is PublishNext ==> state == WorkerState::Handshaking
            && event == (WorkerEvent::Handshaken { ok: true }),
        receiver_next(config, state, event).1 is Receive ==> state == WorkerState::Subscribing
            && event == (WorkerEvent::Subscribed { ok: true }),
        publisher_next(config, WorkerState::Exchanging, event).0 == WorkerState::Idle,
        receiver_next(config, WorkerState::Exchanging, event).0 == WorkerState::Idle,
        publisher_next(config, state, event).1 is Connect ==> state == WorkerState::Idle,
        receiver_next(config, state, event).1 is Connect ==> state == WorkerState::Idle,
{
}

/// The publisher connects only when a message waits; the receiver does not
/// look at its mailbox.
pub proof fn lemma_readiness(
    config: MqttFacadeConfig,
    mailbox_empty: bool,
    link_up: bool,
    configured: bool,
)
    ensures
        publisher_next(
            config,
            WorkerState::Idle,
            WorkerEvent::Readiness { mailbox_empty, link_up, configured },
        ).0 == WorkerState::Connecting <==> !mailbox_empty && link_up && configured,
        receiver_next(
            config,
            WorkerState::Idle,
            WorkerEvent::Readiness { mailbox_empty, link_up, configured },
        ).0 == WorkerState::Connecting <==> link_up && configured,
{
}

/// A mailbox hands messages on in the order in which they came: whatever
/// is offered to an empty mailbox, what waits in it afterwards is the first
/// `MAILBOX_CAPACITY` of the messages offered, in their order, and nothing
/// else.
pub proof fn lemma_mailbox_keeps_arrival_order(offered: Seq<MessageModel>)
    ensures
        offered_to(Seq::empty(), offered) == offered.take(
            if offered.len() < MAILBOX_CAPACITY {
                offered.len() as int
            } else {
                MAILBOX_CAPACITY as int
            },
        ),
    decreases offered.len(),
{
    if offered.len() > 0 {
        let earlier = offered.drop_last();
        lemma_mailbox_keeps_arrival_order(earlier);
        if earlier.len() < MAILBOX_CAPACITY {
            assert(earlier.take(earlier.len() as int) =~= earlier);
            assert(earlier.push(offered.last()) =~= offered.take(offered.len() as int));
        } else {
            assert(earlier.take(MAILBOX_CAPACITY as int) =~= offered.take(
                MAILBOX_CAPACITY as int,
            ));
        }
    } else {
        assert(offered.take(0) =~= Seq::<MessageModel>::empty());
    }
}

/// A full mailbox keeps its messages and their order: after six messages
/// are offered to an empty mailbox, the first five wait in the order in
/// which they came, and the sixth is gone.
pub proof fn lemma_sixth_is_dropped(offered: Seq<MessageModel>)
    requires
        offered.len() == 6,
    ensures
        offered_to(Seq::empty(), offered) == offered.take(5),
{
    reveal_with_fuel(offered_to, 7);
}

} // verus!
