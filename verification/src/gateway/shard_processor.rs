//! The decisions of a shard's processor: when to heartbeat, when to give
//! up on a silent connection, how to answer the gateway's events, and how
//! to turn websocket frames into events.
//!
//! The caller owns the websocket and the clock. It hands the processor
//! each frame and the current time, in nanoseconds on a monotonic clock of
//! its choice, and performs the messages and actions that come back.
use vstd::prelude::*;

use std::sync::Arc;

use crate::client::Client;

use super::event::{bytes_event_shape, decode_bytes_event, decode_text_event, gateway_event_shape, option_shape, Dispatch, EventShape, ReceivedEvent};
use super::session::Session;
use super::session_state::SessionState;
use super::zlib::{ends_with_zlib_suffix, feeds_finished, feeds_follow, inflater_chain, produced, ZlibBuffer};

verus! {

/// Something that a gateway event or a timer asks the processor to do.
#[derive(Clone, Copy, Debug, PartialEq, Eq, Structural)]
pub enum ProcessorAction {
    ShouldReconnect,
    ShouldResume,
    ShouldHeartbeat,
    ShouldIdentify,
}

/// A message for the caller to serialise and send on the websocket.
pub enum OutgoingMessage {
    /// A heartbeat (opcode 1) carrying the last sequence number seen.
    Heartbeat { seq: u64 },
    /// An identify (opcode 2) with the bot's token and its guild
    /// subscription setting.
    Identify { token: String, guild_subscriptions: bool },
}

impl OutgoingMessage {
    /// The gateway opcode of the message: 1 for a heartbeat, 2 for an
    /// identify.
    pub fn opcode(&self) -> (op: u8)
        ensures
            op == (match self {
                OutgoingMessage::Heartbeat { .. } => 1u8,
                OutgoingMessage::Identify { .. } => 2u8,
            }),
    {
        match self {
            OutgoingMessage::Heartbeat { .. } => 1,
            OutgoingMessage::Identify { .. } => 2,
        }
    }
}

/// The name that an identify gives as the client's browser and device.
pub fn identify_client_name() -> (r: &'static str)
    ensures
        r@ == "andrewvy/async-discord"@,
{
    "andrewvy/async-discord"
}

/// A websocket frame, as the caller received it.
pub enum IncomingMessage {
    Text(String),
    Binary(Vec<u8>),
    Ping,
    Pong,
    Close,
}

/// What a gateway event asks of the caller.
pub struct EventOutcome {
    /// A dispatch to pass on to the consumers of events.
    pub forward: Option<Dispatch>,
    /// A state to store in the shared session.
    pub session_state: Option<SessionState>,
    /// An action to perform next.
    pub action: Option<ProcessorAction>,
}

/// The processor's heartbeat and sequence state.
pub struct ProcessorView {
    /// The heartbeat interval, in milliseconds.
    pub heartbeat_interval: u64,
    /// When the last heartbeat was sent.
    pub last_heartbeat: Option<u64>,
    /// When the last heartbeat acknowledgement arrived.
    pub last_heartbeat_ack: Option<u64>,
    /// Whether the last heartbeat has been acknowledged.
    pub acknowledged: bool,
    /// The last sequence number that a dispatch carried.
    pub seq: u64,
}

/// The heartbeat interval until the gateway says otherwise, in milliseconds.
pub const DEFAULT_HEARTBEAT_INTERVAL: u64 = 15000;

/// Nanoseconds from `since` to `now`, and zero should `now` come first.
pub open spec fn elapsed(since: u64, now: u64) -> int {
    if since <= now {
        now - since
    } else {
        0
    }
}

/// Whether more than `interval_ms` milliseconds have passed since `since`.
pub open spec fn interval_passed(since: u64, now: u64, interval_ms: u64) -> bool {
    elapsed(since, now) > interval_ms * 1_000_000
}

/// What the timers ask for at time `now`: once the interval has passed
/// since the last heartbeat, another heartbeat if the last one was
/// acknowledged, and a reconnect if it was not.
pub open spec fn timer_action(p: ProcessorView, now: u64) -> Option<ProcessorAction> {
    match p.last_heartbeat {
        Some(t) => if interval_passed(t, now, p.heartbeat_interval) {
            if p.acknowledged {
                Some(ProcessorAction::ShouldHeartbeat)
            } else {
                Some(ProcessorAction::ShouldReconnect)
            }
        } else {
            None
        },
        None => None,
    }
}

/// The state after performing an action at time `now`: a heartbeat is
/// recorded as sent and not yet acknowledged; the other actions change
/// nothing here.
pub open spec fn state_after_action(p: ProcessorView, a: ProcessorAction, now: u64) -> ProcessorView {
    match a {
        ProcessorAction::ShouldHeartbeat => ProcessorView { acknowledged: false, last_heartbeat: Some(now), ..p },
        _ => p,
    }
}

/// The state after a gateway event of the given shape at time `now`.
pub open spec fn state_after_event(p: ProcessorView, e: EventShape, now: u64) -> ProcessorView {
    match e {
        EventShape::Dispatch { seq, event_type } => ProcessorView { seq, ..p },
        EventShape::Hello(interval) => ProcessorView { heartbeat_interval: interval, ..p },
        EventShape::HeartbeatAck => ProcessorView { last_heartbeat_ack: Some(now), acknowledged: true, ..p },
        _ => p,
    }
}

/// The session state to store after an event, given the state observed:
/// a hello outside of a resume starts identifying.
pub open spec fn session_after_event(e: EventShape, observed: SessionState) -> Option<SessionState> {
    match e {
        EventShape::Hello(_) => if observed == SessionState::Resuming {
            None
        } else {
            Some(SessionState::Identifying)
        },
        _ => None,
    }
}

/// The action that an event asks for: a hello outside of a resume asks to
/// identify.
pub open spec fn action_after_event(e: EventShape, observed: SessionState) -> Option<ProcessorAction> {
    match e {
        EventShape::Hello(_) => if observed == SessionState::Resuming {
            None
        } else {
            Some(ProcessorAction::ShouldIdentify)
        },
        _ => None,
    }
}

/// What a binary frame leads to, given the frame buffer before and after
/// and the shape of the event returned. Until the gathered data ends with
/// the message marker, the frame is only gathered. Then the gathered data
/// is consumed as [`ZlibBuffer::consume`] records it, on the buffer's own
/// inflater: if the inflater failed, nothing is returned and the gathered
/// data is kept; otherwise the buffer is emptied and the event is whatever
/// the inflated text decodes to.
pub open spec fn binary_frame_outcome(before: ZlibBuffer, frame: Seq<u8>, after: ZlibBuffer, event: Option<EventShape>) -> bool {
    let gathered = before.pending() + frame;
    let log = after.feed_log();
    if !ends_with_zlib_suffix(gathered) {
        &&& event is None
        &&& after.pending() == gathered
        &&& after.inflated() == before.inflated()
        &&& after.decompressor() == before.decompressor()
        &&& log == before.feed_log()
    } else {
        &&& log.message == gathered
        &&& feeds_follow(log)
        &&& inflater_chain(log.feeds, before.decompressor(), after.decompressor())
        &&& if log.failed {
            &&& event is None
            &&& after.pending() == gathered
            &&& after.inflated() == before.inflated() + produced(log)
        } else {
            &&& feeds_finished(log)
            &&& after.pending() == Seq::<u8>::empty()
            &&& after.inflated() == Seq::<u8>::empty()
            &&& after.scratch() == Seq::<u8>::empty()
            &&& event == bytes_event_shape(before.inflated() + produced(log))
        }
    }
}

/// Listens to one shard's connection, keeps its session alive and decodes
/// what arrives.
pub struct ShardProcessor {
    client: Arc<Client>,
    decoder: ZlibBuffer,
    /// The session state, shared with the shard.
    session: Arc<Session>,
    heartbeat_interval: u64,
    last_heartbeat: Option<u64>,
    last_heartbeat_ack: Option<u64>,
    was_heartbeat_acknowledged: bool,
    seq: u64,
}

impl View for ShardProcessor {
    type V = ProcessorView;

    closed spec fn view(&self) -> ProcessorView {
        ProcessorView {
            heartbeat_interval: self.heartbeat_interval,
            last_heartbeat: self.last_heartbeat,
            last_heartbeat_ack: self.last_heartbeat_ack,
            acknowledged: self.was_heartbeat_acknowledged,
            seq: self.seq,
        }
    }
}

impl ShardProcessor {
    /// The client that the processor identifies as.
    pub closed spec fn client(&self) -> Client {
        *self.client
    }

    /// The frame buffer of the compressed stream.
    pub closed spec fn decoder(&self) -> ZlibBuffer {
        self.decoder
    }

    /// The session shared with the shard.
    pub closed spec fn session(&self) -> Arc<Session> {
        self.session
    }

    /// A processor for a fresh connection at time `now`: the default
    /// interval, a heartbeat counted as just sent and acknowledged, and no
    /// sequence number yet.
    pub fn new(client: Arc<Client>, session: Arc<Session>, now: u64) -> (p: ShardProcessor)
        ensures
            p@ == (ProcessorView {
                heartbeat_interval: DEFAULT_HEARTBEAT_INTERVAL,
                last_heartbeat: Some(now),
                last_heartbeat_ack: None,
                acknowledged: true,
                seq: 0,
            }),
            p.client() == *client,
            p.session() == session,
            p.decoder().pending() == Seq::<u8>::empty(),
            p.decoder().inflated() == Seq::<u8>::empty(),
    {
        ShardProcessor {
            client,
            decoder: ZlibBuffer::new(),
            session,
            heartbeat_interval: DEFAULT_HEARTBEAT_INTERVAL,
            last_heartbeat: Some(now),
            last_heartbeat_ack: None,
            was_heartbeat_acknowledged: true,
            seq: 0,
        }
    }

    /// What the heartbeat timer asks for at time `now`.
    pub fn check_internal_timers(&self, now: u64) -> (a: Option<ProcessorAction>)
        ensures
            a == timer_action(self@, now),
    {
        match self.last_heartbeat {
            Some(last) => {
                let since: u64 = if last <= now {
                    now - last
                } else {
                    0
                };
                let interval: u128 = self.heartbeat_interval as u128 * 1_000_000u128;
                if since as u128 > interval {
                    if !self.was_heartbeat_acknowledged {
                        Some(ProcessorAction::ShouldReconnect)
                    } else {
                        Some(ProcessorAction::ShouldHeartbeat)
                    }
                } else {
                    None
                }
            },
            None => None,
        }
    }

    /// Performs an action at time `now`, returning the message to send, if
    /// any: a heartbeat with the last sequence number, or an identify with
    /// the client's token and guild subscription setting. Reconnecting and
    /// resuming are not carried out.
    pub fn process_processor_action(&mut self, action: ProcessorAction, now: u64) -> (m: Option<OutgoingMessage>)
        ensures
            final(self)@ == state_after_action(old(self)@, action, now),
            final(self).client() == old(self).client(),
            final(self).session() == old(self).session(),
            final(self).decoder() == old(self).decoder(),
            match action {
                ProcessorAction::ShouldHeartbeat => m == Some(OutgoingMessage::Heartbeat { seq: old(self)@.seq }),
                ProcessorAction::ShouldIdentify => m matches Some(OutgoingMessage::Identify { token, guild_subscriptions })
                    && token@ == old(self).client().token_text()
                    && guild_subscriptions == old(self).client().guild_subscriptions(),
                _ => m is None,
            },
    {
        match action {
            ProcessorAction::ShouldHeartbeat => {
                self.was_heartbeat_acknowledged = false;
                self.last_heartbeat = Some(now);
                Some(OutgoingMessage::Heartbeat { seq: self.seq })
            },
            ProcessorAction::ShouldIdentify => Some(
                OutgoingMessage::Identify {
                    token: self.client.token().clone(),
                    guild_subscriptions: self.client.guild_subscriptions_enabled(),
                },
            ),
            ProcessorAction::ShouldReconnect => None,
            ProcessorAction::ShouldResume => None,
        }
    }

    /// Answers a gateway event at time `now`, given the session state
    /// observed: a dispatch records its sequence number and is passed on; a
    /// hello sets the heartbeat interval and, unless the session is
    /// resuming, moves it to identifying and asks to identify; an
    /// acknowledgement records that the last heartbeat was acknowledged.
    pub fn apply_gateway_event(&mut self, event: ReceivedEvent, observed: SessionState, now: u64) -> (o: EventOutcome)
        ensures
            final(self)@ == state_after_event(old(self)@, event.shape(), now),
            final(self).client() == old(self).client(),
            final(self).session() == old(self).session(),
            final(self).decoder() == old(self).decoder(),
            o.session_state == session_after_event(event.shape(), observed),
            o.action == action_after_event(event.shape(), observed),
            match event {
                ReceivedEvent::Dispatch(_, d) => o.forward == Some(d),
                _ => o.forward is None,
            },
    {
        match event {
            ReceivedEvent::Dispatch(seq, d) => {
                self.seq = seq;
                EventOutcome { forward: Some(d), session_state: None, action: None }
            },
            ReceivedEvent::Hello(interval) => {
                self.heartbeat_interval = interval;
                if observed == SessionState::Resuming {
                    EventOutcome { forward: None, session_state: None, action: None }
                } else {
                    EventOutcome {
                        forward: None,
                        session_state: Some(SessionState::Identifying),
                        action: Some(ProcessorAction::ShouldIdentify),
                    }
                }
            },
            ReceivedEvent::HeartbeatAck => {
                self.last_heartbeat_ack = Some(now);
                self.was_heartbeat_acknowledged = true;
                EventOutcome { forward: None, session_state: None, action: None }
            },
            _ => EventOutcome { forward: None, session_state: None, action: None },
        }
    }

    /// Answers a gateway event at time `now` against the shared session:
    /// reads its state, applies the event as
    /// [`ShardProcessor::apply_gateway_event`] does, and stores the new
    /// state, if any. Returns the dispatch to pass on and the action to
    /// perform.
    pub fn process_gateway_event(&mut self, event: ReceivedEvent, now: u64) -> (r: (Option<Dispatch>, Option<ProcessorAction>))
        ensures
            final(self)@ == state_after_event(old(self)@, event.shape(), now),
            final(self).client() == old(self).client(),
            final(self).session() == old(self).session(),
            final(self).decoder() == old(self).decoder(),
            exists|observed: SessionState| #[trigger] action_after_event(event.shape(), observed) == r.1,
            match event {
                ReceivedEvent::Dispatch(_, d) => r.0 == Some(d),
                _ => r.0 is None,
            },
    {
        let observed = self.session.get_state();
        let o = self.apply_gateway_event(event, observed, now);
        if let Some(state) = o.session_state {
            self.session.set_state(state);
        }
        (o.forward, o.action)
    }
    /// Turns a websocket frame into a gateway event: a text frame is
    /// decoded as it is; a binary frame is gathered into the compressed
    /// stream and decoded once a whole message has arrived; control frames
    /// give nothing.
    pub fn receive(&mut self, msg: IncomingMessage) -> (r: Option<ReceivedEvent>)
        ensures
            final(self)@ == old(self)@,
            final(self).client() == old(self).client(),
            final(self).session() == old(self).session(),
            match msg {
                IncomingMessage::Text(text) => option_shape(r) == gateway_event_shape(text@)
                    && final(self).decoder() == old(self).decoder(),
                IncomingMessage::Binary(bytes) => binary_frame_outcome(
                    old(self).decoder(),
                    bytes@,
                    final(self).decoder(),
                    option_shape(r),
                ),
                _ => r is None && final(self).decoder() == old(self).decoder(),
            },
    {
        match msg {
            IncomingMessage::Text(text) => decode_text_event(text.as_str()),
            IncomingMessage::Binary(bytes) => {
                self.decoder.extend(bytes.as_slice());
                match self.decoder.consume() {
                    Ok(Some(message)) => {
                        let ghost inflated = message@;
                        let event = decode_bytes_event(message);
                        assert(bytes_event_shape(inflated) == option_shape(event));
                        self.decoder.clear();
                        event
                    },
                    _ => None,
                }
            },
            _ => None,
        }
    }
}

} // verus!

verus! {

/// A heartbeat that gets no acknowledgement before its interval has passed
/// makes the next timer check ask for a reconnect.
pub proof fn lemma_unacknowledged_heartbeat_reconnects(p: ProcessorView, sent: u64, now: u64)
    requires
        interval_passed(sent, now, p.heartbeat_interval),
    ensures
        timer_action(state_after_action(p, ProcessorAction::ShouldHeartbeat, sent), now) == Some(
            ProcessorAction::ShouldReconnect,
        ),
{
}

/// A heartbeat that was acknowledged is followed, once its interval has
/// passed, by another heartbeat.
pub proof fn lemma_acknowledged_heartbeat_repeats(p: ProcessorView, sent: u64, acked: u64, now: u64)
    requires
        interval_passed(sent, now, p.heartbeat_interval),
    ensures
        timer_action(
            state_after_event(state_after_action(p, ProcessorAction::ShouldHeartbeat, sent), EventShape::HeartbeatAck, acked),
            now,
        ) == Some(ProcessorAction::ShouldHeartbeat),
{
}

/// The timer asks for nothing until the interval has passed since the last
/// heartbeat.
pub proof fn lemma_timer_quiet_within_interval(p: ProcessorView, now: u64)
    requires
        p.last_heartbeat matches Some(t) && !interval_passed(t, now, p.heartbeat_interval),
    ensures
        timer_action(p, now) is None,
{
}

/// Once a dispatch with sequence number `seq` has been applied, the next
/// heartbeat carries `seq`: the sequence number is the dispatch's, and
/// performing actions leaves it as it is.
pub proof fn lemma_heartbeat_carries_last_sequence(
    p: ProcessorView,
    seq: u64,
    event_type: Option<Seq<char>>,
    now: u64,
    a: ProcessorAction,
    later: u64,
)
    ensures
        state_after_event(p, EventShape::Dispatch { seq, event_type }, now).seq == seq,
        state_after_action(state_after_event(p, EventShape::Dispatch { seq, event_type }, now), a, later).seq == seq,
{
}

/// A hello sets the heartbeat interval; unless the session is resuming it
/// moves the session to identifying and asks to identify, and while
/// resuming it leaves the session alone and asks for nothing.
pub proof fn lemma_hello_identifies_unless_resuming(p: ProcessorView, interval: u64, observed: SessionState, now: u64)
    ensures
        state_after_event(p, EventShape::Hello(interval), now).heartbeat_interval == interval,
        observed != SessionState::Resuming ==> action_after_event(EventShape::Hello(interval), observed) == Some(
            ProcessorAction::ShouldIdentify,
        ) && session_after_event(EventShape::Hello(interval), observed) == Some(SessionState::Identifying),
        observed == SessionState::Resuming ==> action_after_event(EventShape::Hello(interval), observed) is None
            && session_after_event(EventShape::Hello(interval), observed) is None,
{
}

/// Heartbeat requests, invalidations and reconnect requests from the
/// gateway change nothing and ask for nothing.
pub proof fn lemma_unhandled_events_are_ignored(p: ProcessorView, e: EventShape, observed: SessionState, now: u64)
    requires
        e is Heartbeat || e is InvalidateSession || e is Reconnect,
    ensures
        state_after_event(p, e, now) == p,
        action_after_event(e, observed) is None,
        session_after_event(e, observed) is None,
{
}

/// A dispatch records its sequence number and nothing else: the heartbeat
/// interval, the time of the last heartbeat and of the last
/// acknowledgement, and whether the last heartbeat was acknowledged all
/// stay, so dispatches never change when the timer asks for a heartbeat or
/// a reconnect.
pub proof fn lemma_dispatch_only_records_sequence(
    p: ProcessorView,
    seq: u64,
    event_type: Option<Seq<char>>,
    now: u64,
    later: u64,
)
    ensures
        state_after_event(p, EventShape::Dispatch { seq, event_type }, now).seq == seq,
        state_after_event(p, EventShape::Dispatch { seq, event_type }, now).heartbeat_interval == p.heartbeat_interval,
        state_after_event(p, EventShape::Dispatch { seq, event_type }, now).last_heartbeat == p.last_heartbeat,
        state_after_event(p, EventShape::Dispatch { seq, event_type }, now).last_heartbeat_ack == p.last_heartbeat_ack,
        state_after_event(p, EventShape::Dispatch { seq, event_type }, now).acknowledged == p.acknowledged,
        timer_action(state_after_event(p, EventShape::Dispatch { seq, event_type }, now), later) == timer_action(p, later),
{
}

/// An acknowledgement records when it arrived and that the last heartbeat
/// was acknowledged, and nothing else: the sequence number that the next
/// heartbeat carries, the interval and the time of the last heartbeat
/// stay.
pub proof fn lemma_ack_only_records_acknowledgement(p: ProcessorView, now: u64)
    ensures
        state_after_event(p, EventShape::HeartbeatAck, now).last_heartbeat_ack == Some(now),
        state_after_event(p, EventShape::HeartbeatAck, now).acknowledged,
        state_after_event(p, EventShape::HeartbeatAck, now).seq == p.seq,
        state_after_event(p, EventShape::HeartbeatAck, now).heartbeat_interval == p.heartbeat_interval,
        state_after_event(p, EventShape::HeartbeatAck, now).last_heartbeat == p.last_heartbeat,
{
}

/// A hello sets the heartbeat interval and nothing else of the heartbeat
/// state: the sequence number, the time of the last heartbeat and of the
/// last acknowledgement, and whether it was acknowledged all stay.
pub proof fn lemma_hello_only_sets_interval(p: ProcessorView, interval: u64, now: u64)
    ensures
        state_after_event(p, EventShape::Hello(interval), now).heartbeat_interval == interval,
        state_after_event(p, EventShape::Hello(interval), now).seq == p.seq,
        state_after_event(p, EventShape::Hello(interval), now).last_heartbeat == p.last_heartbeat,
        state_after_event(p, EventShape::Hello(interval), now).last_heartbeat_ack == p.last_heartbeat_ack,
        state_after_event(p, EventShape::Hello(interval), now).acknowledged == p.acknowledged,
{
}

/// Only sending a heartbeat changes the heartbeat state: identifying,
/// resuming and reconnecting leave it exactly as it was, and so leave what
/// the timer asks for at any later time.
pub proof fn lemma_only_heartbeats_change_state(p: ProcessorView, a: ProcessorAction, now: u64, later: u64)
    requires
        a != ProcessorAction::ShouldHeartbeat,
    ensures
        state_after_action(p, a, now).heartbeat_interval == p.heartbeat_interval,
        state_after_action(p, a, now).last_heartbeat == p.last_heartbeat,
        state_after_action(p, a, now).last_heartbeat_ack == p.last_heartbeat_ack,
        state_after_action(p, a, now).acknowledged == p.acknowledged,
        state_after_action(p, a, now).seq == p.seq,
        timer_action(state_after_action(p, a, now), later) == timer_action(p, later),
{
}

/// Sending a heartbeat records it as sent at that time and not yet
/// acknowledged, and keeps the interval, the last acknowledgement and the
/// sequence number.
pub proof fn lemma_heartbeat_records_sending(p: ProcessorView, now: u64)
    ensures
        state_after_action(p, ProcessorAction::ShouldHeartbeat, now).last_heartbeat == Some(now),
        !state_after_action(p, ProcessorAction::ShouldHeartbeat, now).acknowledged,
        state_after_action(p, ProcessorAction::ShouldHeartbeat, now).heartbeat_interval == p.heartbeat_interval,
        state_after_action(p, ProcessorAction::ShouldHeartbeat, now).last_heartbeat_ack == p.last_heartbeat_ack,
        state_after_action(p, ProcessorAction::ShouldHeartbeat, now).seq == p.seq,
{
}

} // verus!
