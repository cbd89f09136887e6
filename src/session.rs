use vstd::prelude::*;

verus! {

/// Seconds between two connection attempts at startup.
pub const CONNECT_RETRY_SECS: u64 = 5;

/// Seconds between two reconnection attempts after the connection was lost.
pub const RECONNECT_RETRY_SECS: u64 = 1;

/// Seconds between two subscription attempts.
pub const SUBSCRIBE_RETRY_SECS: u64 = 5;

/// Subscription attempts made before giving up.
pub const MAX_SUBSCRIBE_ATTEMPTS: u32 = 5;

/// Where the bus connection stands.
#[derive(Debug, Clone, Copy, PartialEq, Eq, Structural)]
pub enum ConnectionState {
    Disconnected,
    Connecting,
    Connected,
    Reconnecting,
}

/// What the bus reported.
#[derive(Debug, Clone, Copy, PartialEq, Eq, Structural)]
pub enum BusEvent {
    /// A connection attempt failed.
    ConnectFailed,
    /// A connection attempt succeeded; `session_present` when the broker
    /// resumed the earlier session, subscriptions included.
    Connected { session_present: bool },
    /// A message arrived on the stream.
    Message,
    /// The stream reported that the connection was lost.
    ConnectionLost,
}

/// What the caller does next.
#[derive(Debug, Clone, Copy, PartialEq, Eq, Structural)]
pub enum BusAction {
    /// Open the connection.
    Connect,
    /// Wait the given seconds, then try to connect again.
    RetryConnectAfter(u64),
    /// Subscribe to the channel topics.
    Subscribe,
    /// Go on consuming the stream.
    Resume,
    /// Run the message that arrived through the pipeline.
    Process,
    /// Try to reconnect now.
    Reconnect,
    /// Wait the given seconds, then try to reconnect again.
    RetryReconnectAfter(u64),
}

/// The next state and action of the connection lifecycle after an event.
pub open spec fn step_spec(s: ConnectionState, e: BusEvent) -> (ConnectionState, BusAction) {
    match e {
        BusEvent::Message => (s, BusAction::Process),
        BusEvent::ConnectionLost => (ConnectionState::Reconnecting, BusAction::Reconnect),
        BusEvent::ConnectFailed => match s {
            ConnectionState::Reconnecting => (
                ConnectionState::Reconnecting,
                BusAction::RetryReconnectAfter(RECONNECT_RETRY_SECS),
            ),
            ConnectionState::Connected => (ConnectionState::Connected, BusAction::Resume),
            _ => (ConnectionState::Connecting, BusAction::RetryConnectAfter(CONNECT_RETRY_SECS)),
        },
        BusEvent::Connected { session_present } => match s {
            ConnectionState::Reconnecting => if session_present {
                (ConnectionState::Connected, BusAction::Resume)
            } else {
                (ConnectionState::Connected, BusAction::Subscribe)
            },
            ConnectionState::Connected => (ConnectionState::Connected, BusAction::Resume),
            _ => (ConnectionState::Connected, BusAction::Subscribe),
        },
    }
}

/// The actions taken, one per event, when the events arrive in order from `s`.
pub open spec fn actions_of(s: ConnectionState, events: Seq<BusEvent>) -> Seq<BusAction>
    decreases events.len(),
{
    if events.len() == 0 {
        Seq::empty()
    } else {
        let (n, a) = step_spec(s, events[0]);
        seq![a] + actions_of(n, events.drop_first())
    }
}

/// The state reached after the events.
pub open spec fn state_after(s: ConnectionState, events: Seq<BusEvent>) -> ConnectionState
    decreases events.len(),
{
    if events.len() == 0 {
        s
    } else {
        state_after(step_spec(s, events[0]).0, events.drop_first())
    }
}

/// Connection lifecycle of the subscribing side.
pub struct BusSession {
    pub state: ConnectionState,
}

impl BusSession {
    /// A session that has not connected yet.
    pub fn new() -> (r: BusSession)
        ensures
            r.state == ConnectionState::Disconnected,
    {
        BusSession { state: ConnectionState::Disconnected }
    }

    /// Starts connecting.
    pub fn start(&mut self) -> (a: BusAction)
        ensures
            final(self).state == ConnectionState::Connecting,
            a == BusAction::Connect,
    {
        self.state = ConnectionState::Connecting;
        BusAction::Connect
    }

    /// Takes one event and says what to do next. Connecting is retried without
    /// limit; a lost connection leads to reconnecting, and subscriptions are
    /// renewed when the broker did not resume the session.
    pub fn on_event(&mut self, e: BusEvent) -> (a: BusAction)
        ensures
            (final(self).state, a) == step_spec(old(self).state, e),
    {
        match e {
            BusEvent::Message => BusAction::Process,
            BusEvent::ConnectionLost => {
                self.state = ConnectionState::Reconnecting;
                BusAction::Reconnect
            },
            BusEvent::ConnectFailed => match self.state {
                ConnectionState::Reconnecting => BusAction::RetryReconnectAfter(
                    RECONNECT_RETRY_SECS,
                ),
                ConnectionState::Connected => BusAction::Resume,
                _ => {
                    self.state = ConnectionState::Connecting;
                    BusAction::RetryConnectAfter(CONNECT_RETRY_SECS)
                },
            },
            BusEvent::Connected { session_present } => {
                let a = match self.state {
                    ConnectionState::Reconnecting => if session_present {
                        BusAction::Resume
                    } else {
                        BusAction::Subscribe
                    },
                    ConnectionState::Connected => BusAction::Resume,
                    _ => BusAction::Subscribe,
                };
                self.state = ConnectionState::Connected;
                a
            },
        }
    }
}

/// Every event gets exactly one action, in order, and an arriving message is
/// processed exactly where it stands: a lost connection and the reconnection
/// that follows neither repeat nor skip any message.
pub proof fn lemma_each_message_processed_once(s: ConnectionState, events: Seq<BusEvent>)
    ensures
        actions_of(s, events).len() == events.len(),
        forall|i: int|
            0 <= i < events.len() ==> (actions_of(s, events)[i] == BusAction::Process <==> events[i]
                == BusEvent::Message),
    decreases events.len(),
{
    if events.len() > 0 {
        let n = step_spec(s, events[0]).0;
        lemma_each_message_processed_once(n, events.drop_first());
        let rest = actions_of(n, events.drop_first());
        assert forall|i: int| 0 <= i < events.len() implies (actions_of(s, events)[i]
            == BusAction::Process <==> events[i] == BusEvent::Message) by {
            if i > 0 {
                assert(actions_of(s, events)[i] == rest[i - 1]);
                assert(events[i] == events.drop_first()[i - 1]);
            }
        }
    }
}

/// A message leaves the connection state as it was, so a message that fails in
/// the pipeline does not keep the next one from being processed.
pub proof fn lemma_message_keeps_state(s: ConnectionState)
    ensures
        step_spec(s, BusEvent::Message) == (s, BusAction::Process),
        state_after(s, seq![BusEvent::Message, BusEvent::Message]) == s,
        actions_of(s, seq![BusEvent::Message, BusEvent::Message]) == seq![
            BusAction::Process,
            BusAction::Process,
        ],
{
    reveal_with_fuel(state_after, 3);
    reveal_with_fuel(actions_of, 3);
    let ev = seq![BusEvent::Message, BusEvent::Message];
    assert(ev.drop_first() =~= seq![BusEvent::Message]);
    assert(ev.drop_first().drop_first() =~= Seq::<BusEvent>::empty());
    assert(actions_of(s, ev) =~= seq![BusAction::Process, BusAction::Process]);
}

/// A lost connection always ends in `Connected` once a reconnection succeeds,
/// however many attempts failed before it.
pub proof fn lemma_reconnect_reaches_connected(s: ConnectionState, failures: nat, resumed: bool)
    ensures
        state_after(
            s,
            seq![BusEvent::ConnectionLost] + Seq::new(failures, |i: int| BusEvent::ConnectFailed)
                + seq![BusEvent::Connected { session_present: resumed }],
        ) == ConnectionState::Connected,
    decreases failures,
{
    let tail = seq![BusEvent::Connected { session_present: resumed }];
    lemma_reconnecting_after_failures(failures, tail);
    let ev = seq![BusEvent::ConnectionLost] + Seq::new(failures, |i: int| BusEvent::ConnectFailed)
        + tail;
    assert(ev[0] == BusEvent::ConnectionLost);
    assert(ev.drop_first() =~= Seq::new(failures, |i: int| BusEvent::ConnectFailed) + tail);
    assert(state_after(s, ev) == state_after(ConnectionState::Reconnecting, ev.drop_first()));
    assert(tail.drop_first() =~= Seq::<BusEvent>::empty());
    reveal_with_fuel(state_after, 2);
    assert(state_after(ConnectionState::Reconnecting, tail) == ConnectionState::Connected);
}

proof fn lemma_reconnecting_after_failures(failures: nat, tail: Seq<BusEvent>)
    ensures
        state_after(
            ConnectionState::Reconnecting,
            Seq::new(failures, |i: int| BusEvent::ConnectFailed) + tail,
        ) == state_after(ConnectionState::Reconnecting, tail),
    decreases failures,
{
    if failures > 0 {
        let ev = Seq::new(failures, |i: int| BusEvent::ConnectFailed) + tail;
        assert(ev.drop_first() =~= Seq::new((failures - 1) as nat, |i: int| BusEvent::ConnectFailed)
            + tail);
        assert(ev[0] == BusEvent::ConnectFailed);
        lemma_reconnecting_after_failures((failures - 1) as nat, tail);
    }
}

/// Whether a subscription attempt is retried or the session gives up.
#[derive(Debug, Clone, Copy, PartialEq, Eq, Structural)]
pub enum SubscribeDecision {
    /// Wait the given seconds, then subscribe again.
    RetryAfter(u64),
    /// The attempt budget is spent: a fatal error.
    GiveUp,
}

/// The decision after the failed attempt number `attempt` (counted from one).
pub open spec fn decision_after_failure(attempt: nat) -> SubscribeDecision {
    if attempt >= MAX_SUBSCRIBE_ATTEMPTS {
        SubscribeDecision::GiveUp
    } else {
        SubscribeDecision::RetryAfter(SUBSCRIBE_RETRY_SECS)
    }
}

/// Decisions taken when the first `n` attempts all fail, as long as retries are
/// still allowed.
pub open spec fn decisions_for_failures(n: nat) -> Seq<SubscribeDecision>
    decreases n,
{
    if n == 0 {
        Seq::empty()
    } else {
        decisions_for_failures((n - 1) as nat) + seq![decision_after_failure(n)]
    }
}

/// Counts the subscription attempts made so far.
pub struct SubscribeRetry {
    pub attempts: u32,
}

impl SubscribeRetry {
    /// Attempts left to make.
    pub open spec fn wf(&self) -> bool {
        self.attempts < MAX_SUBSCRIBE_ATTEMPTS
    }

    /// No attempt made yet.
    pub fn new() -> (r: SubscribeRetry)
        ensures
            r.attempts == 0,
            r.wf(),
    {
        SubscribeRetry { attempts: 0 }
    }

    /// Records a failed attempt and says whether to retry; the fifth failure
    /// gives up.
    pub fn on_failure(&mut self) -> (d: SubscribeDecision)
        requires
            old(self).wf(),
        ensures
            final(self).attempts == old(self).attempts + 1,
            d == decision_after_failure(final(self).attempts as nat),
            d is RetryAfter <==> final(self).wf(),
    {
        self.attempts = self.attempts + 1;
        if self.attempts >= MAX_SUBSCRIBE_ATTEMPTS {
            SubscribeDecision::GiveUp
        } else {
            SubscribeDecision::RetryAfter(SUBSCRIBE_RETRY_SECS)
        }
    }
}

/// Against a broker that always refuses, the session retries four times and
/// gives up at exactly the fifth attempt.
pub proof fn lemma_gives_up_after_five()
    ensures
        decisions_for_failures(5) == seq![
            SubscribeDecision::RetryAfter(SUBSCRIBE_RETRY_SECS),
            SubscribeDecision::RetryAfter(SUBSCRIBE_RETRY_SECS),
            SubscribeDecision::RetryAfter(SUBSCRIBE_RETRY_SECS),
            SubscribeDecision::RetryAfter(SUBSCRIBE_RETRY_SECS),
            SubscribeDecision::GiveUp,
        ],
        forall|n: nat| 1 <= n < 5 ==> decision_after_failure(n) is RetryAfter,
{
    reveal_with_fuel(decisions_for_failures, 6);
    assert(decisions_for_failures(5) =~= seq![
        SubscribeDecision::RetryAfter(SUBSCRIBE_RETRY_SECS),
        SubscribeDecision::RetryAfter(SUBSCRIBE_RETRY_SECS),
        SubscribeDecision::RetryAfter(SUBSCRIBE_RETRY_SECS),
        SubscribeDecision::RetryAfter(SUBSCRIBE_RETRY_SECS),
        SubscribeDecision::GiveUp,
    ]);
}

} // verus!
