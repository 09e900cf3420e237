//! The router task of a gateway: which step follows which, from the first packet that waits to the
//! end of the task.
//!
//! The task is a loop that performs an action and hands back what came of it. Packets wait in a
//! store until the router has taken them; a connection that fails is tried again after a pause
//! (the backoff).
use vstd::prelude::*;

verus! {

/// Packets that have waited longer than this, in seconds, are discarded when the store is read.
pub const STORE_GC_SECS: u64 = 60;

/// What the router task is doing.
#[derive(Clone, Copy, Debug, PartialEq, Eq, Structural)]
pub enum RouterState {
    /// Waiting for something to happen.
    Waiting,
    /// Storing an uplink packet.
    Storing,
    /// Taking the first packet out of the store.
    Popping,
    /// Sending the packet that was taken out.
    Sending,
    /// Putting the packet back that could not be sent.
    PuttingBack,
    /// Ending the connection to the router.
    Disconnecting,
    /// Setting the time of the next connection.
    BackingOff,
    /// Connecting to the router.
    Reconnecting,
    /// Handing over a downlink packet.
    Delivering,
    /// Answering the router's offer of a session.
    Initializing,
    /// Resetting the count of retries.
    Resetting,
    /// Nothing: the task is over.
    Stopped,
}

/// What happened, or what came of the last action.
#[derive(Clone, Copy, Debug)]
pub enum RouterEvent {
    /// The program is shutting down.
    Shutdown,
    /// An uplink packet came.
    Uplink,
    /// No more uplink packets will come.
    UplinkClosed,
    /// The backoff has elapsed.
    ReconnectDue,
    /// The router sent a downlink packet.
    Downlink,
    /// The router offered a session.
    SessionOffer,
    /// The router acknowledged a packet.
    PacketAck,
    /// The connection to the router failed.
    RouterError,
    /// The packet is stored. Tells whether the router is connected, and whether the backoff has
    /// elapsed.
    Stored { connected: bool, backoff_elapsed: bool },
    /// The store was read: how many milliseconds the packet has waited, or `None` if no packet is
    /// left.
    Popped { hold_millis: Option<u128> },
    /// Whether the packet was sent.
    Sent { ok: bool },
    /// Whether the router is connected now.
    Reconnected { ok: bool },
    /// Whether the session was established.
    SessionStarted { ok: bool },
    /// Whether the downlink packet was handed over.
    Delivered { ok: bool },
    /// The action was performed.
    Done,
}

/// What the task does next.
#[derive(Clone, Copy, Debug, PartialEq, Eq, Structural)]
pub enum RouterAction {
    /// Wait until something happens.
    Wait,
    /// Put the uplink packet at the end of the store.
    Store,
    /// Discard packets that are too old and take the first of the others out of the store.
    Pop { max_age_secs: u64 },
    /// Send the packet, with the time that it has waited, in milliseconds.
    Send { hold_time: u64 },
    /// Put the packet back at the front of the store.
    PutBack,
    /// End the connection to the router.
    Disconnect,
    /// Set the time of the next connection, after a failure or a success.
    UpdateBackoff { failed: bool },
    /// Connect to the router.
    Reconnect,
    /// Hand over the downlink packet.
    Deliver,
    /// Answer the offer of a session.
    InitSession,
    /// Reset the count of retries.
    ResetRetries,
    /// End the task.
    Stop,
}

/// The action that belongs to taking the next packet.
pub open spec fn pop_action() -> RouterAction {
    RouterAction::Pop { max_age_secs: STORE_GC_SECS }
}

/// The low 64 bits of a number of milliseconds.
pub open spec fn hold_time_of(hold_millis: u128) -> u64 {
    (hold_millis % 0x1_0000_0000_0000_0000) as u64
}

/// The state and the action that follow when something happens while the task waits. `None` if the
/// event answers an action.
pub open spec fn wake(event: RouterEvent) -> Option<(RouterState, RouterAction)> {
    match event {
        RouterEvent::Shutdown => Some((RouterState::Stopped, RouterAction::Stop)),
        RouterEvent::Uplink => Some((RouterState::Storing, RouterAction::Store)),
        RouterEvent::UplinkClosed => Some((RouterState::Stopped, RouterAction::Stop)),
        RouterEvent::ReconnectDue => Some((RouterState::Reconnecting, RouterAction::Reconnect)),
        RouterEvent::Downlink => Some((RouterState::Delivering, RouterAction::Deliver)),
        RouterEvent::SessionOffer => Some((RouterState::Initializing, RouterAction::InitSession)),
        RouterEvent::PacketAck => Some((RouterState::Waiting, RouterAction::Wait)),
        RouterEvent::RouterError => Some(
            (RouterState::BackingOff, RouterAction::UpdateBackoff { failed: true }),
        ),
        _ => None,
    }
}

/// The state and the action that follow. `None` if the event does not fit the state.
pub open spec fn next_step(state: RouterState, event: RouterEvent) -> Option<
    (RouterState, RouterAction),
> {
    match (state, event) {
        (RouterState::Waiting, _) => wake(event),
        (RouterState::Storing, RouterEvent::Stored { connected, backoff_elapsed }) => Some(
            if connected {
                (RouterState::Popping, pop_action())
            } else if backoff_elapsed {
                (RouterState::Reconnecting, RouterAction::Reconnect)
            } else {
                (RouterState::Waiting, RouterAction::Wait)
            },
        ),
        (RouterState::Popping, RouterEvent::Popped { hold_millis }) => Some(
            match hold_millis {
                Some(millis) => (
                    RouterState::Sending,
                    RouterAction::Send { hold_time: hold_time_of(millis) },
                ),
                None => (RouterState::Waiting, RouterAction::Wait),
            },
        ),
        (RouterState::Sending, RouterEvent::Sent { ok }) => Some(
            if ok {
                (RouterState::Popping, pop_action())
            } else {
                (RouterState::PuttingBack, RouterAction::PutBack)
            },
        ),
        (RouterState::PuttingBack, RouterEvent::Done) => Some(
            (RouterState::Disconnecting, RouterAction::Disconnect),
        ),
        (RouterState::Disconnecting, RouterEvent::Done) => Some(
            (RouterState::BackingOff, RouterAction::UpdateBackoff { failed: true }),
        ),
        (RouterState::BackingOff, RouterEvent::Done) => Some(
            (RouterState::Waiting, RouterAction::Wait),
        ),
        (RouterState::Reconnecting, RouterEvent::Reconnected { ok }) => Some(
            (RouterState::BackingOff, RouterAction::UpdateBackoff { failed: !ok }),
        ),
        (RouterState::Delivering, RouterEvent::Delivered { ok }) => Some(
            if ok {
                (RouterState::Waiting, RouterAction::Wait)
            } else {
                (RouterState::Stopped, RouterAction::Stop)
            },
        ),
        (RouterState::Initializing, RouterEvent::SessionStarted { ok }) => Some(
            if ok {
                (RouterState::Resetting, RouterAction::ResetRetries)
            } else {
                (RouterState::Disconnecting, RouterAction::Disconnect)
            },
        ),
        (RouterState::Resetting, RouterEvent::Done) => Some((RouterState::Popping, pop_action())),
        _ => None,
    }
}

/// Tells what follows when something happens while the task waits.
fn on_wake(event: RouterEvent) -> (next: Option<(RouterState, RouterAction)>)
    ensures
        next == wake(event),
{
    match event {
        RouterEvent::Shutdown => Some((RouterState::Stopped, RouterAction::Stop)),
        RouterEvent::Uplink => Some((RouterState::Storing, RouterAction::Store)),
        RouterEvent::UplinkClosed => Some((RouterState::Stopped, RouterAction::Stop)),
        RouterEvent::ReconnectDue => Some((RouterState::Reconnecting, RouterAction::Reconnect)),
        RouterEvent::Downlink => Some((RouterState::Delivering, RouterAction::Deliver)),
        RouterEvent::SessionOffer => Some((RouterState::Initializing, RouterAction::InitSession)),
        RouterEvent::PacketAck => Some((RouterState::Waiting, RouterAction::Wait)),
        RouterEvent::RouterError => Some(
            (RouterState::BackingOff, RouterAction::UpdateBackoff { failed: true }),
        ),
        _ => None,
    }
}

/// Tells what follows the sending of a packet, or the look whether there is one to send.
fn send_waiting_packets(state: RouterState, event: RouterEvent) -> (next: Option<
    (RouterState, RouterAction),
>)
    requires
        state == RouterState::Popping || state == RouterState::Sending,
    ensures
        next == next_step(state, event),
{
    match (state, event) {
        (RouterState::Popping, RouterEvent::Popped { hold_millis: Some(millis) }) => {
            let hold_time: u64 = (millis % 0x1_0000_0000_0000_0000) as u64;
            Some((RouterState::Sending, RouterAction::Send { hold_time }))
        },
        (RouterState::Popping, RouterEvent::Popped { hold_millis: None }) => Some(
            (RouterState::Waiting, RouterAction::Wait),
        ),
        (RouterState::Sending, RouterEvent::Sent { ok: true }) => Some(
            (RouterState::Popping, RouterAction::Pop { max_age_secs: STORE_GC_SECS }),
        ),
        (RouterState::Sending, RouterEvent::Sent { ok: false }) => Some(
            (RouterState::PuttingBack, RouterAction::PutBack),
        ),
        _ => None,
    }
}

/// Tells what follows an attempt to connect to the router.
fn try_reconnect(event: RouterEvent) -> (next: Option<(RouterState, RouterAction)>)
    ensures
        next == next_step(RouterState::Reconnecting, event),
{
    match event {
        RouterEvent::Reconnected { ok } => Some(
            (RouterState::BackingOff, RouterAction::UpdateBackoff { failed: !ok }),
        ),
        _ => None,
    }
}

/// A router task that has just started.
pub fn start() -> (first: (RouterState, RouterAction))
    ensures
        first == (RouterState::Waiting, RouterAction::Wait),
{
    (RouterState::Waiting, RouterAction::Wait)
}

/// Takes one step of the router task: from what it is doing and what came of that to what it does
/// next. `None` if the event does not fit the state.
pub fn step(state: RouterState, event: RouterEvent) -> (next: Option<(RouterState, RouterAction)>)
    ensures
        next == next_step(state, event),
        state == RouterState::Popping ==> (event matches RouterEvent::Popped {
            hold_millis: Some(millis),
        } ==> (millis <= u64::MAX ==> (next matches Some((RouterState::Sending, RouterAction::Send {
            hold_time,
        })) && hold_time == millis))),
{
    match state {
        RouterState::Waiting => on_wake(event),
        RouterState::Popping | RouterState::Sending => send_waiting_packets(state, event),
        RouterState::Reconnecting => try_reconnect(event),
        RouterState::Storing => match event {
            RouterEvent::Stored { connected, backoff_elapsed } => {
                if connected {
                    Some((RouterState::Popping, RouterAction::Pop { max_age_secs: STORE_GC_SECS }))
                } else if backoff_elapsed {
                    Some((RouterState::Reconnecting, RouterAction::Reconnect))
                } else {
                    Some((RouterState::Waiting, RouterAction::Wait))
                }
            },
            _ => None,
        },
        RouterState::Delivering => match event {
            RouterEvent::Delivered { ok: true } => Some((RouterState::Waiting, RouterAction::Wait)),
            RouterEvent::Delivered { ok: false } => Some(
                (RouterState::Stopped, RouterAction::Stop),
            ),
            _ => None,
        },
        RouterState::Initializing => match event {
            RouterEvent::SessionStarted { ok: true } => Some(
                (RouterState::Resetting, RouterAction::ResetRetries),
            ),
            RouterEvent::SessionStarted { ok: false } => Some(
                (RouterState::Disconnecting, RouterAction::Disconnect),
            ),
            _ => None,
        },
        RouterState::PuttingBack => match event {
            RouterEvent::Done => Some((RouterState::Disconnecting, RouterAction::Disconnect)),
            _ => None,
        },
        RouterState::Disconnecting => match event {
            RouterEvent::Done => Some(
                (RouterState::BackingOff, RouterAction::UpdateBackoff { failed: true }),
            ),
            _ => None,
        },
        RouterState::BackingOff => match event {
            RouterEvent::Done => Some((RouterState::Waiting, RouterAction::Wait)),
            _ => None,
        },
        RouterState::Resetting => match event {
            RouterEvent::Done => Some(
                (RouterState::Popping, RouterAction::Pop { max_age_secs: STORE_GC_SECS }),
            ),
            _ => None,
        },
        RouterState::Stopped => None,
    }
}

/// Where the packets of a router task are: in the store, in the hands of the task, sent.
#[verifier::ext_equal]
pub struct Packets {
    /// An uplink packet that came and is not stored yet.
    pub arrived: Option<int>,
    /// The packets in the store, the first one first.
    pub stored: Seq<int>,
    /// The packet that was taken out of the store and is not sent yet.
    pub in_hand: Option<int>,
    /// The packets that the router took, in the order in which it did.
    pub sent: Seq<int>,
}

impl Packets {
    /// All packets, the ones sent first and the one that came last at the end.
    pub open spec fn all(self) -> Seq<int> {
        let held = match self.in_hand {
            Some(p) => seq![p],
            None => Seq::empty(),
        };
        let new = match self.arrived {
            Some(p) => seq![p],
            None => Seq::empty(),
        };
        self.sent + held + self.stored + new
    }

    /// Where the packets are belongs to what the task is doing.
    pub open spec fn fit(self, state: RouterState) -> bool {
        &&& self.in_hand is Some <==> state == RouterState::Sending || state
            == RouterState::PuttingBack
        &&& self.arrived is Some <==> state == RouterState::Storing
    }

    /// Where the packets are when an event came, as far as the store itself discarded none (it
    /// discards those that are too old, and those that it has no room for): `arrival` is the
    /// uplink packet that came with the event. The event is what came of what the task was doing.
    pub open spec fn after(self, state: RouterState, event: RouterEvent, arrival: int) -> Packets {
        match (state, event) {
            (RouterState::Waiting, RouterEvent::Uplink) => Packets {
                arrived: Some(arrival),
                ..self
            },
            (RouterState::Storing, RouterEvent::Stored { connected, backoff_elapsed }) => Packets {
                arrived: None,
                stored: self.stored.push(self.arrived->0),
                ..self
            },
            (RouterState::Popping, RouterEvent::Popped { hold_millis: Some(_) }) => Packets {
                in_hand: Some(self.stored.first()),
                stored: self.stored.drop_first(),
                ..self
            },
            (RouterState::Sending, RouterEvent::Sent { ok: true }) => Packets {
                in_hand: None,
                sent: self.sent.push(self.in_hand->0),
                ..self
            },
            (RouterState::PuttingBack, RouterEvent::Done) => Packets {
                in_hand: None,
                stored: seq![self.in_hand->0] + self.stored,
                ..self
            },
            _ => self,
        }
    }
}

/// The router task loses no packet, doubles none and lets none overtake another: as far as the
/// store itself discards none, a step leaves the packets as they are, in their order, but for an
/// uplink packet that joins them at the end.
pub proof fn law_packets_are_kept_in_order(
    packets: Packets,
    state: RouterState,
    event: RouterEvent,
    arrival: int,
)
    requires
        packets.fit(state),
        next_step(state, event) is Some,
        event matches RouterEvent::Popped { hold_millis: Some(_) } ==> packets.stored.len() > 0,
    ensures
        packets.after(state, event, arrival).fit((next_step(state, event)->0).0),
        packets.after(state, event, arrival).all() == (if event is Uplink {
            packets.all().push(arrival)
        } else {
            packets.all()
        }),
        packets.sent.is_prefix_of(packets.after(state, event, arrival).sent),
{
    let after = packets.after(state, event, arrival);
    assert(after.all() =~= (if event is Uplink {
        packets.all().push(arrival)
    } else {
        packets.all()
    }));
}

/// A router task that is over does nothing more.
pub proof fn law_stopped_router_stays_stopped(event: RouterEvent)
    ensures
        next_step(RouterState::Stopped, event) is None,
{
}

/// A router task ends for three reasons only: the program shuts down, no more uplinks will come, or
/// nobody takes downlinks any more. It never ends with a packet in hand.
pub proof fn law_router_stops_only_when_told(state: RouterState, event: RouterEvent)
    ensures
        next_step(state, event) matches Some((next, action)) ==> {
            &&& next == RouterState::Stopped <==> action == RouterAction::Stop
            &&& action == RouterAction::Stop <==> {
                ||| state == RouterState::Waiting && event is Shutdown
                ||| state == RouterState::Waiting && event is UplinkClosed
                ||| state == RouterState::Delivering && event == (RouterEvent::Delivered {
                    ok: false,
                })
            }
        },
{
}

/// A packet goes back to the front of the store exactly if it could not be sent.
pub proof fn law_only_failed_packets_go_back(state: RouterState, event: RouterEvent)
    ensures
        next_step(state, event) matches Some((_, action)) ==> (action == RouterAction::PutBack
            <==> state == RouterState::Sending && event == (RouterEvent::Sent { ok: false })),
{
}

/// Whether an event tells of a failure between the task and the router.
pub open spec fn is_router_failure(event: RouterEvent) -> bool {
    ||| event is RouterError
    ||| event == RouterEvent::Sent { ok: false }
    ||| event == RouterEvent::Reconnected { ok: false }
    ||| event == RouterEvent::SessionStarted { ok: false }
}

/// Whether the task, as it goes on from a state and an action with nothing but performed actions,
/// sets the backoff for a failure before it waits again.
pub open spec fn backs_off(state: RouterState, action: RouterAction, steps: nat) -> bool
    decreases steps,
{
    ||| action == RouterAction::UpdateBackoff { failed: true }
    ||| steps > 0 && (next_step(state, RouterEvent::Done) matches Some((next, then_action))
        && backs_off(next, then_action, (steps - 1) as nat))
}

/// After every failure between the task and the router the backoff is set for a failure before the
/// task waits again.
pub proof fn law_every_failure_backs_off(state: RouterState, event: RouterEvent)
    requires
        is_router_failure(event),
    ensures
        next_step(state, event) matches Some((next, action)) ==> backs_off(next, action, 2),
{
    reveal_with_fuel(backs_off, 3);
}

/// Uplinks that keep coming cannot keep a disconnected task from connecting again: each of them
/// makes it connect if the backoff has elapsed, and only then.
pub proof fn law_uplinks_do_not_starve_the_reconnect(connected: bool, backoff_elapsed: bool)
    ensures
        next_step(RouterState::Storing, RouterEvent::Stored { connected, backoff_elapsed }) matches
            Some((next, action)) && (action == RouterAction::Reconnect <==> !connected
            && backoff_elapsed),
{
}

/// The backoff is set for a success exactly when the task has connected.
pub proof fn law_only_success_clears_the_backoff(state: RouterState, event: RouterEvent)
    ensures
        next_step(state, event) matches Some((_, action)) ==> (action
            == (RouterAction::UpdateBackoff { failed: false }) <==> state
            == RouterState::Reconnecting && event == (RouterEvent::Reconnected { ok: true })),
{
}

/// The packets that came in a run of the task, in their order: a run is a sequence of events, each
/// with the uplink packet that came with it, if it is one of those.
pub open spec fn arrivals(run: Seq<(RouterEvent, int)>) -> Seq<int>
    decreases run.len(),
{
    if run.len() == 0 {
        Seq::empty()
    } else if run.last().0 is Uplink {
        arrivals(run.drop_last()).push(run.last().1)
    } else {
        arrivals(run.drop_last())
    }
}

/// What the task is doing after a run, and where the packets are, as far as the store itself
/// discarded none. `None` if there is no such run: an event does not fit, or a packet is taken out
/// of an empty store.
pub open spec fn after_run(run: Seq<(RouterEvent, int)>) -> Option<(RouterState, Packets)>
    decreases run.len(),
{
    if run.len() == 0 {
        Some(
            (
                RouterState::Waiting,
                Packets {
                    arrived: None,
                    stored: Seq::empty(),
                    in_hand: None,
                    sent: Seq::empty(),
                },
            ),
        )
    } else {
        let (event, arrival) = run.last();
        match after_run(run.drop_last()) {
            Some((state, packets)) => match next_step(state, event) {
                Some((next, _)) => if (event matches RouterEvent::Popped { hold_millis: Some(_) })
                    && packets.stored.len() == 0 {
                    None
                } else {
                    Some((next, packets.after(state, event, arrival)))
                },
                None => None,
            },
            None => None,
        }
    }
}

/// However long the task runs, the packets that the router took are the first ones that came, in
/// their order; the others are still in its hands or in the store.
pub proof fn law_packets_are_sent_in_the_order_they_came(run: Seq<(RouterEvent, int)>)
    ensures
        after_run(run) matches Some((state, packets)) ==> {
            &&& packets.fit(state)
            &&& packets.all() == arrivals(run)
            &&& packets.sent.is_prefix_of(arrivals(run))
        },
    decreases run.len(),
{
    if run.len() == 0 {
        if let Some((_, packets)) = after_run(run) {
            assert(packets.all() =~= arrivals(run));
        }
    } else {
        law_packets_are_sent_in_the_order_they_came(run.drop_last());
        let (event, arrival) = run.last();
        if let (Some((state, packets)), Some(_)) = (after_run(run.drop_last()), after_run(run)) {
            law_packets_are_kept_in_order(packets, state, event, arrival);
            let after = packets.after(state, event, arrival);
            assert(after.all() == arrivals(run));
            assert(after.sent =~= after.all().take(after.sent.len() as int));
        }
    }
}

/// Whether positions, from the first to the last, pick the elements of one sequence out of another.
pub open spec fn picks(at: Seq<int>, part: Seq<int>, whole: Seq<int>) -> bool {
    &&& at.len() == part.len()
    &&& forall|i: int|
        0 <= i < part.len() ==> 0 <= #[trigger] at[i] < whole.len() && part[i] == whole[at[i]]
    &&& forall|i: int, j: int| 0 <= i < j < at.len() ==> #[trigger] at[i] < #[trigger] at[j]
}

/// Whether a sequence is another one with elements left out.
pub open spec fn is_subsequence(part: Seq<int>, whole: Seq<int>) -> bool {
    exists|at: Seq<int>| picks(at, part, whole)
}

proof fn lemma_subsequence_of_itself(s: Seq<int>)
    ensures
        is_subsequence(s, s),
{
    assert(picks(Seq::new(s.len(), |i: int| i), s, s));
}

proof fn lemma_subsequence_of_subsequence(a: Seq<int>, b: Seq<int>, c: Seq<int>)
    requires
        is_subsequence(a, b),
        is_subsequence(b, c),
    ensures
        is_subsequence(a, c),
{
    let ab = choose|at: Seq<int>| picks(at, a, b);
    let bc = choose|at: Seq<int>| picks(at, b, c);
    let ac = Seq::new(a.len(), |i: int| bc[ab[i]]);
    assert forall|i: int| 0 <= i < a.len() implies 0 <= #[trigger] ac[i] < c.len() && a[i]
        == c[ac[i]] by {
        assert(0 <= ab[i] < b.len() && a[i] == b[ab[i]]);
        assert(0 <= bc[ab[i]] < c.len() && b[ab[i]] == c[bc[ab[i]]]);
    }
    assert forall|i: int, j: int| 0 <= i < j < ac.len() implies #[trigger] ac[i]
        < #[trigger] ac[j] by {
        assert(ab[i] < ab[j]);
        assert(bc[ab[i]] < bc[ab[j]]);
    }
    assert(picks(ac, a, c));
}

proof fn lemma_subsequences_in_a_row(a: Seq<int>, b: Seq<int>, c: Seq<int>, d: Seq<int>)
    requires
        is_subsequence(a, b),
        is_subsequence(c, d),
    ensures
        is_subsequence(a + c, b + d),
{
    let ab = choose|at: Seq<int>| picks(at, a, b);
    let cd = choose|at: Seq<int>| picks(at, c, d);
    let at = Seq::new(
        a.len() + c.len(),
        |i: int|
            if i < a.len() {
                ab[i]
            } else {
                b.len() + cd[i - a.len()]
            },
    );
    assert forall|i: int| 0 <= i < (a + c).len() implies 0 <= #[trigger] at[i] < (b + d).len() && (a
        + c)[i] == (b + d)[at[i]] by {
        if i < a.len() {
            assert(0 <= ab[i] < b.len() && a[i] == b[ab[i]]);
        } else {
            let k = i - a.len();
            assert(0 <= cd[k] < d.len() && c[k] == d[cd[k]]);
        }
    }
    assert forall|i: int, j: int| 0 <= i < j < at.len() implies #[trigger] at[i]
        < #[trigger] at[j] by {
        if j < a.len() {
            assert(ab[i] < ab[j]);
        } else if i < a.len() {
            assert(0 <= ab[i] < b.len());
            assert(0 <= cd[j - a.len()] < d.len());
        } else {
            assert(cd[i - a.len()] < cd[j - a.len()]);
        }
    }
    assert(picks(at, a + c, b + d));
}

/// A step of a run with a store that discards packets: the event, the uplink packet that came with
/// it, if it is one of those, and the packets that the store still held when it came.
pub struct LossyStep {
    pub event: RouterEvent,
    pub arrival: int,
    pub left: Seq<int>,
}

/// The packets that came in such a run, in their order.
pub open spec fn lossy_arrivals(run: Seq<LossyStep>) -> Seq<int>
    decreases run.len(),
{
    if run.len() == 0 {
        Seq::empty()
    } else if run.last().event is Uplink {
        lossy_arrivals(run.drop_last()).push(run.last().arrival)
    } else {
        lossy_arrivals(run.drop_last())
    }
}

/// What the task is doing after such a run, and where the packets are. Before each event the store
/// may discard any of its packets. `None` if there is no such run: an event does not fit, the
/// store holds what it did not hold before, or a packet is taken out of an empty store.
pub open spec fn after_lossy_run(run: Seq<LossyStep>) -> Option<(RouterState, Packets)>
    decreases run.len(),
{
    if run.len() == 0 {
        after_run(Seq::empty())
    } else {
        let last = run.last();
        match after_lossy_run(run.drop_last()) {
            Some((state, packets)) => match next_step(state, last.event) {
                Some((next, _)) => if !is_subsequence(last.left, packets.stored) || ((last.event
                    matches RouterEvent::Popped { hold_millis: Some(_) }) && last.left.len()
                    == 0) {
                    None
                } else {
                    Some(
                        (
                            next,
                            Packets { stored: last.left, ..packets }.after(
                                state,
                                last.event,
                                last.arrival,
                            ),
                        ),
                    )
                },
                None => None,
            },
            None => None,
        }
    }
}

/// However long the task runs and whatever the store discards, the packets that the router took
/// came before in the same order, and each was taken at most once: they are the packets that came,
/// with some left out.
pub proof fn law_sent_packets_came_in_the_same_order(run: Seq<LossyStep>)
    ensures
        after_lossy_run(run) matches Some((state, packets)) ==> {
            &&& packets.fit(state)
            &&& is_subsequence(packets.all(), lossy_arrivals(run))
            &&& is_subsequence(packets.sent, lossy_arrivals(run))
        },
    decreases run.len(),
{
    if let Some((state, packets)) = after_lossy_run(run) {
        let came = lossy_arrivals(run);
        if run.len() == 0 {
            assert(packets.all() =~= came);
            lemma_subsequence_of_itself(came);
        } else {
            let last = run.last();
            let rest = run.drop_last();
            law_sent_packets_came_in_the_same_order(rest);
            let (before_state, before) = after_lossy_run(rest)->0;
            let kept = Packets { stored: last.left, ..before };
            lemma_discarding_leaves_a_subsequence(before, last.left);
            lemma_subsequence_of_subsequence(kept.all(), before.all(), lossy_arrivals(rest));
            law_packets_are_kept_in_order(kept, before_state, last.event, last.arrival);
            if last.event is Uplink {
                let new = seq![last.arrival];
                lemma_subsequence_of_itself(new);
                lemma_subsequences_in_a_row(kept.all(), lossy_arrivals(rest), new, new);
                assert(kept.all() + new =~= packets.all());
                assert(lossy_arrivals(rest) + new =~= came);
            }
        }
        let others = packets.all().skip(packets.sent.len() as int);
        lemma_subsequence_of_itself(packets.sent);
        assert(picks(Seq::empty(), Seq::empty(), others));
        lemma_subsequences_in_a_row(packets.sent, packets.sent, Seq::empty(), others);
        assert(packets.sent + Seq::<int>::empty() =~= packets.sent);
        assert(packets.sent + others =~= packets.all());
        lemma_subsequence_of_subsequence(packets.sent, packets.all(), came);
    }
}

proof fn lemma_discarding_leaves_a_subsequence(packets: Packets, left: Seq<int>)
    requires
        is_subsequence(left, packets.stored),
    ensures
        is_subsequence(Packets { stored: left, ..packets }.all(), packets.all()),
{
    let held = match packets.in_hand {
        Some(p) => seq![p],
        None => Seq::empty(),
    };
    let new = match packets.arrived {
        Some(p) => seq![p],
        None => Seq::empty(),
    };
    let head = packets.sent + held;
    lemma_subsequence_of_itself(head);
    lemma_subsequence_of_itself(new);
    lemma_subsequences_in_a_row(head, head, left, packets.stored);
    lemma_subsequences_in_a_row(head + left, head + packets.stored, new, new);
}

/// A packet is sent exactly when one was taken out of the store, and the router is told how many
/// milliseconds it has waited: all of them, as long as the number fits. Beyond that the number
/// starts again from zero.
pub proof fn law_hold_time_is_the_whole_wait(state: RouterState, event: RouterEvent)
    ensures
        next_step(state, event) matches Some((next, action)) ==> {
            &&& action is Send <==> state == RouterState::Popping && (event
                matches RouterEvent::Popped { hold_millis: Some(_) })
            &&& action matches RouterAction::Send { hold_time } ==> (event
                matches RouterEvent::Popped { hold_millis: Some(millis) } ==> {
                &&& millis <= u64::MAX ==> hold_time == millis
                &&& millis > u64::MAX ==> hold_time == millis as int % (u64::MAX + 1)
            })
        },
{
}

/// The longer a packet has waited, the longer the time that the router is told.
pub proof fn law_longer_waits_are_told_as_longer(shorter: u128, longer: u128)
    requires
        shorter < longer <= u64::MAX,
    ensures
        ({
            let first = next_step(
                RouterState::Popping,
                RouterEvent::Popped { hold_millis: Some(shorter) },
            );
            let second = next_step(
                RouterState::Popping,
                RouterEvent::Popped { hold_millis: Some(longer) },
            );
            &&& first matches Some((_, RouterAction::Send { hold_time: told }))
            &&& second matches Some((_, RouterAction::Send { hold_time: told_longer }))
            &&& told_longer - told == longer - shorter
        }),
{
}

/// What the task is doing is the action that it was told: each action has a state of its own.
pub proof fn law_state_is_the_action_in_hand(state: RouterState, event: RouterEvent)
    ensures
        next_step(state, event) matches Some((next, action)) ==> {
            &&& action == RouterAction::Wait <==> next == RouterState::Waiting
            &&& action == RouterAction::Store <==> next == RouterState::Storing
            &&& action is Pop <==> next == RouterState::Popping
            &&& action is Send <==> next == RouterState::Sending
            &&& action == RouterAction::PutBack <==> next == RouterState::PuttingBack
            &&& action == RouterAction::Disconnect <==> next == RouterState::Disconnecting
            &&& action is UpdateBackoff <==> next == RouterState::BackingOff
            &&& action == RouterAction::Reconnect <==> next == RouterState::Reconnecting
            &&& action == RouterAction::Deliver <==> next == RouterState::Delivering
            &&& action == RouterAction::InitSession <==> next == RouterState::Initializing
            &&& action == RouterAction::ResetRetries <==> next == RouterState::Resetting
            &&& action == RouterAction::Stop <==> next == RouterState::Stopped
        },
{
}

/// Every event that can happen while the task waits makes a step, and so does every answer to the
/// action in hand; nothing else does.
pub proof fn law_every_answer_makes_a_step(state: RouterState, event: RouterEvent)
    ensures
        next_step(state, event) is Some <==> match event {
            RouterEvent::Shutdown
            | RouterEvent::Uplink
            | RouterEvent::UplinkClosed
            | RouterEvent::ReconnectDue
            | RouterEvent::Downlink
            | RouterEvent::SessionOffer
            | RouterEvent::PacketAck
            | RouterEvent::RouterError => state == RouterState::Waiting,
            RouterEvent::Stored { connected, backoff_elapsed } => state == RouterState::Storing,
            RouterEvent::Popped { hold_millis } => state == RouterState::Popping,
            RouterEvent::Sent { ok } => state == RouterState::Sending,
            RouterEvent::Reconnected { ok } => state == RouterState::Reconnecting,
            RouterEvent::SessionStarted { ok } => state == RouterState::Initializing,
            RouterEvent::Delivered { ok } => state == RouterState::Delivering,
            RouterEvent::Done => state == RouterState::PuttingBack || state
                == RouterState::Disconnecting || state == RouterState::BackingOff || state
                == RouterState::Resetting,
        },
{
}

/// A packet is stored exactly when it comes; a downlink is handed over exactly when the router sends
/// one; a session is begun exactly when the router offers one, and the retries are reset exactly
/// when it was established.
pub proof fn law_the_task_answers_what_comes(state: RouterState, event: RouterEvent)
    ensures
        next_step(state, event) matches Some((_, action)) ==> {
            &&& action == RouterAction::Store <==> event is Uplink
            &&& action == RouterAction::Deliver <==> event is Downlink
            &&& action == RouterAction::InitSession <==> event is SessionOffer
            &&& action == RouterAction::ResetRetries <==> event == (RouterEvent::SessionStarted {
                ok: true,
            })
        },
{
}

/// The next packet is taken exactly when the router is connected and a packet was stored, when one
/// was sent, or when the retries were reset for a new session; packets that have waited for more
/// than 60 seconds are discarded then.
pub proof fn law_packets_are_taken_while_the_router_takes_them(
    state: RouterState,
    event: RouterEvent,
)
    ensures
        next_step(state, event) matches Some((_, action)) ==> {
            &&& action is Pop <==> {
                ||| event matches RouterEvent::Stored { connected: true, backoff_elapsed: _ }
                ||| event == (RouterEvent::Sent { ok: true })
                ||| state == RouterState::Resetting
            }
            &&& action matches RouterAction::Pop { max_age_secs } ==> max_age_secs == 60
        },
{
}

/// The connection is given up exactly when a packet that could not be sent was put back, or when a
/// session could not be established.
pub proof fn law_when_the_connection_is_given_up(state: RouterState, event: RouterEvent)
    ensures
        next_step(state, event) matches Some((_, action)) ==> (action == RouterAction::Disconnect
            <==> state == RouterState::PuttingBack || event == (RouterEvent::SessionStarted {
            ok: false,
        })),
{
}

/// A connection is tried exactly when the backoff has elapsed: by itself, or as a packet was stored
/// without a connection.
pub proof fn law_when_a_connection_is_tried(state: RouterState, event: RouterEvent)
    ensures
        next_step(state, event) matches Some((_, action)) ==> (action == RouterAction::Reconnect
            <==> event is ReconnectDue || event == (RouterEvent::Stored {
            connected: false,
            backoff_elapsed: true,
        })),
{
}

/// The backoff is set exactly when the connection failed, was given up or was tried, and for a
/// failure unless it was tried with success.
pub proof fn law_when_the_backoff_is_set(state: RouterState, event: RouterEvent)
    ensures
        next_step(state, event) matches Some((_, action)) ==> {
            &&& action is UpdateBackoff <==> event is RouterError || event is Reconnected || state
                == RouterState::Disconnecting
            &&& action matches RouterAction::UpdateBackoff { failed } ==> failed != (event
                == (RouterEvent::Reconnected { ok: true }))
        },
{
}

/// The task goes back to waiting exactly when there is nothing more to do: an acknowledgement came, a
/// packet was stored that has to wait, no packet is left, the backoff is set, or a downlink was
/// handed over.
pub proof fn law_when_the_task_waits(state: RouterState, event: RouterEvent)
    ensures
        next_step(state, event) matches Some((_, action)) ==> (action == RouterAction::Wait <==> {
            ||| event is PacketAck
            ||| event == (RouterEvent::Stored { connected: false, backoff_elapsed: false })
            ||| event == (RouterEvent::Popped { hold_millis: None })
            ||| state == RouterState::BackingOff
            ||| event == (RouterEvent::Delivered { ok: true })
        }),
{
}

} // verus!
