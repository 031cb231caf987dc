//! The connectivity orchestrator.
//!
//! A single event-loop task drives the overlay facade: it keeps a relay
//! reservation alive on the sharer side, locates and dials the sharer
//! through the relay on the user side, and retries failed dials toward
//! the sharer. The loop itself performs I/O and lives outside the
//! library; every decision it takes is [`step`], a pure transition from
//! the current [`ConnectivityState`] and the observed [`OverlayEvent`] to
//! the next state and the [`Action`]s to perform.

use vstd::prelude::*;

use crate::bytes::{bytes_eq, copy_bytes};
use crate::mode::{Configuration, ProxyBind};

verus! {

/// The orchestrator's mutable state, owned exclusively by the event-loop
/// task.
#[derive(PartialEq, Eq, Structural, Clone, Copy, Debug)]
pub struct ConnectivityState {
    /// A relay-circuit reservation is believed to be active. Cleared
    /// whenever the externally observed address expires, since the
    /// reservation is tied to that address.
    pub relay_reservation_active: bool,
    /// In user mode: the dial toward the sharer (and the local-listener
    /// spawn) has already been issued. Never reset.
    pub sharer_dial_in_progress: bool,
}

/// The state at startup, before any overlay event.
pub open spec fn initial_state() -> ConnectivityState {
    ConnectivityState { relay_reservation_active: false, sharer_dial_in_progress: false }
}

impl ConnectivityState {
    /// The state at startup.
    pub fn new() -> (s: ConnectivityState)
        ensures
            s == initial_state(),
    {
        ConnectivityState { relay_reservation_active: false, sharer_dial_in_progress: false }
    }
}

/// One event from the overlay facade's ordered event stream. Peer
/// identifiers carry their textual form as bytes.
#[allow(inconsistent_fields)]
pub enum OverlayEvent {
    /// An externally observed address of this process expired.
    ExternalAddrExpired,
    /// The relay accepted a reservation request; `relay` identifies it.
    RelayReservationAccepted { relay: Vec<u8> },
    /// An outbound connection attempt failed; the facade may or may not
    /// know which peer it was headed for.
    OutgoingConnectionFailed { peer: Option<Vec<u8>> },
    /// The peer-identification exchange with a connected peer completed.
    IdentifyReceived { peer: Vec<u8> },
    /// Any other event; logged at trace level and otherwise ignored.
    Other,
}

/// What the event loop must do after a step, in order.
pub enum Action {
    /// Dial the target peer through the relay-circuit address (the relay
    /// bootstrap address extended with a circuit marker and the target).
    DialSharerViaRelay { target: Vec<u8> },
    /// Request a relay-circuit listen, reserving a slot on the relay so
    /// that other peers can reach this one through it.
    RequestRelayReservation,
    /// Bind the local proxy listener and start the user-side bridge.
    SpawnLocalListener { bind: ProxyBind },
}

/// A failed outbound connection names the sharer target: only then is the
/// dial retried (through the relay circuit).
pub open spec fn failure_names_target(cfg: Configuration, peer: Option<Vec<u8>>) -> bool {
    cfg is User && peer is Some && peer->0@ == cfg->target@
}

/// The state transition of one orchestrator step.
pub open spec fn next_state(s: ConnectivityState, cfg: Configuration, e: OverlayEvent) -> ConnectivityState {
    match e {
        OverlayEvent::ExternalAddrExpired => ConnectivityState {
            relay_reservation_active: false,
            ..s
        },
        OverlayEvent::RelayReservationAccepted { .. } => ConnectivityState {
            relay_reservation_active: true,
            ..s
        },
        OverlayEvent::IdentifyReceived { .. } => if cfg is User && !s.sharer_dial_in_progress {
            ConnectivityState { sharer_dial_in_progress: true, ..s }
        } else {
            s
        },
        _ => s,
    }
}

/// `a` dials `target` through the relay circuit.
pub open spec fn dials_sharer(a: Action, target: Seq<u8>) -> bool {
    a matches Action::DialSharerViaRelay { target: t } && t@ == target
}

/// `a` spawns the local proxy listener with the given bind choice.
pub open spec fn spawns_listener(a: Action, bind: ProxyBind) -> bool {
    a matches Action::SpawnLocalListener { bind: b } && b == bind
}

/// The actions one orchestrator step emits, by case:
/// - a failed outbound connection naming the sharer target is retried
///   with exactly one dial through the relay circuit; any other failure
///   is ignored;
/// - an identify exchange in sharer mode requests a relay reservation
///   exactly when none is believed active;
/// - the first identify exchange in user mode (and only the first) dials
///   the sharer through the relay and spawns the local listener;
/// - every other event changes at most the state, never the environment.
pub open spec fn step_emits(
    s: ConnectivityState,
    cfg: Configuration,
    e: OverlayEvent,
    actions: Seq<Action>,
) -> bool {
    match e {
        OverlayEvent::OutgoingConnectionFailed { peer } => if failure_names_target(cfg, peer) {
            actions.len() == 1 && dials_sharer(actions[0], cfg->target@)
        } else {
            actions.len() == 0
        },
        OverlayEvent::IdentifyReceived { .. } => match cfg {
            Configuration::Sharer { .. } => if !s.relay_reservation_active {
                actions.len() == 1 && actions[0] is RequestRelayReservation
            } else {
                actions.len() == 0
            },
            Configuration::User { target, bind } => if !s.sharer_dial_in_progress {
                actions.len() == 2 && dials_sharer(actions[0], target@) && spawns_listener(
                    actions[1],
                    bind,
                )
            } else {
                actions.len() == 0
            },
            Configuration::PrintIdentityOnly => actions.len() == 0,
        },
        _ => actions.len() == 0,
    }
}

/// One step of the orchestrator: react to one overlay event with a state
/// transition and the actions the event loop must perform, in order.
///
/// The print-identity mode terminates at startup and never reaches the
/// event loop.
pub fn step(state: &mut ConnectivityState, cfg: &Configuration, event: &OverlayEvent) -> (actions:
    Vec<Action>)
    requires
        !(cfg is PrintIdentityOnly),
    ensures
        *final(state) == next_state(*old(state), *cfg, *event),
        step_emits(*old(state), *cfg, *event, actions@),
{
    match event {
        OverlayEvent::ExternalAddrExpired => {
            state.relay_reservation_active = false;
            Vec::new()
        },
        OverlayEvent::RelayReservationAccepted { .. } => {
            state.relay_reservation_active = true;
            Vec::new()
        },
        OverlayEvent::OutgoingConnectionFailed { peer } => {
            let mut actions: Vec<Action> = Vec::new();
            if let Configuration::User { target, .. } = cfg {
                if let Some(p) = peer {
                    if bytes_eq(p, target) {
                        actions.push(Action::DialSharerViaRelay { target: copy_bytes(target) });
                    }
                }
            }
            actions
        },
        OverlayEvent::IdentifyReceived { .. } => {
            let mut actions: Vec<Action> = Vec::new();
            match cfg {
                Configuration::Sharer { .. } => {
                    if !state.relay_reservation_active {
                        actions.push(Action::RequestRelayReservation);
                    }
                },
                Configuration::User { target, bind } => {
                    if !state.sharer_dial_in_progress {
                        actions.push(Action::DialSharerViaRelay { target: copy_bytes(target) });
                        actions.push(Action::SpawnLocalListener { bind: *bind });
                        state.sharer_dial_in_progress = true;
                    }
                },
                Configuration::PrintIdentityOnly => {},
            }
            actions
        },
        OverlayEvent::Other => Vec::new(),
    }
}

/// The state after a whole sequence of overlay events, applied in order.
pub open spec fn run_state(
    s0: ConnectivityState,
    cfg: Configuration,
    events: Seq<OverlayEvent>,
) -> ConnectivityState
    decreases events.len(),
{
    if events.len() == 0 {
        s0
    } else {
        next_state(run_state(s0, cfg, events.drop_last()), cfg, events.last())
    }
}

/// The most recent reservation-relevant event: `Some(false)` if it was an
/// address expiry, `Some(true)` if it was an accepted reservation, `None`
/// if neither kind occurred.
pub open spec fn latest_reservation_signal(events: Seq<OverlayEvent>) -> Option<bool>
    decreases events.len(),
{
    if events.len() == 0 {
        Option::<bool>::None
    } else {
        match events.last() {
            OverlayEvent::ExternalAddrExpired => Option::Some(false),
            OverlayEvent::RelayReservationAccepted { .. } => Option::Some(true),
            _ => latest_reservation_signal(events.drop_last()),
        }
    }
}

/// After any sequence of events, the relay-reservation flag reflects
/// exactly the most recent external-address-expired or
/// reservation-accepted event — in particular it is idempotent under
/// repetition of either — and is untouched by every other event.
pub proof fn lemma_reservation_reflects_latest(
    s0: ConnectivityState,
    cfg: Configuration,
    events: Seq<OverlayEvent>,
)
    ensures
        run_state(s0, cfg, events).relay_reservation_active == (match latest_reservation_signal(
            events,
        ) {
            Option::Some(b) => b,
            Option::None => s0.relay_reservation_active,
        }),
    decreases events.len(),
{
    if events.len() > 0 {
        lemma_reservation_reflects_latest(s0, cfg, events.drop_last());
    }
}

/// Some identify exchange occurs in `events`.
pub open spec fn has_identify(events: Seq<OverlayEvent>) -> bool {
    exists|i: int| 0 <= i < events.len() && events[i] is IdentifyReceived
}

/// Splitting off the last event splits `has_identify`.
proof fn lemma_has_identify_step(events: Seq<OverlayEvent>)
    requires
        events.len() > 0,
    ensures
        has_identify(events) == (has_identify(events.drop_last())
            || events.last() is IdentifyReceived),
{
    let dl = events.drop_last();
    if has_identify(dl) {
        let i = choose|i: int| 0 <= i < dl.len() && dl[i] is IdentifyReceived;
        assert(events[i] is IdentifyReceived);
    }
    if events.last() is IdentifyReceived {
        assert(events[events.len() - 1] is IdentifyReceived);
    }
    if has_identify(events) && !(events.last() is IdentifyReceived) {
        let i = choose|i: int| 0 <= i < events.len() && events[i] is IdentifyReceived;
        assert(dl[i] is IdentifyReceived);
    }
}

/// In user mode the dial flag is monotone: after any sequence of events
/// it is set iff it was set at the start or some identify exchange
/// occurred; once true it is never reset.
pub proof fn lemma_dial_flag_monotone(
    s0: ConnectivityState,
    cfg: Configuration,
    events: Seq<OverlayEvent>,
)
    requires
        cfg is User,
    ensures
        run_state(s0, cfg, events).sharer_dial_in_progress == (s0.sharer_dial_in_progress
            || has_identify(events)),
    decreases events.len(),
{
    if events.len() == 0 {
        assert(!has_identify(events));
    } else {
        lemma_dial_flag_monotone(s0, cfg, events.drop_last());
        lemma_has_identify_step(events);
    }
}

/// One step triggers the user-mode setup: the dial toward the sharer and
/// the local-listener spawn.
pub open spec fn triggers_user_setup(
    s: ConnectivityState,
    cfg: Configuration,
    e: OverlayEvent,
) -> bool {
    cfg is User && e is IdentifyReceived && !s.sharer_dial_in_progress
}

/// How many steps of the run trigger the user-mode setup.
pub open spec fn user_setup_count(
    s0: ConnectivityState,
    cfg: Configuration,
    events: Seq<OverlayEvent>,
) -> nat
    decreases events.len(),
{
    if events.len() == 0 {
        0nat
    } else {
        user_setup_count(s0, cfg, events.drop_last()) + (
        if triggers_user_setup(run_state(s0, cfg, events.drop_last()), cfg, events.last()) {
            1nat
        } else {
            0nat
        })
    }
}

/// In user mode, starting with the dial not yet issued, the sharer dial
/// and local-listener spawn are issued exactly once as soon as any
/// identify exchange arrives — however many identify events follow, from
/// the same peer or others — and never before one arrives.
pub proof fn lemma_user_setup_once(
    s0: ConnectivityState,
    cfg: Configuration,
    events: Seq<OverlayEvent>,
)
    requires
        cfg is User,
    ensures
        user_setup_count(s0, cfg, events) == (
        if !s0.sharer_dial_in_progress && has_identify(events) {
            1nat
        } else {
            0nat
        }),
    decreases events.len(),
{
    if events.len() == 0 {
        assert(!has_identify(events));
    } else {
        lemma_user_setup_once(s0, cfg, events.drop_last());
        lemma_dial_flag_monotone(s0, cfg, events.drop_last());
        lemma_has_identify_step(events);
    }
}

} // verus!
