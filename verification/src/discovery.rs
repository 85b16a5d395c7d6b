//! One discovery round, without the socket.
//!
//! The caller owns the socket. It broadcasts the probe, then receives datagrams
//! with a read timeout of `timeout_seconds` and reports each outcome here as a
//! `DiscoveryEvent`; `Discovery::on_event` says whether to receive again or to
//! stop. A datagram that cannot be decoded is dropped and the round goes on. The
//! round ends when a datagram comes after the timeout has passed, or when no
//! datagram comes within the read timeout; neither is an error. It fails when
//! the socket does.

use vstd::prelude::*;
use crate::device::{device_views, DeviceInfoResponse, DeviceView};

verus! {

/// Where the probe is sent: the broadcast address, on the port the plugs listen on.
pub const BROADCAST_ADDRESS: &'static str = "255.255.255.255:9999";

/// Where the replies are awaited.
pub const LOCAL_ADDRESS: &'static str = "0.0.0.0:8755";

/// The longest datagram that is read.
pub const MAX_DATAGRAM_LEN: usize = 2048;

/// How long the round has run when a datagram comes.
#[derive(Clone, Copy, Debug, PartialEq, Eq, Structural)]
pub struct Elapsed {
    pub seconds: u64,
    pub nanoseconds: u32,
}

/// What the socket gave.
#[derive(Debug, PartialEq, Eq)]
pub enum DiscoveryEvent {
    /// A datagram came and was decoded.
    Reply { device: DeviceInfoResponse, elapsed: Elapsed },
    /// A datagram came that is no reply.
    Undecodable { elapsed: Elapsed },
    /// No datagram came within the read timeout.
    Silence,
    /// Receiving failed for another reason.
    ReceiveFailed,
}

/// What the caller does next.
#[derive(Clone, Copy, Debug, PartialEq, Eq, Structural)]
pub enum DiscoveryAction {
    /// Receive another datagram.
    Receive,
    /// Stop: the round is over.
    Finish,
    /// Stop: the round has failed.
    Fail,
}

/// Where a round stands.
#[derive(Clone, Copy, Debug, PartialEq, Eq, Structural)]
pub enum DiscoveryPhase {
    /// Datagrams are awaited.
    Receiving,
    /// The round is over.
    Finished,
    /// The socket failed.
    Failed,
}

/// Why a round gave no result.
#[derive(Clone, Copy, Debug, PartialEq, Eq, Structural)]
pub enum TransportError {
    /// The socket failed while a datagram was awaited.
    ReceiveFailed,
}

/// The state of a round.
#[derive(Debug, PartialEq, Eq)]
pub struct Discovery {
    pub timeout_seconds: u64,
    /// The replies so far, in the order in which they came.
    pub devices: Vec<DeviceInfoResponse>,
    pub phase: DiscoveryPhase,
}

/// A `Discovery` as contracts see it.
pub struct DiscoveryView {
    pub timeout_seconds: u64,
    pub devices: Seq<DeviceView>,
    pub phase: DiscoveryPhase,
}

impl View for Discovery {
    type V = DiscoveryView;

    open spec fn view(&self) -> DiscoveryView {
        DiscoveryView {
            timeout_seconds: self.timeout_seconds,
            devices: device_views(self.devices@),
            phase: self.phase,
        }
    }
}

/// Whether more than `timeout_seconds` have passed.
pub open spec fn timed_out(elapsed: Elapsed, timeout_seconds: u64) -> bool {
    elapsed.seconds > timeout_seconds || (elapsed.seconds == timeout_seconds
        && elapsed.nanoseconds > 0)
}

/// Where a round that is receiving stands after a datagram that came at
/// `elapsed`.
pub open spec fn phase_after_datagram(elapsed: Elapsed, timeout_seconds: u64) -> DiscoveryPhase {
    if timed_out(elapsed, timeout_seconds) {
        DiscoveryPhase::Finished
    } else {
        DiscoveryPhase::Receiving
    }
}

/// The round after `event`. A round that is no longer receiving stays as it is.
/// In one that is, a reply is added at the end of the replies, and nothing else
/// changes them.
pub open spec fn round_after(round: DiscoveryView, event: DiscoveryEvent) -> DiscoveryView {
    if round.phase != DiscoveryPhase::Receiving {
        round
    } else {
        match event {
            DiscoveryEvent::Reply { device, elapsed } => DiscoveryView {
                timeout_seconds: round.timeout_seconds,
                devices: round.devices.push(device@),
                phase: phase_after_datagram(elapsed, round.timeout_seconds),
            },
            DiscoveryEvent::Undecodable { elapsed } => DiscoveryView {
                timeout_seconds: round.timeout_seconds,
                devices: round.devices,
                phase: phase_after_datagram(elapsed, round.timeout_seconds),
            },
            DiscoveryEvent::Silence => DiscoveryView {
                timeout_seconds: round.timeout_seconds,
                devices: round.devices,
                phase: DiscoveryPhase::Finished,
            },
            DiscoveryEvent::ReceiveFailed => DiscoveryView {
                timeout_seconds: round.timeout_seconds,
                devices: round.devices,
                phase: DiscoveryPhase::Failed,
            },
        }
    }
}

/// What the caller does with a round in `phase`.
pub open spec fn action_in(phase: DiscoveryPhase) -> DiscoveryAction {
    match phase {
        DiscoveryPhase::Receiving => DiscoveryAction::Receive,
        DiscoveryPhase::Finished => DiscoveryAction::Finish,
        DiscoveryPhase::Failed => DiscoveryAction::Fail,
    }
}

/// No event takes a reply away or moves one: what was collected stays, in its
/// order, at the front of what is collected later. And no event starts a round
/// again that has stopped.
pub proof fn lemma_replies_are_kept(round: DiscoveryView, event: DiscoveryEvent)
    ensures
        round.devices.is_prefix_of(round_after(round, event).devices),
        round_after(round, event).devices.len() <= round.devices.len() + 1,
        round.phase != DiscoveryPhase::Receiving ==> round_after(round, event) == round,
{
}

/// The round after the events `events`, taken in their order.
pub open spec fn round_after_all(round: DiscoveryView, events: Seq<DiscoveryEvent>) -> DiscoveryView
    decreases events.len(),
{
    if events.len() == 0 {
        round
    } else {
        round_after(round_after_all(round, events.drop_last()), events.last())
    }
}

/// The replies among `events`, in their order.
pub open spec fn replies_among(events: Seq<DiscoveryEvent>) -> Seq<DeviceView>
    decreases events.len(),
{
    if events.len() == 0 {
        Seq::empty()
    } else {
        match events.last() {
            DiscoveryEvent::Reply { device, .. } => replies_among(events.drop_last()).push(
                device@,
            ),
            _ => replies_among(events.drop_last()),
        }
    }
}

/// A round that is still receiving when the last of `events` comes has collected
/// every reply among them, in the order of arrival, and nothing else: whatever
/// else came was dropped without a trace.
pub proof fn lemma_round_collects_replies(round: DiscoveryView, events: Seq<DiscoveryEvent>)
    requires
        events.len() > 0 ==> round_after_all(round, events.drop_last()).phase
            == DiscoveryPhase::Receiving,
    ensures
        round_after_all(round, events).devices == round.devices + replies_among(events),
    decreases events.len(),
{
    if events.len() == 0 {
        assert(round.devices + replies_among(events) =~= round.devices);
    } else {
        let earlier = events.drop_last();
        if earlier.len() > 0 {
            lemma_replies_are_kept(round_after_all(round, earlier.drop_last()), earlier.last());
        }
        lemma_round_collects_replies(round, earlier);
        assert(round_after_all(round, events).devices =~= round.devices + replies_among(
            events,
        ));
    }
}

impl Discovery {
    /// A round that has not heard anything yet.
    pub fn new(timeout_seconds: u64) -> (round: Self)
        ensures
            round@ == (DiscoveryView {
                timeout_seconds,
                devices: Seq::empty(),
                phase: DiscoveryPhase::Receiving,
            }),
            round.devices@.len() == 0,
    {
        let round = Discovery {
            timeout_seconds,
            devices: Vec::new(),
            phase: DiscoveryPhase::Receiving,
        };
        assert(round@.devices =~= Seq::empty());
        round
    }

    /// Takes note of what the socket gave, and says what to do next.
    pub fn on_event(&mut self, event: DiscoveryEvent) -> (action: DiscoveryAction)
        ensures
            final(self)@ == round_after(old(self)@, event),
            action == action_in(final(self).phase),
    {
        let ghost before = self@.devices;
        match self.phase {
            DiscoveryPhase::Receiving => {},
            DiscoveryPhase::Finished => {
                return DiscoveryAction::Finish;
            },
            DiscoveryPhase::Failed => {
                return DiscoveryAction::Fail;
            },
        }
        let arrived = match event {
            DiscoveryEvent::Reply { device, elapsed } => {
                self.devices.push(device);
                assert(device_views(self.devices@) =~= before.push(device@));
                elapsed
            },
            DiscoveryEvent::Undecodable { elapsed } => elapsed,
            DiscoveryEvent::Silence => {
                self.phase = DiscoveryPhase::Finished;
                return DiscoveryAction::Finish;
            },
            DiscoveryEvent::ReceiveFailed => {
                self.phase = DiscoveryPhase::Failed;
                return DiscoveryAction::Fail;
            },
        };
        if arrived.seconds > self.timeout_seconds || (arrived.seconds == self.timeout_seconds
            && arrived.nanoseconds > 0) {
            self.phase = DiscoveryPhase::Finished;
            DiscoveryAction::Finish
        } else {
            DiscoveryAction::Receive
        }
    }

    /// The replies of the round, in the order in which they came, unless the
    /// socket failed. A round in which no plug answered gives none, and that is
    /// no error.
    pub fn into_devices(self) -> (devices: Result<Vec<DeviceInfoResponse>, TransportError>)
        ensures
            devices == if self.phase == DiscoveryPhase::Failed {
                Err::<Vec<DeviceInfoResponse>, TransportError>(TransportError::ReceiveFailed)
            } else {
                Ok::<Vec<DeviceInfoResponse>, TransportError>(self.devices)
            },
    {
        match self.phase {
            DiscoveryPhase::Failed => Err(TransportError::ReceiveFailed),
            _ => Ok(self.devices),
        }
    }
}

} // verus!
