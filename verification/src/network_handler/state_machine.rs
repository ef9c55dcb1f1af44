//! The per-connection heartbeat state machine.  It is spawned by both the
//! acceptor and a discovery loop, drives one established connection, and has
//! one steady state: on each timer expiry it sends a ping carrying the
//! current time and the local version; on each inbound frame it answers a
//! ping with a pong and takes a pong as a liveness observation.  Any socket
//! error or malformed frame terminates it, and a machine given a failure
//! channel fires it exactly once on the way out.  The socket, the timer and
//! the clock live with the caller; the machine decides.

use crate::network_handler::protocol::{decode, spec_decode, spec_encode, PingCommand, PongResponse, Protocol, ProtocolView, MAX_ENVELOPE_BYTES};
use crate::state::{lemma_version_chars_ascii_len, spec_version_chars, Version};
use vstd::prelude::*;

verus! {

/// The fixed period of the per-connection heartbeat timer.
pub const HEARTBEAT_INTERVAL_MS: u64 = 10000;

/// The two event sources of an active connection, plus the two conditions
/// that end it: the recurring timer fired, a frame arrived and decoded, the
/// socket failed on send or receive, or a frame failed to decode.
#[derive(Debug)]
pub enum HeartbeatEvent {
    TimerFired,
    Received(Protocol),
    SocketError,
    MalformedFrame,
}

/// The mathematical value of an event.
pub enum HeartbeatEventView {
    TimerFired,
    Received(ProtocolView),
    SocketError,
    MalformedFrame,
}

impl View for HeartbeatEvent {
    type V = HeartbeatEventView;

    open spec fn view(&self) -> HeartbeatEventView {
        match self {
            HeartbeatEvent::TimerFired => HeartbeatEventView::TimerFired,
            HeartbeatEvent::Received(m) => HeartbeatEventView::Received(m@),
            HeartbeatEvent::SocketError => HeartbeatEventView::SocketError,
            HeartbeatEvent::MalformedFrame => HeartbeatEventView::MalformedFrame,
        }
    }
}

/// The machine's two states: driving traffic, or done for good.
#[derive(Debug, Clone, Copy, PartialEq, Eq, Structural)]
pub enum HeartbeatPhase {
    Active,
    Terminated,
}

/// One heartbeat state machine: its phase, whether its spawner gave it a
/// failure channel, and whether that channel has been fired.
#[derive(Debug, Clone, Copy, PartialEq, Eq, Structural)]
pub struct HeartbeatMachine {
    pub phase: HeartbeatPhase,
    pub has_failure_channel: bool,
    pub signaled: bool,
}

/// What the caller is asked to do after one event: send an envelope, rearm
/// the heartbeat timer, fire the one-shot failure signal, and the round-trip
/// liveness observation a pong yielded.
#[derive(Debug)]
pub struct HeartbeatOutput {
    pub send: Option<Protocol>,
    pub rearm_timer_ms: Option<u64>,
    pub signal_failure: bool,
    pub observed_latency: Option<i64>,
}

/// The value of an output's envelope, if it carries one.
pub open spec fn spec_send_view(r: HeartbeatOutput) -> Option<ProtocolView> {
    match r.send {
        Some(p) => Some(p@),
        None => None,
    }
}

/// The liveness observation a pong yields: how far the local clock is past
/// the pong's embedded send time, when that distance is representable.
pub open spec fn spec_latency(now: i64, sent: i64) -> Option<i64> {
    if i64::MIN <= now - sent <= i64::MAX {
        Some((now - sent) as i64)
    } else {
        None
    }
}

/// The machine's transition relation, one event at a time.  A terminated
/// machine does nothing.  An active one answers the timer with a ping
/// carrying the current time and the local version and rearms the timer;
/// answers an inbound ping with a pong carrying a fresh timestamp and the
/// local version; takes an inbound pong as a liveness observation; and on a
/// socket error or a malformed frame terminates, firing the failure signal
/// exactly when it holds a channel that has not fired yet.
pub open spec fn spec_heartbeat_step(
    pre: HeartbeatMachine,
    event: HeartbeatEventView,
    now: i64,
    version: Version,
    post: HeartbeatMachine,
    send: Option<ProtocolView>,
    rearm_timer_ms: Option<u64>,
    signal_failure: bool,
    observed_latency: Option<i64>,
) -> bool {
    if pre.phase is Terminated {
        post == pre && send is None && rearm_timer_ms is None && !signal_failure
            && observed_latency is None
    } else {
        match event {
            HeartbeatEventView::TimerFired => post == pre && send == Some(
                ProtocolView::Ping { time: now, version: spec_version_chars(version) },
            ) && rearm_timer_ms == Some(HEARTBEAT_INTERVAL_MS) && !signal_failure
                && observed_latency is None,
            HeartbeatEventView::Received(ProtocolView::Ping { .. }) => post == pre && send == Some(
                ProtocolView::Pong { time: now, version: spec_version_chars(version) },
            ) && rearm_timer_ms is None && !signal_failure && observed_latency is None,
            HeartbeatEventView::Received(ProtocolView::Pong { time: sent, .. }) => post == pre
                && send is None && rearm_timer_ms is None && !signal_failure && observed_latency
                == spec_latency(now, sent),
            HeartbeatEventView::SocketError | HeartbeatEventView::MalformedFrame => post == (
            HeartbeatMachine {
                phase: HeartbeatPhase::Terminated,
                has_failure_channel: pre.has_failure_channel,
                signaled: pre.signaled || pre.has_failure_channel,
            }) && send is None && rearm_timer_ms is None && signal_failure == (
            pre.has_failure_channel && !pre.signaled) && observed_latency is None,
        }
    }
}

/// The event a read-ready socket hands the machine once its bytes are
/// decoded: the envelope the frame held, or a malformed frame.
pub open spec fn spec_frame_event(b: Seq<u8>) -> HeartbeatEventView {
    match spec_decode(b) {
        Some(m) => HeartbeatEventView::Received(m),
        None => HeartbeatEventView::MalformedFrame,
    }
}

/// Relies on `chrono::Utc::now` and `DateTime::timestamp`: the current
/// wall-clock time in whole seconds since the Unix epoch.  The value depends
/// on the clock, so nothing is promised of it.
#[verifier::external_body]
fn now_epoch_seconds() -> i64 {
    chrono::Utc::now().timestamp()
}

impl HeartbeatMachine {
    /// A signal can only have been fired by a machine that holds a channel
    /// and has terminated.
    pub open spec fn wf(self) -> bool {
        self.signaled ==> (self.phase is Terminated && self.has_failure_channel)
    }

    /// A machine for a freshly established connection: active at once, with
    /// the timer to be armed for the first interval, its channel unfired.
    pub fn new(has_failure_channel: bool) -> (m: HeartbeatMachine)
        ensures
            m == (HeartbeatMachine {
                phase: HeartbeatPhase::Active,
                has_failure_channel,
                signaled: false,
            }),
            m.wf(),
    {
        HeartbeatMachine { phase: HeartbeatPhase::Active, has_failure_channel, signaled: false }
    }

    /// Advances the machine by one event, observed at time `now`, and says
    /// what to do on the connection.
    pub fn step(&mut self, event: HeartbeatEvent, now: i64, version: &Version) -> (r:
        HeartbeatOutput)
        requires
            old(self).wf(),
        ensures
            final(self).wf(),
            spec_heartbeat_step(
                *old(self),
                event@,
                now,
                *version,
                *final(self),
                spec_send_view(r),
                r.rearm_timer_ms,
                r.signal_failure,
                r.observed_latency,
            ),
    {
        if matches!(self.phase, HeartbeatPhase::Terminated) {
            return HeartbeatOutput {
                send: None,
                rearm_timer_ms: None,
                signal_failure: false,
                observed_latency: None,
            };
        }
        match event {
            HeartbeatEvent::TimerFired => HeartbeatOutput {
                send: Some(Protocol::Ping(PingCommand::new(now, version.display_string()))),
                rearm_timer_ms: Some(HEARTBEAT_INTERVAL_MS),
                signal_failure: false,
                observed_latency: None,
            },
            HeartbeatEvent::Received(Protocol::Ping(_)) => HeartbeatOutput {
                send: Some(Protocol::Pong(PongResponse::new(now, version.display_string()))),
                rearm_timer_ms: None,
                signal_failure: false,
                observed_latency: None,
            },
            HeartbeatEvent::Received(Protocol::Pong(p)) => HeartbeatOutput {
                send: None,
                rearm_timer_ms: None,
                signal_failure: false,
                observed_latency: now.checked_sub(p.time),
            },
            HeartbeatEvent::SocketError | HeartbeatEvent::MalformedFrame => {
                self.phase = HeartbeatPhase::Terminated;
                let fire = self.has_failure_channel && !self.signaled;
                if fire {
                    self.signaled = true;
                }
                HeartbeatOutput {
                    send: None,
                    rearm_timer_ms: None,
                    signal_failure: fire,
                    observed_latency: None,
                }
            },
        }
    }

    /// One expiry of the heartbeat timer against the real clock.  Whatever
    /// time the clock returned, an active machine stays active, sends a ping
    /// carrying the local version, and rearms the timer for the fixed
    /// interval.
    pub fn tick(&mut self, version: &Version) -> (r: HeartbeatOutput)
        requires
            old(self).wf(),
        ensures
            final(self).wf(),
            exists|now: i64|
                spec_heartbeat_step(
                    *old(self),
                    HeartbeatEventView::TimerFired,
                    now,
                    *version,
                    *final(self),
                    spec_send_view(r),
                    r.rearm_timer_ms,
                    r.signal_failure,
                    r.observed_latency,
                ),
    {
        let now = now_epoch_seconds();
        let r = self.step(HeartbeatEvent::TimerFired, now, version);
        proof {
            assert(spec_heartbeat_step(
                *old(self),
                HeartbeatEventView::TimerFired,
                now,
                *version,
                *final(self),
                spec_send_view(r),
                r.rearm_timer_ms,
                r.signal_failure,
                r.observed_latency,
            ));
        }
        r
    }

    /// One read-ready event against the real clock: decodes the frame the
    /// read made available and dispatches it.  Bytes that do not decode
    /// terminate the machine exactly as a malformed frame does.
    pub fn handle_frame(&mut self, bytes: &[u8], version: &Version) -> (r: HeartbeatOutput)
        requires
            old(self).wf(),
        ensures
            final(self).wf(),
            exists|now: i64|
                spec_heartbeat_step(
                    *old(self),
                    spec_frame_event(bytes@),
                    now,
                    *version,
                    *final(self),
                    spec_send_view(r),
                    r.rearm_timer_ms,
                    r.signal_failure,
                    r.observed_latency,
                ),
    {
        let now = now_epoch_seconds();
        let r = match decode(bytes) {
            Ok(message) => self.step(HeartbeatEvent::Received(message), now, version),
            Err(_) => self.step(HeartbeatEvent::MalformedFrame, now, version),
        };
        proof {
            assert(spec_heartbeat_step(
                *old(self),
                spec_frame_event(bytes@),
                now,
                *version,
                *final(self),
                spec_send_view(r),
                r.rearm_timer_ms,
                r.signal_failure,
                r.observed_latency,
            ));
        }
        r
    }
}

/// The failure signal fires at most once: only on the transition out of
/// `Active`, and a machine whose signal has fired never fires it again,
/// whatever event arrives.
pub proof fn lemma_signal_at_most_once(
    pre: HeartbeatMachine,
    event: HeartbeatEventView,
    now: i64,
    version: Version,
    post: HeartbeatMachine,
    send: Option<ProtocolView>,
    rearm_timer_ms: Option<u64>,
    signal_failure: bool,
    observed_latency: Option<i64>,
)
    requires
        pre.wf(),
        spec_heartbeat_step(
            pre,
            event,
            now,
            version,
            post,
            send,
            rearm_timer_ms,
            signal_failure,
            observed_latency,
        ),
    ensures
        signal_failure ==> pre.phase is Active && post.phase is Terminated && post.signaled,
        pre.signaled ==> !signal_failure,
{
}

/// Envelopes this node builds never exceed the size budget: encoding a ping
/// or a pong that carries the node's rendered version always succeeds.  An
/// encode failure is a defect, not a runtime condition to recover from.
pub proof fn lemma_heartbeat_envelope_fits(m: ProtocolView, v: Version)
    requires
        m.version() == spec_version_chars(v),
    ensures
        spec_encode(m).len() <= MAX_ENVELOPE_BYTES,
{
    lemma_version_chars_ascii_len(v);
    vstd::utf8::is_ascii_chars_encode_utf8(spec_version_chars(v));
    vstd::bytes::lemma_auto_spec_u64_to_from_le_bytes();
}

/// A pong answers a ping with the responder's fresh timestamp and the
/// responder's own version: when the responder's clock is not behind the
/// ping's send time, the pong's time is at or after it.
pub proof fn lemma_pong_answers_ping(
    pre: HeartbeatMachine,
    ping_time: i64,
    ping_version: Seq<char>,
    now: i64,
    version: Version,
    post: HeartbeatMachine,
    send: Option<ProtocolView>,
    rearm_timer_ms: Option<u64>,
    signal_failure: bool,
    observed_latency: Option<i64>,
)
    requires
        pre.phase is Active,
        now >= ping_time,
        spec_heartbeat_step(
            pre,
            HeartbeatEventView::Received(
                ProtocolView::Ping { time: ping_time, version: ping_version },
            ),
            now,
            version,
            post,
            send,
            rearm_timer_ms,
            signal_failure,
            observed_latency,
        ),
    ensures
        send matches Some(m) && m is Pong && m.time() >= ping_time && m.version()
            == spec_version_chars(version),
{
}

} // verus!
