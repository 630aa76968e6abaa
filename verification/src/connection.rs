//! The connection manager: the power-up/handshake/reconnect state machine
//! that supervises the serial link and owns the decoder for the session.
//!
//! The machine itself is pure: every transition is a function from the
//! current session state and one event (a handshake outcome, a received
//! byte, a detect edge, an idle timeout) to the next state and, for bytes,
//! the fresh report. The waiting - serial reads, settle intervals, timeouts,
//! edge detection - is outside work: the caller performs it with the
//! parameters this module hands out and feeds the outcome back in.

use vstd::prelude::*;

use crate::report::{report_matches, KeyboardReport};
use crate::state::{decode_step, initial_view, State, StateView};

verus! {

/// How long the line is held low before a toggle's rising edge, in
/// milliseconds. The remote keyboard re-arms its transmitter only on a
/// rising edge of request-to-send, so the line must settle low first.
pub const SETTLE_MS: u64 = 15;

/// The handshake read deadline on a cold start, in milliseconds.
pub const COLD_TIMEOUT_MS: u64 = 100;

/// The handshake read deadline on a warm reconnect, in milliseconds: the
/// link is already known-good, so a long wait would only block key delivery.
pub const WARM_TIMEOUT_MS: u64 = 30;

/// How long the link may stay idle before a proactive re-handshake keeps the
/// remote side out of low-power mode, in seconds.
pub const IDLE_TIMEOUT_SECS: u64 = 60;

/// How many consecutive failed reconnect attempts force the decoder state
/// back to its all-released default.
pub const FAILURE_RESET_THRESHOLD: u32 = 5;

/// The first byte of the handshake token the keyboard emits after a toggle.
pub const HANDSHAKE_BYTE_0: u8 = 0xFA;

/// The second byte of the handshake token.
pub const HANDSHAKE_BYTE_1: u8 = 0xFD;

/// The link phase the session is in.
#[derive(Clone, Copy, PartialEq, Eq, Structural, Debug)]
pub enum Phase {
    /// Power and request-to-send not yet driven.
    PoweredDown,
    /// Cold start: toggling and reading handshake bytes, unbounded retries.
    Handshaking,
    /// Steady state: every received byte goes to the decoder.
    Linked,
    /// Warm reconnect after a disconnect or idle timeout, counted retries.
    Recovering,
}

/// The serial faults the receive path distinguishes. Every one is logged by
/// the caller and none mutates the session.
#[derive(Clone, Copy, PartialEq, Eq, Structural, Debug)]
pub enum LinkErrorKind {
    Framing,
    Noise,
    Overrun,
    Parity,
    BufferTooLong,
    Unknown,
}

/// The two events that interrupt a linked session: the connection-detect
/// line rising, or the idle watchdog firing.
#[derive(Clone, Copy, PartialEq, Eq, Structural, Debug)]
pub enum LinkedEvent {
    DetectEdge,
    IdleTimeout,
}

/// What the caller must do on the lines for one handshake attempt: hold
/// request-to-send low for `settle_ms`, raise power-enable if `power_on`,
/// raise request-to-send, then read two bytes under `timeout_ms`.
#[derive(Clone, Copy, PartialEq, Eq, Structural, Debug)]
pub struct ToggleParams {
    pub settle_ms: u64,
    pub power_on: bool,
    pub timeout_ms: u64,
}

/// The toggle for a cold start: power comes up with the line, and the long
/// deadline tolerates a keyboard that is still waking.
pub open spec fn cold_toggle() -> ToggleParams {
    ToggleParams { settle_ms: SETTLE_MS, power_on: true, timeout_ms: COLD_TIMEOUT_MS }
}

/// The toggle for a warm reconnect: power stays up, short deadline.
pub open spec fn warm_toggle() -> ToggleParams {
    ToggleParams { settle_ms: SETTLE_MS, power_on: false, timeout_ms: WARM_TIMEOUT_MS }
}

/// The mathematical state of a connection session.
#[verifier::ext_equal]
pub ghost struct ConnView {
    pub phase: Phase,
    pub failures: u32,
    pub decoder: StateView,
}

/// The session state when the supervising task starts.
pub open spec fn conn_initial() -> ConnView {
    ConnView { phase: Phase::PoweredDown, failures: 0, decoder: initial_view() }
}

/// Success of a handshake attempt: exactly the token `0xFA 0xFD`, read in
/// full before the deadline. A read that timed out or failed carries no
/// bytes.
pub open spec fn handshake_token_ok(bytes: Option<(u8, u8)>) -> bool {
    bytes == Some((HANDSHAKE_BYTE_0, HANDSHAKE_BYTE_1))
}

/// The transition taken when a handshake attempt concludes. Success links
/// the session and clears the failure counter. A cold-start failure just
/// stays in `Handshaking` for the next attempt. A warm-reconnect failure
/// counts, and from the fifth consecutive failure on, the decoder state is
/// forced back to its all-released default so that no stuck key survives a
/// prolonged physical disconnect.
pub open spec fn handshake_step(c: ConnView, bytes: Option<(u8, u8)>) -> ConnView {
    if handshake_token_ok(bytes) {
        ConnView { phase: Phase::Linked, failures: 0, decoder: c.decoder }
    } else if c.phase == Phase::Recovering {
        let n = if c.failures < FAILURE_RESET_THRESHOLD {
            (c.failures + 1) as u32
        } else {
            c.failures
        };
        ConnView {
            phase: Phase::Recovering,
            failures: n,
            decoder: if n >= FAILURE_RESET_THRESHOLD {
                initial_view()
            } else {
                c.decoder
            },
        }
    } else {
        c
    }
}

/// Law: the outcome of one handshake attempt decides linking. The token
/// `0xFA 0xFD`, and only that token, moves the session to `Linked`; any other
/// pair of bytes, a timeout, or a read fault leaves it in its phase for the
/// next toggle.
pub proof fn lemma_handshake_decides_linking(c: ConnView, bytes: Option<(u8, u8)>)
    requires
        c.phase == Phase::Handshaking || c.phase == Phase::Recovering,
    ensures
        handshake_token_ok(bytes) == (bytes == Some((0xFAu8, 0xFDu8))),
        handshake_token_ok(bytes) ==> handshake_step(c, bytes).phase == Phase::Linked,
        !handshake_token_ok(bytes) ==> handshake_step(c, bytes).phase == c.phase,
        handshake_step(c, bytes).decoder == (if !handshake_token_ok(bytes) && c.phase
            == Phase::Recovering && c.failures + 1 >= FAILURE_RESET_THRESHOLD {
            initial_view()
        } else {
            c.decoder
        }),
{
}

/// Law: five consecutive failed reconnect attempts, starting a recovery with
/// a clear failure counter, force the decoder state back to its all-released
/// default, and the session is still recovering.
pub proof fn lemma_five_failed_reconnects(
    c: ConnView,
    b1: Option<(u8, u8)>,
    b2: Option<(u8, u8)>,
    b3: Option<(u8, u8)>,
    b4: Option<(u8, u8)>,
    b5: Option<(u8, u8)>,
)
    requires
        c.phase == Phase::Recovering,
        c.failures == 0,
        !handshake_token_ok(b1),
        !handshake_token_ok(b2),
        !handshake_token_ok(b3),
        !handshake_token_ok(b4),
        !handshake_token_ok(b5),
    ensures
        handshake_step(
            handshake_step(handshake_step(handshake_step(handshake_step(c, b1), b2), b3), b4),
            b5,
        ).decoder == initial_view(),
        handshake_step(
            handshake_step(handshake_step(handshake_step(handshake_step(c, b1), b2), b3), b4),
            b5,
        ).phase == Phase::Recovering,
{
}

/// The connection manager: the session phase, the rolling failure counter,
/// and the decoder it owns for the session.
pub struct Connection {
    phase: Phase,
    failures: u32,
    state: State,
}

impl View for Connection {
    type V = ConnView;

    closed spec fn view(&self) -> ConnView {
        ConnView { phase: self.phase, failures: self.failures, decoder: self.state@ }
    }
}

impl Connection {
    /// Well-formedness of a session: the counter never runs past the reset
    /// threshold, and the decoder state is well-formed.
    pub open spec fn wf(self) -> bool {
        &&& self@.failures <= FAILURE_RESET_THRESHOLD
        &&& self@.decoder.wf()
    }

    /// A fresh session, as at supervisor start.
    pub fn new() -> (c: Connection)
        ensures
            c@ == conn_initial(),
            c.wf(),
    {
        let c = Connection { phase: Phase::PoweredDown, failures: 0, state: State::new() };
        proof {
            assert(c@ =~= conn_initial());
        }
        c
    }

    /// Leaves `PoweredDown` for the cold-start handshake loop, handing back
    /// the toggle the caller must perform.
    pub fn power_up(&mut self) -> (p: ToggleParams)
        requires
            old(self)@.phase == Phase::PoweredDown,
            old(self).wf(),
        ensures
            final(self)@ == (ConnView { phase: Phase::Handshaking, ..old(self)@ }),
            final(self).wf(),
            p == cold_toggle(),
    {
        self.phase = Phase::Handshaking;
        proof {
            assert(self@ =~= (ConnView { phase: Phase::Handshaking, ..old(self)@ }));
        }
        ToggleParams { settle_ms: SETTLE_MS, power_on: true, timeout_ms: COLD_TIMEOUT_MS }
    }

    /// The toggle owed to the next handshake attempt in the current phase:
    /// the long cold-start deadline while `Handshaking`, the short warm one
    /// while `Recovering`.
    pub fn toggle_params(&self) -> (p: ToggleParams)
        requires
            self@.phase == Phase::Handshaking || self@.phase == Phase::Recovering,
        ensures
            p == (if self@.phase == Phase::Handshaking {
                cold_toggle()
            } else {
                warm_toggle()
            }),
    {
        match self.phase {
            Phase::Handshaking => ToggleParams {
                settle_ms: SETTLE_MS,
                power_on: true,
                timeout_ms: COLD_TIMEOUT_MS,
            },
            _ => ToggleParams {
                settle_ms: SETTLE_MS,
                power_on: false,
                timeout_ms: WARM_TIMEOUT_MS,
            },
        }
    }

    /// Concludes one handshake attempt with the bytes the read produced, or
    /// `None` when it timed out or failed. Returns whether the session is
    /// now linked, which holds exactly when the token was right.
    pub fn handshake_result(&mut self, bytes: Option<(u8, u8)>) -> (linked: bool)
        requires
            old(self)@.phase == Phase::Handshaking || old(self)@.phase == Phase::Recovering,
            old(self).wf(),
        ensures
            final(self)@ == handshake_step(old(self)@, bytes),
            final(self).wf(),
            linked == handshake_token_ok(bytes),
            linked == (final(self)@.phase == Phase::Linked),
    {
        let ok = match bytes {
            Some((b0, b1)) => b0 == HANDSHAKE_BYTE_0 && b1 == HANDSHAKE_BYTE_1,
            None => false,
        };
        if ok {
            self.phase = Phase::Linked;
            self.failures = 0;
        } else {
            match self.phase {
                Phase::Recovering => {
                    if self.failures < FAILURE_RESET_THRESHOLD {
                        self.failures = self.failures + 1;
                    }
                    if self.failures >= FAILURE_RESET_THRESHOLD {
                        self.state.reset();
                    }
                },
                _ => {},
            }
        }
        proof {
            assert(self@ =~= handshake_step(old(self)@, bytes));
        }
        ok
    }

    /// A linked session interrupted by the connection-detect edge or the
    /// idle watchdog: the session enters the warm-reconnect loop. The key
    /// state is kept - only repeated reconnect failure discards it.
    pub fn interrupted(&mut self, event: LinkedEvent) -> (p: ToggleParams)
        requires
            old(self)@.phase == Phase::Linked,
            old(self).wf(),
        ensures
            final(self)@ == (ConnView { phase: Phase::Recovering, ..old(self)@ }),
            final(self).wf(),
            p == warm_toggle(),
    {
        let _ = event;
        self.phase = Phase::Recovering;
        proof {
            assert(self@ =~= (ConnView { phase: Phase::Recovering, ..old(self)@ }));
        }
        ToggleParams { settle_ms: SETTLE_MS, power_on: false, timeout_ms: WARM_TIMEOUT_MS }
    }

    /// Forwards one received byte to the decoder - exactly one
    /// [`decode_step`] - and hands back the fresh report snapshot for the
    /// relay.
    pub fn on_byte(&mut self, input: u8) -> (r: KeyboardReport)
        requires
            old(self)@.phase == Phase::Linked,
            old(self).wf(),
        ensures
            final(self)@.decoder == decode_step(old(self)@.decoder, input),
            final(self)@.phase == old(self)@.phase,
            final(self)@.failures == old(self)@.failures,
            final(self).wf(),
            report_matches(r, final(self)@.decoder.pressed, final(self)@.decoder.modifiers),
    {
        self.state.update_from_kb_input(input);
        self.state.report()
    }

    /// A serial fault surfaced by the receive path: the caller logs it; the
    /// session, and with it the decoder state, stays exactly as it was.
    pub fn on_link_error(&mut self, kind: LinkErrorKind)
        requires
            old(self)@.phase == Phase::Linked,
        ensures
            final(self)@ == old(self)@,
    {
        let _ = kind;
    }

    /// The phase the session is in.
    pub fn phase(&self) -> (p: Phase)
        ensures
            p == self@.phase,
    {
        self.phase
    }

    /// The rolling count of consecutive failed reconnect attempts.
    pub fn failure_count(&self) -> (n: u32)
        ensures
            n == self@.failures,
    {
        self.failures
    }

    /// The report snapshot owed to the current decoder state.
    pub fn current_report(&self) -> (r: KeyboardReport)
        requires
            self@.decoder.wf(),
        ensures
            report_matches(r, self@.decoder.pressed, self@.decoder.modifiers),
    {
        self.state.report()
    }
}

} // verus!
