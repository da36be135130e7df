//! The handshake measurement itself, as a state machine.
//!
//! A measurement runs `Unconnected -> TcpConnected -> HandshakeStarted ->
//! HandshakeComplete` on success, or ends in `HandshakeFailed`; no
//! transition re-enters a prior state. The caller performs the network work
//! each returned action asks for — the untimed TCP connect, then the timed
//! TLS handshake — and reports what happened as the next event. Everything
//! decided here (when a name is rejected, which error a failure becomes,
//! what the summary holds) is verified; only the crypto-provider install
//! and the server-name syntax check call into `rustls`.

use vstd::prelude::*;

verus! {

/// The outcome of a successful measurement. The handshake time is in
/// nanoseconds, covering the TLS negotiation alone, and is strictly
/// positive; protocol version and cipher suite are present only where the
/// TLS library reported them.
pub struct TlsSummary {
    pub handshake_time_ns: u64,
    pub protocol_version: Option<String>,
    pub cipher_suite: Option<String>,
}

/// Why a measurement failed.
pub enum MeasureError {
    /// The TCP connection could not be established; carries the target
    /// address and the underlying cause.
    NetworkError { host: String, port: u16, cause: String },
    /// The hostname is not a syntactically valid server identity.
    InvalidNameError { name: String },
    /// TLS negotiation failed after a connection was established; carries
    /// the target host and the underlying cause.
    HandshakeError { host: String, cause: String },
}

/// Where a measurement stands.
pub enum MeasureState {
    Unconnected,
    TcpConnected,
    HandshakeStarted,
    HandshakeComplete(TlsSummary),
    HandshakeFailed(MeasureError),
}

/// What the driver observed of the network.
pub enum MeasureEvent {
    /// The TCP connect succeeded.
    TcpConnectOk,
    /// The TCP connect failed for the given cause.
    TcpConnectFailed { cause: String },
    /// The driver is about to initiate the TLS handshake; the timed
    /// interval starts here.
    HandshakeBegun,
    /// The handshake completed after `elapsed_ns` nanoseconds, negotiating
    /// the reported parameters.
    HandshakeCompleted {
        elapsed_ns: u64,
        protocol_version: Option<String>,
        cipher_suite: Option<String>,
    },
    /// The peer rejected the TLS handshake for the given cause.
    HandshakeRejected { cause: String },
}

/// What the driver is asked to do next.
#[derive(Clone, Copy, PartialEq, Eq, Structural, Debug)]
pub enum MeasureAction {
    /// Open a plain TCP connection to the measurement's host and port;
    /// this phase is not timed.
    ConnectTcp,
    /// Prepare the TLS client and report `HandshakeBegun` when initiating.
    StartHandshake,
    /// Await the handshake's completion or rejection.
    AwaitHandshake,
    /// The measurement is over.
    Stop,
}

/// One measurement against one target; created fresh per call and discarded
/// after its outcome is read.
pub struct Measurement {
    pub host: String,
    pub port: u16,
    pub state: MeasureState,
}

/// Whether a string is a syntactically valid server identity: a DNS name or
/// an IP address literal.
pub uninterp spec fn server_name_ok(s: Seq<char>) -> bool;

/// Relies on `rustls::pki_types::ServerName::try_from(&str)`: whether a
/// string is a syntactically valid server identity (a DNS name or an IP
/// address literal) depends on the string alone, and the check performs no
/// I/O.
#[verifier::external_body]
fn server_name_is_valid(hostname: &str) -> (r: bool)
    ensures
        r == server_name_ok(hostname@),
{
    rustls::pki_types::ServerName::try_from(hostname).is_ok()
}

/// Relies on `rustls::crypto::ring::default_provider` and
/// `CryptoProvider::install_default`, which sets a process-wide `OnceLock`:
/// the first call installs the ring provider as the process default, any
/// later or concurrent call leaves the installed one in place and returns
/// an error value, and none of them panics.
#[verifier::external_body]
pub fn ensure_installed() {
    let _ = rustls::crypto::ring::default_provider().install_default();
}

/// The pairs of state and event between which a transition is defined: the
/// single linear traversal of the states, success or failure at each
/// network step.
pub open spec fn transition_defined(st: MeasureState, ev: MeasureEvent) -> bool {
    ||| (st is Unconnected && (ev is TcpConnectOk || ev is TcpConnectFailed))
    ||| (st is TcpConnected && ev is HandshakeBegun)
    ||| (st is HandshakeStarted && (ev is HandshakeCompleted || ev is HandshakeRejected))
}

/// How far along its linear traversal a state stands; both ends of a
/// measurement rank last.
pub open spec fn state_rank(st: MeasureState) -> int {
    match st {
        MeasureState::Unconnected => 0,
        MeasureState::TcpConnected => 1,
        MeasureState::HandshakeStarted => 2,
        MeasureState::HandshakeComplete(_) => 3,
        MeasureState::HandshakeFailed(_) => 3,
    }
}

/// A completed or failed measurement admits no further transition: each
/// measurement is a single linear traversal of the states.
pub proof fn lemma_terminal_admits_no_transition(st: MeasureState, ev: MeasureEvent)
    requires
        st is HandshakeComplete || st is HandshakeFailed,
    ensures
        !transition_defined(st, ev),
{
}

impl Measurement {
    /// Begin a measurement against `hostname` and `port`: install the
    /// crypto provider (idempotently), and validate the hostname as a
    /// server identity before anything touches the network — an invalid
    /// name fails at once with `InvalidNameError` and asks for no
    /// connection.
    pub fn start(hostname: &str, port: u16) -> (r: (Measurement, MeasureAction))
        ensures
            r.0.host@ == hostname@,
            r.0.port == port,
            server_name_ok(hostname@) ==> (r.0.state is Unconnected && r.1 is ConnectTcp),
            !server_name_ok(hostname@) ==> (r.1 is Stop && (r.0.state matches
                MeasureState::HandshakeFailed(MeasureError::InvalidNameError { name })
                && name@ == hostname@)),
    {
        ensure_installed();
        let host = hostname.to_owned();
        if server_name_is_valid(hostname) {
            (Measurement { host, port, state: MeasureState::Unconnected }, MeasureAction::ConnectTcp)
        } else {
            let name = host.clone();
            (
                Measurement {
                    host,
                    port,
                    state: MeasureState::HandshakeFailed(
                        MeasureError::InvalidNameError { name },
                    ),
                },
                MeasureAction::Stop,
            )
        }
    }

    /// Advance the measurement by one observed event. A TCP failure becomes
    /// `NetworkError`, a rejected handshake becomes `HandshakeError`, and a
    /// completed handshake becomes the summary, carrying the negotiated
    /// parameters as reported and the elapsed time, rounded up to one
    /// nanosecond where a coarse clock reported zero, so that a successful
    /// measurement's time is strictly positive. A pair of state and event
    /// with no defined transition changes nothing.
    pub fn step(self, ev: MeasureEvent) -> (r: (Measurement, MeasureAction))
        ensures
            r.0.host@ == self.host@,
            r.0.port == self.port,
            self.state is Unconnected ==> (ev is TcpConnectOk ==> (r.0.state is TcpConnected
                && r.1 is StartHandshake)),
            self.state is Unconnected ==> (ev matches MeasureEvent::TcpConnectFailed { cause }
                ==> (r.1 is Stop && (r.0.state matches MeasureState::HandshakeFailed(
                MeasureError::NetworkError { host, port, cause: c },
            ) && host@ == self.host@ && port == self.port && c@ == cause@))),
            self.state is TcpConnected ==> (ev is HandshakeBegun ==> (
                r.0.state is HandshakeStarted && r.1 is AwaitHandshake)),
            self.state is HandshakeStarted ==> (ev matches MeasureEvent::HandshakeCompleted {
                elapsed_ns,
                protocol_version,
                cipher_suite,
            } ==> (r.1 is Stop && (r.0.state matches MeasureState::HandshakeComplete(summary)
                && summary.handshake_time_ns == (if elapsed_ns > 0 {
                    elapsed_ns
                } else {
                    1u64
                })
                && summary.handshake_time_ns > 0
                && summary.protocol_version == protocol_version
                && summary.cipher_suite == cipher_suite))),
            self.state is HandshakeStarted ==> (ev matches MeasureEvent::HandshakeRejected {
                cause,
            } ==> (r.1 is Stop && (r.0.state matches MeasureState::HandshakeFailed(
                MeasureError::HandshakeError { host, cause: c },
            ) && host@ == self.host@ && c@ == cause@))),
            transition_defined(self.state, ev) ==> state_rank(r.0.state) > state_rank(
                self.state,
            ),
            !transition_defined(self.state, ev) ==> (r.0 == self && r.1 is Stop),
    {
        let Measurement { host, port, state } = self;
        match (state, ev) {
            (MeasureState::Unconnected, MeasureEvent::TcpConnectOk) => (
                Measurement { host, port, state: MeasureState::TcpConnected },
                MeasureAction::StartHandshake,
            ),
            (MeasureState::Unconnected, MeasureEvent::TcpConnectFailed { cause }) => {
                let err_host = host.clone();
                (
                    Measurement {
                        host,
                        port,
                        state: MeasureState::HandshakeFailed(
                            MeasureError::NetworkError { host: err_host, port, cause },
                        ),
                    },
                    MeasureAction::Stop,
                )
            },
            (MeasureState::TcpConnected, MeasureEvent::HandshakeBegun) => (
                Measurement { host, port, state: MeasureState::HandshakeStarted },
                MeasureAction::AwaitHandshake,
            ),
            (
                MeasureState::HandshakeStarted,
                MeasureEvent::HandshakeCompleted { elapsed_ns, protocol_version, cipher_suite },
            ) => {
                let time_ns: u64 = if elapsed_ns > 0 {
                    elapsed_ns
                } else {
                    1
                };
                (
                    Measurement {
                        host,
                        port,
                        state: MeasureState::HandshakeComplete(
                            TlsSummary {
                                handshake_time_ns: time_ns,
                                protocol_version,
                                cipher_suite,
                            },
                        ),
                    },
                    MeasureAction::Stop,
                )
            },
            (MeasureState::HandshakeStarted, MeasureEvent::HandshakeRejected { cause }) => {
                let err_host = host.clone();
                (
                    Measurement {
                        host,
                        port,
                        state: MeasureState::HandshakeFailed(
                            MeasureError::HandshakeError { host: err_host, cause },
                        ),
                    },
                    MeasureAction::Stop,
                )
            },
            (st, _) => (Measurement { host, port, state: st }, MeasureAction::Stop),
        }
    }

    /// What the measurement came to: the summary of a completed handshake,
    /// the error of a failed one, or nothing while it is still under way.
    pub fn outcome(self) -> (r: Option<Result<TlsSummary, MeasureError>>)
        ensures
            self.state matches MeasureState::HandshakeComplete(s) ==> r == Some(
                Result::<TlsSummary, MeasureError>::Ok(s),
            ),
            self.state matches MeasureState::HandshakeFailed(e) ==> r == Some(
                Result::<TlsSummary, MeasureError>::Err(e),
            ),
            !(self.state is HandshakeComplete || self.state is HandshakeFailed) ==> r is None,
    {
        match self.state {
            MeasureState::HandshakeComplete(s) => Some(Ok(s)),
            MeasureState::HandshakeFailed(e) => Some(Err(e)),
            _ => None,
        }
    }
}

} // verus!
