//! Server role of the session protocol, as a pure state machine.
//!
//! The server binds at most one peer at a time. A datagram is handed in
//! together with an opaque identifier of its sender (the I/O layer maps a
//! network address to such an identifier); the machine answers with the
//! bytes to send back, the event to act on, and its own next state:
//!
//! - `Listening`: the first datagram must be a valid Hello; the server binds
//!   its sender and echoes the Hello back verbatim. Anything else is
//!   answered with `Ack::Abort` and the server keeps listening.
//! - `AwaitMode`: the bound peer must fix the schema family with SetMode;
//!   then streaming begins. Datagrams from any other sender are ignored.
//! - `Streaming`: each Data sample is validated under the negotiated family,
//!   forwarded, and acknowledged with `Ack::Okay`; a Goodbye with the
//!   correct magic is acknowledged with `Ack::Quit` and unbinds the peer;
//!   everything else (wrong family shape, illegal tag, wrong magic, a peak
//!   of zero) is answered with `Ack::Abort` and unbinds the peer.
//!
//! A validation failure resets the session, never the process: after any
//! malformed exchange the server is back in `Listening` and accepts a new
//! peer.
use crate::packets::{
    decode_hello, decode_novelty, decode_novelty_beats, decode_set_mode, encode_ack, encode_hello,
    spec_encode_ack, spec_encode_hello, spec_encode_novelty, spec_encode_novelty_beats,
    spec_parse_hello, spec_parse_novelty, spec_parse_novelty_beats, spec_parse_set_mode, AckPacket,
    DataMode, HelloPacket, NoveltyBeatsModeData, NoveltyBeatsModePacket, NoveltyModeData,
    NoveltyModePacket,
};
use vstd::bytes::lemma_auto_spec_u64_to_from_le_bytes;
use vstd::prelude::*;

verus! {

/// Where the server stands in the handshake.
#[derive(Copy, Clone, Debug, PartialEq, Eq, Structural)]
pub enum ServerPhase {
    Listening,
    AwaitMode,
    Streaming,
}

/// The server's whole protocol state.
#[derive(Copy, Clone, Debug, PartialEq, Eq, Structural)]
pub struct ServerSession {
    pub phase: ServerPhase,
    /// Identifier of the bound peer; datagrams from anyone else are ignored
    /// while it is set.
    pub peer: Option<u64>,
    /// Negotiated schema family; meaningful once `phase` is `Streaming`.
    pub mode: DataMode,
}

/// What the I/O layer must do after a datagram was processed.
#[derive(Copy, Clone, Debug, PartialEq, Eq, Structural)]
pub enum ServerEvent {
    /// Nothing to act on.
    Idle,
    /// A validated telemetry sample: forward `value / peak` (both binary64
    /// bit patterns; `peak` is never the pattern of a zero) and the beat
    /// flag to the actuation context.
    Analysis { value: u64, peak: u64, is_beat: bool },
    /// The peer ended the session gracefully; it is unbound.
    PeerLeft { force: bool },
    /// Validation failed; the session was reset.
    Aborted,
}

/// Reply bytes plus event returned for one datagram.
pub struct ServerOutput {
    /// Datagram to send back to the sender, if any.
    pub reply: Option<Vec<u8>>,
    pub event: ServerEvent,
}

/// Bit patterns of +0.0 and -0.0 are the only ones with an all-zero
/// exponent and mantissa; a sample whose peak is one of them must be
/// rejected rather than divided by.
pub open spec fn spec_f64_bits_is_zero(bits: u64) -> bool {
    bits & 0x7FFF_FFFF_FFFF_FFFF == 0
}

/// True exactly on the bit patterns of +0.0 and -0.0.
pub fn f64_bits_is_zero(bits: u64) -> (r: bool)
    ensures
        r == spec_f64_bits_is_zero(bits),
{
    bits & 0x7FFF_FFFF_FFFF_FFFF == 0
}

impl ServerSession {
    /// A peer is bound exactly while the handshake or the stream is in
    /// progress.
    pub open spec fn wf(self) -> bool {
        self.peer is Some <==> self.phase != ServerPhase::Listening
    }

    pub open spec fn spec_init() -> ServerSession {
        ServerSession { phase: ServerPhase::Listening, peer: None, mode: DataMode::Novelty }
    }
}

/// Outcome of a validation failure: `Ack::Abort`, peer unbound, back to
/// `Listening`.
pub open spec fn spec_abort_outcome(s: ServerSession) -> (ServerSession, Option<Seq<u8>>, ServerEvent) {
    (
        ServerSession { phase: ServerPhase::Listening, peer: None, mode: s.mode },
        Some(spec_encode_ack(AckPacket::Abort)),
        ServerEvent::Aborted,
    )
}

/// One streaming-phase datagram from the bound peer, under the negotiated
/// schema family.
pub open spec fn spec_streaming_step(s: ServerSession, data: Seq<u8>) -> (
    ServerSession,
    Option<Seq<u8>>,
    ServerEvent,
) {
    match s.mode {
        DataMode::Novelty => match spec_parse_novelty(data) {
            Ok(NoveltyModePacket::Data(d)) => if spec_f64_bits_is_zero(d.peak) {
                spec_abort_outcome(s)
            } else {
                (
                    s,
                    Some(spec_encode_ack(AckPacket::Okay)),
                    ServerEvent::Analysis { value: d.value, peak: d.peak, is_beat: false },
                )
            },
            Ok(NoveltyModePacket::Goodbye(g)) => (
                ServerSession { phase: ServerPhase::Listening, peer: None, mode: s.mode },
                Some(spec_encode_ack(AckPacket::Quit)),
                ServerEvent::PeerLeft { force: g.force },
            ),
            _ => spec_abort_outcome(s),
        },
        DataMode::NoveltyBeats => match spec_parse_novelty_beats(data) {
            Ok(NoveltyBeatsModePacket::Data(d)) => if spec_f64_bits_is_zero(d.novelty.peak) {
                spec_abort_outcome(s)
            } else {
                (
                    s,
                    Some(spec_encode_ack(AckPacket::Okay)),
                    ServerEvent::Analysis {
                        value: d.novelty.value,
                        peak: d.novelty.peak,
                        is_beat: d.beat,
                    },
                )
            },
            Ok(NoveltyBeatsModePacket::Goodbye(g)) => (
                ServerSession { phase: ServerPhase::Listening, peer: None, mode: s.mode },
                Some(spec_encode_ack(AckPacket::Quit)),
                ServerEvent::PeerLeft { force: g.force },
            ),
            _ => spec_abort_outcome(s),
        },
    }
}

/// The server's whole transition function: next state, reply bytes, event.
pub open spec fn spec_server_step(s: ServerSession, from: u64, data: Seq<u8>) -> (
    ServerSession,
    Option<Seq<u8>>,
    ServerEvent,
) {
    match s.phase {
        ServerPhase::Listening => match spec_parse_hello(data) {
            Ok(h) => (
                ServerSession { phase: ServerPhase::AwaitMode, peer: Some(from), mode: s.mode },
                Some(spec_encode_hello(h)),
                ServerEvent::Idle,
            ),
            Err(_) => (s, Some(spec_encode_ack(AckPacket::Abort)), ServerEvent::Aborted),
        },
        ServerPhase::AwaitMode => if s.peer != Some(from) {
            (s, None, ServerEvent::Idle)
        } else {
            match spec_parse_set_mode(data) {
                Ok(sm) => (
                    ServerSession { phase: ServerPhase::Streaming, peer: s.peer, mode: sm.mode },
                    None,
                    ServerEvent::Idle,
                ),
                Err(_) => spec_abort_outcome(s),
            }
        },
        ServerPhase::Streaming => if s.peer != Some(from) {
            (s, None, ServerEvent::Idle)
        } else {
            spec_streaming_step(s, data)
        },
    }
}

impl ServerSession {
    /// Fresh server: listening, no peer bound, default schema family.
    pub fn new() -> (r: ServerSession)
        ensures
            r == ServerSession::spec_init(),
            r.wf(),
    {
        ServerSession { phase: ServerPhase::Listening, peer: None, mode: DataMode::Novelty }
    }

    /// Whether a peer is currently bound.
    pub fn is_connected(&self) -> (r: bool)
        ensures
            r == (self.peer is Some),
    {
        match self.peer {
            Some(_) => true,
            None => false,
        }
    }

    /// Process one datagram from the sender identified by `from`, exactly as
    /// `spec_server_step` describes.
    pub fn on_datagram(&mut self, from: u64, data: &[u8]) -> (out: ServerOutput)
        requires
            old(self).wf(),
        ensures
            ({
                let (s2, reply, ev) = spec_server_step(*old(self), from, data@);
                &&& *final(self) == s2
                &&& out.event == ev
                &&& match (out.reply, reply) {
                    (Some(v), Some(bytes)) => v@ == bytes,
                    (None, None) => true,
                    _ => false,
                }
            }),
            final(self).wf(),
    {
        match self.phase {
            ServerPhase::Listening => {
                match decode_hello(data) {
                    Ok(h) => {
                        self.phase = ServerPhase::AwaitMode;
                        self.peer = Some(from);
                        ServerOutput { reply: Some(encode_hello(&h)), event: ServerEvent::Idle }
                    }
                    Err(_) => {
                        ServerOutput {
                            reply: Some(encode_ack(&AckPacket::Abort)),
                            event: ServerEvent::Aborted,
                        }
                    }
                }
            }
            ServerPhase::AwaitMode => {
                let bound = match self.peer {
                    Some(p) => p == from,
                    None => false,
                };
                if !bound {
                    ServerOutput { reply: None, event: ServerEvent::Idle }
                } else {
                    match decode_set_mode(data) {
                        Ok(sm) => {
                            self.phase = ServerPhase::Streaming;
                            self.mode = sm.mode;
                            ServerOutput { reply: None, event: ServerEvent::Idle }
                        }
                        Err(_) => self.abort_session(),
                    }
                }
            }
            ServerPhase::Streaming => {
                let bound = match self.peer {
                    Some(p) => p == from,
                    None => false,
                };
                if !bound {
                    ServerOutput { reply: None, event: ServerEvent::Idle }
                } else {
                    self.streaming_datagram(data)
                }
            }
        }
    }

    /// Streaming-phase branch of `on_datagram`.
    fn streaming_datagram(&mut self, data: &[u8]) -> (out: ServerOutput)
        requires
            old(self).phase == ServerPhase::Streaming,
            old(self).peer is Some,
        ensures
            ({
                let (s2, reply, ev) = spec_streaming_step(*old(self), data@);
                &&& *final(self) == s2
                &&& out.event == ev
                &&& match (out.reply, reply) {
                    (Some(v), Some(bytes)) => v@ == bytes,
                    (None, None) => true,
                    _ => false,
                }
            }),
    {
        match self.mode {
            DataMode::Novelty => {
                match decode_novelty(data) {
                    Ok(NoveltyModePacket::Data(d)) => {
                        if f64_bits_is_zero(d.peak) {
                            self.abort_session()
                        } else {
                            ServerOutput {
                                reply: Some(encode_ack(&AckPacket::Okay)),
                                event: ServerEvent::Analysis {
                                    value: d.value,
                                    peak: d.peak,
                                    is_beat: false,
                                },
                            }
                        }
                    }
                    Ok(NoveltyModePacket::Goodbye(g)) => {
                        self.phase = ServerPhase::Listening;
                        self.peer = None;
                        ServerOutput {
                            reply: Some(encode_ack(&AckPacket::Quit)),
                            event: ServerEvent::PeerLeft { force: g.force },
                        }
                    }
                    _ => self.abort_session(),
                }
            }
            DataMode::NoveltyBeats => {
                match decode_novelty_beats(data) {
                    Ok(NoveltyBeatsModePacket::Data(d)) => {
                        if f64_bits_is_zero(d.novelty.peak) {
                            self.abort_session()
                        } else {
                            ServerOutput {
                                reply: Some(encode_ack(&AckPacket::Okay)),
                                event: ServerEvent::Analysis {
                                    value: d.novelty.value,
                                    peak: d.novelty.peak,
                                    is_beat: d.beat,
                                },
                            }
                        }
                    }
                    Ok(NoveltyBeatsModePacket::Goodbye(g)) => {
                        self.phase = ServerPhase::Listening;
                        self.peer = None;
                        ServerOutput {
                            reply: Some(encode_ack(&AckPacket::Quit)),
                            event: ServerEvent::PeerLeft { force: g.force },
                        }
                    }
                    _ => self.abort_session(),
                }
            }
        }
    }

    /// Shared validation-failure outcome.
    fn abort_session(&mut self) -> (out: ServerOutput)
        ensures
            ({
                let (s2, reply, ev) = spec_abort_outcome(*old(self));
                &&& *final(self) == s2
                &&& out.event == ev
                &&& match (out.reply, reply) {
                    (Some(v), Some(bytes)) => v@ == bytes,
                    (None, None) => true,
                    _ => false,
                }
            }),
    {
        self.phase = ServerPhase::Listening;
        self.peer = None;
        ServerOutput { reply: Some(encode_ack(&AckPacket::Abort)), event: ServerEvent::Aborted }
    }
}

/// Recovery law: processing a datagram never wedges the server. Whatever
/// arrives, the machine stays well formed, and whenever it is (back) in
/// `Listening`, a valid Hello from any sender binds that sender and echoes
/// the Hello — a validation failure costs one session, never the process.
pub proof fn lemma_server_always_recoverable(
    s: ServerSession,
    from: u64,
    data: Seq<u8>,
    next_peer: u64,
    h: HelloPacket,
)
    requires
        s.wf(),
        h.wf(),
    ensures
        ({
            let (s2, _, _) = spec_server_step(s, from, data);
            &&& s2.wf()
            &&& s2.phase == ServerPhase::Listening ==> {
                let (s3, reply, ev) = spec_server_step(s2, next_peer, spec_encode_hello(h));
                &&& s3.phase == ServerPhase::AwaitMode
                &&& s3.peer == Some(next_peer)
                &&& reply == Some(spec_encode_hello(h))
                &&& ev == ServerEvent::Idle
            }
        }),
{
}

/// Mode-isolation law: once `NoveltyBeats` is negotiated, a datagram shaped
/// like a `Novelty`-family Data sample is rejected at validation — answered
/// with `Ack::Abort` and the peer unbound — rather than misparsed as a
/// sample.
pub proof fn lemma_mode_isolation(s: ServerSession, peer: u64, d: NoveltyModeData)
    requires
        s.wf(),
        s.phase == ServerPhase::Streaming,
        s.peer == Some(peer),
        s.mode == DataMode::NoveltyBeats,
    ensures
        ({
            let data = spec_encode_novelty(NoveltyModePacket::Data(d));
            let (s2, reply, ev) = spec_server_step(s, peer, data);
            &&& s2.phase == ServerPhase::Listening
            &&& s2.peer is None
            &&& reply == Some(spec_encode_ack(AckPacket::Abort))
            &&& ev == ServerEvent::Aborted
        }),
{
    lemma_auto_spec_u64_to_from_le_bytes();
    let data = spec_encode_novelty(NoveltyModePacket::Data(d));
    assert(data.len() == 17);
    assert(data[0] == crate::packets::TAG_DATA);
}

/// Telemetry-forwarding law, `Novelty` family: a streamed Data sample whose
/// peak is not a zero bit pattern is forwarded with value and peak bits
/// unchanged (the consumer divides exactly these) and acknowledged with
/// `Ack::Okay`; a zero peak is a validation failure — `Ack::Abort`, peer
/// unbound — so no division by zero is ever requested.
pub proof fn lemma_novelty_data_forwarded(s: ServerSession, peer: u64, d: NoveltyModeData)
    requires
        s.wf(),
        s.phase == ServerPhase::Streaming,
        s.peer == Some(peer),
        s.mode == DataMode::Novelty,
    ensures
        ({
            let data = spec_encode_novelty(NoveltyModePacket::Data(d));
            let (s2, reply, ev) = spec_server_step(s, peer, data);
            &&& !spec_f64_bits_is_zero(d.peak) ==> {
                &&& s2 == s
                &&& reply == Some(spec_encode_ack(AckPacket::Okay))
                &&& ev == (ServerEvent::Analysis { value: d.value, peak: d.peak, is_beat: false })
            }
            &&& spec_f64_bits_is_zero(d.peak) ==> (s2, reply, ev) == spec_abort_outcome(s)
        }),
{
    lemma_auto_spec_u64_to_from_le_bytes();
    let data = spec_encode_novelty(NoveltyModePacket::Data(d));
    assert(data.len() == 17);
    assert(data[0] == crate::packets::TAG_DATA);
    assert(data.subrange(1, 9) =~= vstd::bytes::spec_u64_to_le_bytes(d.value));
    assert(data.subrange(9, 17) =~= vstd::bytes::spec_u64_to_le_bytes(d.peak));
}

/// Telemetry-forwarding law, `NoveltyBeats` family: as for the `Novelty`
/// family, and the beat flag travels with the sample unchanged.
pub proof fn lemma_novelty_beats_data_forwarded(s: ServerSession, peer: u64, d: NoveltyBeatsModeData)
    requires
        s.wf(),
        s.phase == ServerPhase::Streaming,
        s.peer == Some(peer),
        s.mode == DataMode::NoveltyBeats,
    ensures
        ({
            let data = spec_encode_novelty_beats(NoveltyBeatsModePacket::Data(d));
            let (s2, reply, ev) = spec_server_step(s, peer, data);
            &&& !spec_f64_bits_is_zero(d.novelty.peak) ==> {
                &&& s2 == s
                &&& reply == Some(spec_encode_ack(AckPacket::Okay))
                &&& ev == (ServerEvent::Analysis {
                    value: d.novelty.value,
                    peak: d.novelty.peak,
                    is_beat: d.beat,
                })
            }
            &&& spec_f64_bits_is_zero(d.novelty.peak) ==> (s2, reply, ev) == spec_abort_outcome(s)
        }),
{
    lemma_auto_spec_u64_to_from_le_bytes();
    let data = spec_encode_novelty_beats(NoveltyBeatsModePacket::Data(d));
    assert(data.len() == 18);
    assert(data[0] == crate::packets::TAG_DATA);
    assert(data[17] == crate::packets::spec_encode_bool(d.beat));
    assert(data.subrange(1, 9) =~= vstd::bytes::spec_u64_to_le_bytes(d.novelty.value));
    assert(data.subrange(9, 17) =~= vstd::bytes::spec_u64_to_le_bytes(d.novelty.peak));
}

} // verus!
