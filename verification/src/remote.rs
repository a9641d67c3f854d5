//! Remote role of the session protocol.
//!
//! The remote sends a Hello carrying the protocol version byte and a random
//! nonce, and accepts the session only if the echoed Hello matches both
//! bytes exactly — flipping either one fails the handshake. It then fixes
//! the schema family with SetMode and streams Data samples, each answered
//! by an acknowledgment; `Ack::Abort` is fatal. Teardown sends Goodbye and
//! waits for `Ack::Quit`, which marks the session stopped.
//!
//! All I/O stays with the caller: this type builds the exact bytes to send
//! and judges the exact bytes received.
use crate::packets::{
    decode_ack, decode_hello, encode_hello, encode_novelty, encode_novelty_beats, encode_set_mode,
    spec_encode_goodbye_tail, spec_encode_hello, spec_encode_novelty, spec_encode_novelty_beats,
    spec_encode_set_mode, spec_parse_ack, spec_parse_hello, AckPacket, DataMode, GoodbyeData,
    HelloPacket, NoveltyBeatsModeData, NoveltyBeatsModePacket, NoveltyModeData, NoveltyModePacket,
    ProtocolError, SetModePacket,
};
use crate::MAGIC;
use vstd::prelude::*;

verus! {

/// Why session establishment failed on the remote side. Fatal: surfaced to
/// the caller before streaming begins.
#[derive(Copy, Clone, Debug, PartialEq, Eq, Structural)]
pub enum HandshakeError {
    /// The echoed datagram is not a valid Hello (this includes a flipped
    /// magic byte, which no valid Hello carries).
    Malformed(ProtocolError),
    /// The echo is a valid Hello but does not match what was sent.
    EchoMismatch,
}

/// A failure in the steady-state request/acknowledgment exchange.
#[derive(Copy, Clone, Debug, PartialEq, Eq, Structural)]
pub enum RemoteError {
    /// The received datagram is not a valid acknowledgment.
    Malformed(ProtocolError),
    /// The server answered with a different acknowledgment than this
    /// exchange requires (an `Ack::Abort` here is fatal to the session).
    UnexpectedAck(AckPacket),
}

/// Judgment of an echoed Hello against the Hello that was sent.
pub open spec fn spec_verify_echo(sent: HelloPacket, data: Seq<u8>) -> Result<(), HandshakeError> {
    match spec_parse_hello(data) {
        Ok(echoed) => if echoed.magic == sent.magic && echoed.random == sent.random {
            Ok(())
        } else {
            Err(HandshakeError::EchoMismatch)
        },
        Err(e) => Err(HandshakeError::Malformed(e)),
    }
}

/// A fresh Hello: protocol version byte plus a random nonce.
pub fn fresh_hello() -> (r: HelloPacket)
    ensures
        r.wf(),
{
    let random: u8 = rand::random();
    HelloPacket { magic: MAGIC, random }
}

impl core::default::Default for HelloPacket {
    /// A fresh Hello, as `fresh_hello` builds it.
    fn default() -> (r: HelloPacket)
        ensures
            r.wf(),
    {
        fresh_hello()
    }
}

/// The remote's protocol state.
#[derive(Copy, Clone, Debug, PartialEq, Eq, Structural)]
pub struct RemoteSession {
    /// Schema family this remote streams in.
    pub mode: DataMode,
    /// Set once the server confirmed teardown with `Ack::Quit`.
    pub stopped: bool,
    /// The Hello sent at session start; the echo is judged against it.
    pub hello: HelloPacket,
}

impl RemoteSession {
    pub open spec fn wf(self) -> bool {
        self.hello.wf()
    }

    /// Start a session in the given schema family with the given Hello.
    pub fn new(mode: DataMode, hello: HelloPacket) -> (r: RemoteSession)
        requires
            hello.wf(),
        ensures
            r == (RemoteSession { mode, stopped: false, hello }),
            r.wf(),
    {
        RemoteSession { mode, stopped: false, hello }
    }

    /// The rendezvous datagram to send first.
    pub fn hello_bytes(&self) -> (r: Vec<u8>)
        ensures
            r@ == spec_encode_hello(self.hello),
    {
        encode_hello(&self.hello)
    }

    /// Judge the echoed Hello: passes exactly when magic and random both
    /// match what was sent.
    pub fn verify_echo(&self, data: &[u8]) -> (r: Result<(), HandshakeError>)
        ensures
            r == spec_verify_echo(self.hello, data@),
    {
        match decode_hello(data) {
            Ok(echoed) => {
                if echoed.magic == self.hello.magic && echoed.random == self.hello.random {
                    Ok(())
                } else {
                    Err(HandshakeError::EchoMismatch)
                }
            }
            Err(e) => Err(HandshakeError::Malformed(e)),
        }
    }

    /// The mode-negotiation datagram fixing this session's schema family.
    pub fn set_mode_bytes(&self) -> (r: Vec<u8>)
        ensures
            r@ == spec_encode_set_mode(SetModePacket { mode: self.mode }),
    {
        encode_set_mode(&SetModePacket { mode: self.mode })
    }

    /// A telemetry datagram in this session's schema family. `value` and
    /// `peak` are binary64 bit patterns; `beat` is carried only by the
    /// `NoveltyBeats` family.
    pub fn data_bytes(&self, value: u64, peak: u64, beat: bool) -> (r: Vec<u8>)
        ensures
            self.mode == DataMode::Novelty ==> r@ == spec_encode_novelty(
                NoveltyModePacket::Data(NoveltyModeData { value, peak }),
            ),
            self.mode == DataMode::NoveltyBeats ==> r@ == spec_encode_novelty_beats(
                NoveltyBeatsModePacket::Data(
                    NoveltyBeatsModeData { novelty: NoveltyModeData { value, peak }, beat },
                ),
            ),
    {
        match self.mode {
            DataMode::Novelty => encode_novelty(
                &NoveltyModePacket::Data(NoveltyModeData { value, peak }),
            ),
            DataMode::NoveltyBeats => encode_novelty_beats(
                &NoveltyBeatsModePacket::Data(
                    NoveltyBeatsModeData { novelty: NoveltyModeData { value, peak }, beat },
                ),
            ),
        }
    }

    /// Judge the acknowledgment of a Data exchange: only `Ack::Okay`
    /// continues the session.
    pub fn check_ack(&self, data: &[u8]) -> (r: Result<(), RemoteError>)
        ensures
            match spec_parse_ack(data@) {
                Ok(AckPacket::Okay) => r == Ok::<(), RemoteError>(()),
                Ok(a) => r == Err::<(), RemoteError>(RemoteError::UnexpectedAck(a)),
                Err(e) => r == Err::<(), RemoteError>(RemoteError::Malformed(e)),
            },
    {
        match decode_ack(data) {
            Ok(AckPacket::Okay) => Ok(()),
            Ok(a) => Err(RemoteError::UnexpectedAck(a)),
            Err(e) => Err(RemoteError::Malformed(e)),
        }
    }

    /// The teardown datagram in this session's schema family.
    pub fn goodbye_bytes(&self, force: bool) -> (r: Vec<u8>)
        ensures
            r@ == spec_encode_goodbye_tail(GoodbyeData { magic: MAGIC, force }),
    {
        let g = GoodbyeData { magic: MAGIC, force };
        match self.mode {
            DataMode::Novelty => encode_novelty(&NoveltyModePacket::Goodbye(g)),
            DataMode::NoveltyBeats => encode_novelty_beats(&NoveltyBeatsModePacket::Goodbye(g)),
        }
    }

    /// Judge the acknowledgment of the Goodbye: exactly `Ack::Quit` confirms
    /// teardown and marks this session stopped; anything else leaves it
    /// unchanged.
    pub fn process_quit_ack(&mut self, data: &[u8]) -> (r: Result<(), RemoteError>)
        ensures
            match spec_parse_ack(data@) {
                Ok(AckPacket::Quit) => r == Ok::<(), RemoteError>(()) && *final(self) == (
                RemoteSession { mode: old(self).mode, stopped: true, hello: old(self).hello }),
                Ok(a) => r == Err::<(), RemoteError>(RemoteError::UnexpectedAck(a)) && *final(self)
                    == *old(self),
                Err(e) => r == Err::<(), RemoteError>(RemoteError::Malformed(e)) && *final(self)
                    == *old(self),
            },
    {
        match decode_ack(data) {
            Ok(AckPacket::Quit) => {
                self.stopped = true;
                Ok(())
            }
            Ok(a) => Err(RemoteError::UnexpectedAck(a)),
            Err(e) => Err(RemoteError::Malformed(e)),
        }
    }

    /// Whether teardown completed. A session dropped while this is false is
    /// a contract violation by the caller, worth a warning, not an abort.
    pub fn is_stopped(&self) -> (r: bool)
        ensures
            r == self.stopped,
    {
        self.stopped
    }
}

/// Handshake law, accepting side: an echo that reproduces the sent Hello
/// exactly passes verification.
pub proof fn lemma_handshake_echo_accepted(sent: HelloPacket)
    requires
        sent.wf(),
    ensures
        spec_verify_echo(sent, spec_encode_hello(sent)) == Ok::<(), HandshakeError>(()),
{
}

/// Handshake law, rejecting side: an echo whose magic or random byte
/// differs from the sent Hello fails verification.
pub proof fn lemma_handshake_echo_rejected(sent: HelloPacket, echoed: HelloPacket)
    requires
        sent.wf(),
        echoed.magic != sent.magic || echoed.random != sent.random,
    ensures
        spec_verify_echo(sent, spec_encode_hello(echoed)) is Err,
{
}

} // verus!
