//! Wire schema: the message catalog shared by both ends of a session, with a
//! deterministic byte layout, bounds-checked decoding, and proofs that
//! decoding is the exact inverse of encoding.
//!
//! Every datagram fits a 128-byte buffer. Decoding validates structure first
//! (legal tag, exact length, legal sub-fields, correct magic where one is
//! carried) and only then exposes typed fields; a buffer that fails
//! validation yields a `ProtocolError` and is never reinterpreted.
//!
//! The telemetry fields `value` and `peak` are IEEE 754 binary64 bit
//! patterns, kept as `u64` so the codec and the session logic stay exact
//! integer code; the consumer performs the one floating-point division.
use crate::MAGIC;
use vstd::bytes::{
    lemma_auto_spec_u64_to_from_le_bytes, spec_u64_from_le_bytes, spec_u64_to_le_bytes,
    u64_from_le_bytes, u64_to_le_bytes,
};
use vstd::prelude::*;
use vstd::slice::slice_subrange;

verus! {

/// Rendezvous message: protocol version byte plus a nonce chosen by the
/// remote; the server echoes it verbatim.
#[derive(Copy, Clone, Debug, PartialEq, Eq, Structural)]
pub struct HelloPacket {
    pub magic: u8,
    pub random: u8,
}

/// Schema family negotiated once per session.
#[derive(Copy, Clone, Debug, PartialEq, Eq, Structural)]
pub enum DataMode {
    Novelty,
    NoveltyBeats,
}

/// Fixes the schema family for the rest of the session.
#[derive(Copy, Clone, Debug, PartialEq, Eq, Structural)]
pub struct SetModePacket {
    pub mode: DataMode,
}

/// Telemetry sample of the `Novelty` family: a novelty value and the current
/// novelty peak, both as binary64 bit patterns.
#[derive(Copy, Clone, Debug, PartialEq, Eq, Structural)]
pub struct NoveltyModeData {
    pub value: u64,
    pub peak: u64,
}

/// Streaming-phase message of the `Novelty` family.
#[derive(Copy, Clone, Debug, PartialEq, Eq, Structural)]
pub enum NoveltyModePacket {
    Data(NoveltyModeData),
    Abort,
    Goodbye(GoodbyeData),
}

/// Telemetry sample of the `NoveltyBeats` family: a novelty sample plus a
/// beat flag.
#[derive(Copy, Clone, Debug, PartialEq, Eq, Structural)]
pub struct NoveltyBeatsModeData {
    pub novelty: NoveltyModeData,
    pub beat: bool,
}

/// Streaming-phase message of the `NoveltyBeats` family.
#[derive(Copy, Clone, Debug, PartialEq, Eq, Structural)]
pub enum NoveltyBeatsModePacket {
    Data(NoveltyBeatsModeData),
    Abort,
    Goodbye(GoodbyeData),
}

/// Graceful teardown request; `magic` must equal the protocol version byte.
#[derive(Copy, Clone, Debug, PartialEq, Eq, Structural)]
pub struct GoodbyeData {
    pub magic: u8,
    pub force: bool,
}

/// Per-message acknowledgment closing each request/reply cycle.
#[derive(Copy, Clone, Debug, PartialEq, Eq, Structural)]
pub enum AckPacket {
    Okay,
    Quit,
    Abort,
}

/// Why a buffer was rejected by the decoder.
#[derive(Copy, Clone, Debug, PartialEq, Eq, Structural)]
pub enum ProtocolError {
    /// The buffer's length does not match any legal message shape.
    BadLength,
    /// A carried magic byte differs from the protocol version byte.
    BadMagic,
    /// The leading tag byte names no variant.
    IllegalTag,
    /// A boolean field holds a byte other than 0 or 1.
    IllegalBool,
    /// A mode field names no schema family.
    IllegalMode,
}

/// Largest datagram either side sends or accepts.
pub const MAX_PACKET_SIZE: usize = 128;

/// Tag bytes of the streaming-phase packet variants.
pub const TAG_DATA: u8 = 0;

pub const TAG_ABORT: u8 = 1;

pub const TAG_GOODBYE: u8 = 2;

/// Tag bytes of the acknowledgment variants.
pub const ACK_TAG_OK: u8 = 0;

pub const ACK_TAG_QUIT: u8 = 1;

pub const ACK_TAG_ABORT: u8 = 2;

/// Tag bytes of the schema families.
pub const MODE_TAG_NOVELTY: u8 = 0;

pub const MODE_TAG_NOVELTY_BEATS: u8 = 1;

impl HelloPacket {
    /// A hello is well formed when it carries the protocol version byte.
    pub open spec fn wf(self) -> bool {
        self.magic == MAGIC
    }
}

impl GoodbyeData {
    pub open spec fn wf(self) -> bool {
        self.magic == MAGIC
    }
}

impl NoveltyModePacket {
    pub open spec fn wf(self) -> bool {
        match self {
            NoveltyModePacket::Goodbye(g) => g.wf(),
            _ => true,
        }
    }
}

impl NoveltyBeatsModePacket {
    pub open spec fn wf(self) -> bool {
        match self {
            NoveltyBeatsModePacket::Goodbye(g) => g.wf(),
            _ => true,
        }
    }
}

impl DataMode {
    pub open spec fn spec_tag(self) -> u8 {
        match self {
            DataMode::Novelty => MODE_TAG_NOVELTY,
            DataMode::NoveltyBeats => MODE_TAG_NOVELTY_BEATS,
        }
    }
}

// ---------------------------------------------------------------------------
// Byte layouts, as spec functions. Encoding is total; parsing validates
// everything and is the exact inverse on well-formed messages.
// ---------------------------------------------------------------------------

pub open spec fn spec_encode_hello(p: HelloPacket) -> Seq<u8> {
    seq![p.magic, p.random]
}

pub open spec fn spec_parse_hello(data: Seq<u8>) -> Result<HelloPacket, ProtocolError> {
    if data.len() != 2 {
        Err(ProtocolError::BadLength)
    } else if data[0] != MAGIC {
        Err(ProtocolError::BadMagic)
    } else {
        Ok(HelloPacket { magic: data[0], random: data[1] })
    }
}

pub open spec fn spec_encode_set_mode(p: SetModePacket) -> Seq<u8> {
    seq![p.mode.spec_tag()]
}

pub open spec fn spec_parse_set_mode(data: Seq<u8>) -> Result<SetModePacket, ProtocolError> {
    if data.len() != 1 {
        Err(ProtocolError::BadLength)
    } else if data[0] == MODE_TAG_NOVELTY {
        Ok(SetModePacket { mode: DataMode::Novelty })
    } else if data[0] == MODE_TAG_NOVELTY_BEATS {
        Ok(SetModePacket { mode: DataMode::NoveltyBeats })
    } else {
        Err(ProtocolError::IllegalMode)
    }
}

pub open spec fn spec_encode_bool(b: bool) -> u8 {
    if b {
        1
    } else {
        0
    }
}

pub open spec fn spec_encode_goodbye_tail(g: GoodbyeData) -> Seq<u8> {
    seq![TAG_GOODBYE, g.magic, spec_encode_bool(g.force)]
}

/// Shared shape of a goodbye under either schema family.
pub open spec fn spec_parse_goodbye_tail(data: Seq<u8>) -> Result<GoodbyeData, ProtocolError>
    recommends
        data.len() >= 1 && data[0] == TAG_GOODBYE,
{
    if data.len() != 3 {
        Err(ProtocolError::BadLength)
    } else if data[1] != MAGIC {
        Err(ProtocolError::BadMagic)
    } else if data[2] != 0 && data[2] != 1 {
        Err(ProtocolError::IllegalBool)
    } else {
        Ok(GoodbyeData { magic: data[1], force: data[2] == 1 })
    }
}

pub open spec fn spec_encode_novelty(p: NoveltyModePacket) -> Seq<u8> {
    match p {
        NoveltyModePacket::Data(d) => seq![TAG_DATA] + spec_u64_to_le_bytes(d.value)
            + spec_u64_to_le_bytes(d.peak),
        NoveltyModePacket::Abort => seq![TAG_ABORT],
        NoveltyModePacket::Goodbye(g) => spec_encode_goodbye_tail(g),
    }
}

pub open spec fn spec_parse_novelty(data: Seq<u8>) -> Result<NoveltyModePacket, ProtocolError> {
    if data.len() == 0 {
        Err(ProtocolError::BadLength)
    } else if data[0] == TAG_DATA {
        if data.len() != 17 {
            Err(ProtocolError::BadLength)
        } else {
            Ok(NoveltyModePacket::Data(NoveltyModeData {
                value: spec_u64_from_le_bytes(data.subrange(1, 9)),
                peak: spec_u64_from_le_bytes(data.subrange(9, 17)),
            }))
        }
    } else if data[0] == TAG_ABORT {
        if data.len() != 1 {
            Err(ProtocolError::BadLength)
        } else {
            Ok(NoveltyModePacket::Abort)
        }
    } else if data[0] == TAG_GOODBYE {
        match spec_parse_goodbye_tail(data) {
            Ok(g) => Ok(NoveltyModePacket::Goodbye(g)),
            Err(e) => Err(e),
        }
    } else {
        Err(ProtocolError::IllegalTag)
    }
}

pub open spec fn spec_encode_novelty_beats(p: NoveltyBeatsModePacket) -> Seq<u8> {
    match p {
        NoveltyBeatsModePacket::Data(d) => seq![TAG_DATA] + spec_u64_to_le_bytes(d.novelty.value)
            + spec_u64_to_le_bytes(d.novelty.peak) + seq![spec_encode_bool(d.beat)],
        NoveltyBeatsModePacket::Abort => seq![TAG_ABORT],
        NoveltyBeatsModePacket::Goodbye(g) => spec_encode_goodbye_tail(g),
    }
}

pub open spec fn spec_parse_novelty_beats(data: Seq<u8>) -> Result<
    NoveltyBeatsModePacket,
    ProtocolError,
> {
    if data.len() == 0 {
        Err(ProtocolError::BadLength)
    } else if data[0] == TAG_DATA {
        if data.len() != 18 {
            Err(ProtocolError::BadLength)
        } else if data[17] != 0 && data[17] != 1 {
            Err(ProtocolError::IllegalBool)
        } else {
            Ok(NoveltyBeatsModePacket::Data(NoveltyBeatsModeData {
                novelty: NoveltyModeData {
                    value: spec_u64_from_le_bytes(data.subrange(1, 9)),
                    peak: spec_u64_from_le_bytes(data.subrange(9, 17)),
                },
                beat: data[17] == 1,
            }))
        }
    } else if data[0] == TAG_ABORT {
        if data.len() != 1 {
            Err(ProtocolError::BadLength)
        } else {
            Ok(NoveltyBeatsModePacket::Abort)
        }
    } else if data[0] == TAG_GOODBYE {
        match spec_parse_goodbye_tail(data) {
            Ok(g) => Ok(NoveltyBeatsModePacket::Goodbye(g)),
            Err(e) => Err(e),
        }
    } else {
        Err(ProtocolError::IllegalTag)
    }
}

pub open spec fn spec_encode_ack(p: AckPacket) -> Seq<u8> {
    match p {
        AckPacket::Okay => seq![ACK_TAG_OK],
        AckPacket::Quit => seq![ACK_TAG_QUIT],
        AckPacket::Abort => seq![ACK_TAG_ABORT],
    }
}

pub open spec fn spec_parse_ack(data: Seq<u8>) -> Result<AckPacket, ProtocolError> {
    if data.len() != 1 {
        Err(ProtocolError::BadLength)
    } else if data[0] == ACK_TAG_OK {
        Ok(AckPacket::Okay)
    } else if data[0] == ACK_TAG_QUIT {
        Ok(AckPacket::Quit)
    } else if data[0] == ACK_TAG_ABORT {
        Ok(AckPacket::Abort)
    } else {
        Err(ProtocolError::IllegalTag)
    }
}

// ---------------------------------------------------------------------------
// Executable encoders
// ---------------------------------------------------------------------------

pub fn encode_hello(p: &HelloPacket) -> (r: Vec<u8>)
    ensures
        r@ == spec_encode_hello(*p),
        r@.len() <= MAX_PACKET_SIZE,
{
    let mut v: Vec<u8> = Vec::new();
    v.push(p.magic);
    v.push(p.random);
    proof {
        assert(v@ =~= spec_encode_hello(*p));
    }
    v
}

pub fn encode_set_mode(p: &SetModePacket) -> (r: Vec<u8>)
    ensures
        r@ == spec_encode_set_mode(*p),
        r@.len() <= MAX_PACKET_SIZE,
{
    let mut v: Vec<u8> = Vec::new();
    let tag: u8 = match p.mode {
        DataMode::Novelty => MODE_TAG_NOVELTY,
        DataMode::NoveltyBeats => MODE_TAG_NOVELTY_BEATS,
    };
    v.push(tag);
    proof {
        assert(v@ =~= spec_encode_set_mode(*p));
    }
    v
}

pub fn encode_novelty(p: &NoveltyModePacket) -> (r: Vec<u8>)
    ensures
        r@ == spec_encode_novelty(*p),
        r@.len() <= MAX_PACKET_SIZE,
{
    proof {
        lemma_auto_spec_u64_to_from_le_bytes();
    }
    let mut v: Vec<u8> = Vec::new();
    match p {
        NoveltyModePacket::Data(d) => {
            v.push(TAG_DATA);
            let mut value_bytes = u64_to_le_bytes(d.value);
            v.append(&mut value_bytes);
            let mut peak_bytes = u64_to_le_bytes(d.peak);
            v.append(&mut peak_bytes);
        }
        NoveltyModePacket::Abort => {
            v.push(TAG_ABORT);
        }
        NoveltyModePacket::Goodbye(g) => {
            v.push(TAG_GOODBYE);
            v.push(g.magic);
            v.push(if g.force {
                1
            } else {
                0
            });
        }
    }
    proof {
        assert(v@ =~= spec_encode_novelty(*p));
    }
    v
}

pub fn encode_novelty_beats(p: &NoveltyBeatsModePacket) -> (r: Vec<u8>)
    ensures
        r@ == spec_encode_novelty_beats(*p),
        r@.len() <= MAX_PACKET_SIZE,
{
    proof {
        lemma_auto_spec_u64_to_from_le_bytes();
    }
    let mut v: Vec<u8> = Vec::new();
    match p {
        NoveltyBeatsModePacket::Data(d) => {
            v.push(TAG_DATA);
            let mut value_bytes = u64_to_le_bytes(d.novelty.value);
            v.append(&mut value_bytes);
            let mut peak_bytes = u64_to_le_bytes(d.novelty.peak);
            v.append(&mut peak_bytes);
            v.push(if d.beat {
                1
            } else {
                0
            });
        }
        NoveltyBeatsModePacket::Abort => {
            v.push(TAG_ABORT);
        }
        NoveltyBeatsModePacket::Goodbye(g) => {
            v.push(TAG_GOODBYE);
            v.push(g.magic);
            v.push(if g.force {
                1
            } else {
                0
            });
        }
    }
    proof {
        assert(v@ =~= spec_encode_novelty_beats(*p));
    }
    v
}

pub fn encode_ack(p: &AckPacket) -> (r: Vec<u8>)
    ensures
        r@ == spec_encode_ack(*p),
        r@.len() <= MAX_PACKET_SIZE,
{
    let mut v: Vec<u8> = Vec::new();
    let tag: u8 = match p {
        AckPacket::Okay => ACK_TAG_OK,
        AckPacket::Quit => ACK_TAG_QUIT,
        AckPacket::Abort => ACK_TAG_ABORT,
    };
    v.push(tag);
    proof {
        assert(v@ =~= spec_encode_ack(*p));
    }
    v
}

// ---------------------------------------------------------------------------
// Executable decoders
// ---------------------------------------------------------------------------

pub fn decode_hello(data: &[u8]) -> (r: Result<HelloPacket, ProtocolError>)
    ensures
        r == spec_parse_hello(data@),
{
    if data.len() != 2 {
        Err(ProtocolError::BadLength)
    } else if data[0] != MAGIC {
        Err(ProtocolError::BadMagic)
    } else {
        Ok(HelloPacket { magic: data[0], random: data[1] })
    }
}

pub fn decode_set_mode(data: &[u8]) -> (r: Result<SetModePacket, ProtocolError>)
    ensures
        r == spec_parse_set_mode(data@),
{
    if data.len() != 1 {
        Err(ProtocolError::BadLength)
    } else if data[0] == MODE_TAG_NOVELTY {
        Ok(SetModePacket { mode: DataMode::Novelty })
    } else if data[0] == MODE_TAG_NOVELTY_BEATS {
        Ok(SetModePacket { mode: DataMode::NoveltyBeats })
    } else {
        Err(ProtocolError::IllegalMode)
    }
}

fn decode_goodbye_tail(data: &[u8]) -> (r: Result<GoodbyeData, ProtocolError>)
    requires
        data@.len() >= 1,
        data@[0] == TAG_GOODBYE,
    ensures
        r == spec_parse_goodbye_tail(data@),
{
    if data.len() != 3 {
        Err(ProtocolError::BadLength)
    } else if data[1] != MAGIC {
        Err(ProtocolError::BadMagic)
    } else if data[2] != 0 && data[2] != 1 {
        Err(ProtocolError::IllegalBool)
    } else {
        Ok(GoodbyeData { magic: data[1], force: data[2] == 1 })
    }
}

pub fn decode_novelty(data: &[u8]) -> (r: Result<NoveltyModePacket, ProtocolError>)
    ensures
        r == spec_parse_novelty(data@),
{
    if data.len() == 0 {
        Err(ProtocolError::BadLength)
    } else if data[0] == TAG_DATA {
        if data.len() != 17 {
            Err(ProtocolError::BadLength)
        } else {
            let value = u64_from_le_bytes(slice_subrange(data, 1, 9));
            let peak = u64_from_le_bytes(slice_subrange(data, 9, 17));
            Ok(NoveltyModePacket::Data(NoveltyModeData { value, peak }))
        }
    } else if data[0] == TAG_ABORT {
        if data.len() != 1 {
            Err(ProtocolError::BadLength)
        } else {
            Ok(NoveltyModePacket::Abort)
        }
    } else if data[0] == TAG_GOODBYE {
        match decode_goodbye_tail(data) {
            Ok(g) => Ok(NoveltyModePacket::Goodbye(g)),
            Err(e) => Err(e),
        }
    } else {
        Err(ProtocolError::IllegalTag)
    }
}

pub fn decode_novelty_beats(data: &[u8]) -> (r: Result<NoveltyBeatsModePacket, ProtocolError>)
    ensures
        r == spec_parse_novelty_beats(data@),
{
    if data.len() == 0 {
        Err(ProtocolError::BadLength)
    } else if data[0] == TAG_DATA {
        if data.len() != 18 {
            Err(ProtocolError::BadLength)
        } else if data[17] != 0 && data[17] != 1 {
            Err(ProtocolError::IllegalBool)
        } else {
            let value = u64_from_le_bytes(slice_subrange(data, 1, 9));
            let peak = u64_from_le_bytes(slice_subrange(data, 9, 17));
            Ok(NoveltyBeatsModePacket::Data(NoveltyBeatsModeData {
                novelty: NoveltyModeData { value, peak },
                beat: data[17] == 1,
            }))
        }
    } else if data[0] == TAG_ABORT {
        if data.len() != 1 {
            Err(ProtocolError::BadLength)
        } else {
            Ok(NoveltyBeatsModePacket::Abort)
        }
    } else if data[0] == TAG_GOODBYE {
        match decode_goodbye_tail(data) {
            Ok(g) => Ok(NoveltyBeatsModePacket::Goodbye(g)),
            Err(e) => Err(e),
        }
    } else {
        Err(ProtocolError::IllegalTag)
    }
}

pub fn decode_ack(data: &[u8]) -> (r: Result<AckPacket, ProtocolError>)
    ensures
        r == spec_parse_ack(data@),
{
    if data.len() != 1 {
        Err(ProtocolError::BadLength)
    } else if data[0] == ACK_TAG_OK {
        Ok(AckPacket::Okay)
    } else if data[0] == ACK_TAG_QUIT {
        Ok(AckPacket::Quit)
    } else if data[0] == ACK_TAG_ABORT {
        Ok(AckPacket::Abort)
    } else {
        Err(ProtocolError::IllegalTag)
    }
}

// ---------------------------------------------------------------------------
// Round-trip laws: decoding is the exact inverse of encoding for every
// well-formed message of either schema family.
// ---------------------------------------------------------------------------

/// Round trip of the rendezvous message.
pub proof fn lemma_hello_round_trip(p: HelloPacket)
    requires
        p.wf(),
    ensures
        spec_parse_hello(spec_encode_hello(p)) == Ok::<HelloPacket, ProtocolError>(p),
{
}

/// Round trip of the mode-negotiation message.
pub proof fn lemma_set_mode_round_trip(p: SetModePacket)
    ensures
        spec_parse_set_mode(spec_encode_set_mode(p)) == Ok::<SetModePacket, ProtocolError>(p),
{
}

/// Round trip of every streaming-phase message of the `Novelty` family.
pub proof fn lemma_novelty_round_trip(p: NoveltyModePacket)
    requires
        p.wf(),
    ensures
        spec_parse_novelty(spec_encode_novelty(p)) == Ok::<NoveltyModePacket, ProtocolError>(p),
{
    lemma_auto_spec_u64_to_from_le_bytes();
    match p {
        NoveltyModePacket::Data(d) => {
            let enc = spec_encode_novelty(p);
            assert(enc.subrange(1, 9) =~= spec_u64_to_le_bytes(d.value));
            assert(enc.subrange(9, 17) =~= spec_u64_to_le_bytes(d.peak));
        }
        NoveltyModePacket::Abort => {}
        NoveltyModePacket::Goodbye(g) => {}
    }
}

/// Round trip of every streaming-phase message of the `NoveltyBeats` family.
pub proof fn lemma_novelty_beats_round_trip(p: NoveltyBeatsModePacket)
    requires
        p.wf(),
    ensures
        spec_parse_novelty_beats(spec_encode_novelty_beats(p)) == Ok::<
            NoveltyBeatsModePacket,
            ProtocolError,
        >(p),
{
    lemma_auto_spec_u64_to_from_le_bytes();
    match p {
        NoveltyBeatsModePacket::Data(d) => {
            let enc = spec_encode_novelty_beats(p);
            assert(enc.subrange(1, 9) =~= spec_u64_to_le_bytes(d.novelty.value));
            assert(enc.subrange(9, 17) =~= spec_u64_to_le_bytes(d.novelty.peak));
        }
        NoveltyBeatsModePacket::Abort => {}
        NoveltyBeatsModePacket::Goodbye(g) => {}
    }
}

/// Round trip of the acknowledgments.
pub proof fn lemma_ack_round_trip(p: AckPacket)
    ensures
        spec_parse_ack(spec_encode_ack(p)) == Ok::<AckPacket, ProtocolError>(p),
{
}

} // verus!
