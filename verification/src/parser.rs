use crate::crc8::{crc8_dvb_s2, crc8_dvb_s2_of};
use crate::error::CrsfStreamError;
use crate::packets::{Packet, PacketAddress};
use vstd::prelude::*;

verus! {

/// The four states of the frame state machine.
#[derive(Debug, Clone, Copy, PartialEq, Eq)]
pub enum State {
    AwaitingSync,
    AwaitingLenth,
    Reading(usize),
    AwaitingCrc,
}

/// The byte-synchronizing frame state machine: one byte at a time into a
/// fixed 64-byte working buffer, out come complete CRC-checked frames.
///
/// Every error transition resets the machine to awaiting-sync, so no
/// input can wedge it: the next byte is always tried fresh.
#[derive(Debug, Clone, Copy)]
pub struct CrsfParser {
    /// The working buffer holding the frame being assembled.
    pub buffer: [u8; 64],
    /// The current state of the machine.
    pub state: State,
    /// The index of the last byte written into the buffer.
    pub position: usize,
}

/// What one pushed byte produces: nothing yet, a complete validated
/// frame, or a framing error.
pub enum StepOut {
    Incomplete,
    Complete(Seq<u8>),
    Fail(CrsfStreamError),
}

/// A byte sequence that is one well-formed wire frame: framing length in
/// range, a known address byte, the length byte matching, and the CRC
/// byte equal to the digest of type and payload.
pub open spec fn valid_frame(f: Seq<u8>) -> bool {
    &&& 4 <= f.len() <= 63
    &&& PacketAddress::spec_is_valid(f[0])
    &&& f[1] + 2 == f.len()
    &&& f[f.len() - 1] == crc8_dvb_s2_of(f.subrange(2, f.len() - 1))
}

impl CrsfParser {
    /// The machine's states only ever hold positions that fit the
    /// working buffer.
    pub open spec fn wf(self) -> bool {
        match self.state {
            State::AwaitingSync => true,
            State::AwaitingLenth => self.position == 0,
            State::Reading(m) => 3 <= m <= 62 && 1 <= self.position <= m - 2 && self.buffer@[1]
                == m - 1,
            State::AwaitingCrc => 2 <= self.position <= 61 && self.buffer@[1] == self.position,
        }
    }

    /// The machine after one byte.
    pub open spec fn spec_step(self, byte: u8) -> CrsfParser {
        match self.state {
            State::AwaitingSync => {
                if PacketAddress::spec_is_valid(byte) {
                    CrsfParser {
                        buffer: vstd::array::spec_array_update(self.buffer, 0, byte),
                        state: State::AwaitingLenth,
                        position: 0,
                    }
                } else {
                    self
                }
            },
            State::AwaitingLenth => {
                let n = byte + 2;
                if !(4 <= n < 64) {
                    CrsfParser { state: State::AwaitingSync, position: 0, ..self }
                } else {
                    CrsfParser {
                        buffer: vstd::array::spec_array_update(self.buffer, 1, byte),
                        state: State::Reading((n - 1) as usize),
                        position: 1,
                    }
                }
            },
            State::Reading(m) => {
                let pos = self.position + 1;
                CrsfParser {
                    buffer: vstd::array::spec_array_update(self.buffer, pos as int, byte),
                    state: if pos == m - 1 {
                        State::AwaitingCrc
                    } else {
                        State::Reading(m)
                    },
                    position: pos as usize,
                }
            },
            State::AwaitingCrc => {
                let pos = self.position + 1;
                CrsfParser {
                    buffer: vstd::array::spec_array_update(self.buffer, pos as int, byte),
                    state: State::AwaitingSync,
                    position: 0,
                }
            },
        }
    }

    /// What one byte produces.
    pub open spec fn spec_step_out(self, byte: u8) -> StepOut {
        match self.state {
            State::AwaitingSync => {
                if PacketAddress::spec_is_valid(byte) {
                    StepOut::Incomplete
                } else {
                    StepOut::Fail(CrsfStreamError::InvalidSync(byte))
                }
            },
            State::AwaitingLenth => {
                let n = byte + 2;
                if !(4 <= n < 64) {
                    StepOut::Fail(CrsfStreamError::InvalidPacketLength(byte))
                } else {
                    StepOut::Incomplete
                }
            },
            State::Reading(m) => StepOut::Incomplete,
            State::AwaitingCrc => {
                let pos = self.position + 1;
                let filled = vstd::array::spec_array_update(self.buffer, pos as int, byte);
                let calculated = crc8_dvb_s2_of(filled@.subrange(2, pos as int));
                if calculated != byte {
                    StepOut::Fail(
                        CrsfStreamError::InvalidCrc { calculated_crc: calculated, packet_crc: byte },
                    )
                } else {
                    StepOut::Complete(filled@.subrange(0, pos + 1 as int))
                }
            },
        }
    }

    pub fn new() -> (r: Self)
        ensures
            r.wf(),
            r.state == State::AwaitingSync,
            r.position == 0,
            r.buffer@ =~= Seq::<u8>::new(64, |i: int| 0u8),
    {
        Self { buffer: [0; 64], state: State::AwaitingSync, position: 0 }
    }

    /// Consumes one byte and either makes progress inside a frame, hands
    /// out the complete frame that this byte finished, or reports a
    /// framing error and resets.
    pub fn push_byte_raw(&mut self, byte: u8) -> (r: Result<
        Option<RawCrsfPacket<'_>>,
        CrsfStreamError,
    >)
        requires
            old(self).wf(),
        ensures
            final(self).wf(),
            *final(self) == old(self).spec_step(byte),
            ({
                match old(self).spec_step_out(byte) {
                    StepOut::Incomplete => r == Ok::<Option<RawCrsfPacket<'_>>, CrsfStreamError>(
                        None,
                    ),
                    StepOut::Complete(frame) => (r matches Ok(Some(p)) && p@ == frame),
                    StepOut::Fail(e) => r == Err::<Option<RawCrsfPacket<'_>>, CrsfStreamError>(e),
                }
            }),
    {
        match self.state {
            State::AwaitingSync => {
                if PacketAddress::try_from_u8(byte).is_some() {
                    self.position = 0;
                    self.buffer[0] = byte;
                    self.state = State::AwaitingLenth;
                    Ok(None)
                } else {
                    self.state = State::AwaitingSync;
                    Err(CrsfStreamError::InvalidSync(byte))
                }
            },
            State::AwaitingLenth => {
                let n = (byte as usize) + 2;
                if !(4 <= n && n < 64) {
                    self.reset();
                    return Err(CrsfStreamError::InvalidPacketLength(byte));
                }
                self.position = 1;
                self.buffer[1] = byte;
                self.state = State::Reading(n - 1);
                Ok(None)
            },
            State::Reading(m) => {
                self.position = self.position + 1;
                self.buffer[self.position] = byte;
                if self.position == m - 1 {
                    self.state = State::AwaitingCrc;
                }
                Ok(None)
            },
            State::AwaitingCrc => {
                self.position = self.position + 1;
                self.buffer[self.position] = byte;
                let calculated_crc = crc8_dvb_s2(self.buffer.as_slice(), 2, self.position);
                let packet_crc = byte;
                if calculated_crc != packet_crc {
                    self.reset();
                    return Err(CrsfStreamError::InvalidCrc { calculated_crc, packet_crc });
                }
                let end = self.position + 1;
                self.reset();
                let bytes = vstd::slice::slice_subrange(self.buffer.as_slice(), 0, end);
                match RawCrsfPacket::new(bytes) {
                    None => Err(CrsfStreamError::InputBufferTooSmall),
                    Some(packet) => Ok(Some(packet)),
                }
            },
        }
    }

    /// Forgets any frame in progress; the next byte starts fresh.
    pub fn reset(&mut self)
        ensures
            final(self).state == State::AwaitingSync,
            final(self).position == 0,
            final(self).buffer == old(self).buffer,
            final(self).wf(),
    {
        self.position = 0;
        self.state = State::AwaitingSync;
    }
}

impl Default for CrsfParser {
    fn default() -> (r: Self)
        ensures
            r.wf(),
            r.state == State::AwaitingSync,
            r.position == 0,
    {
        Self::new()
    }
}

/// A valid but unparsed frame: a zero-copy view of a byte buffer known
/// to hold one complete frame, with its framing still around the
/// payload. Valid only until the backing buffer next changes.
#[derive(Debug, Clone, Copy, PartialEq, Eq)]
pub struct RawCrsfPacket<'a> {
    bytes: &'a [u8],
}

impl<'a> View for RawCrsfPacket<'a> {
    type V = Seq<u8>;

    closed spec fn view(&self) -> Seq<u8> {
        self.bytes@
    }
}

impl<'a> RawCrsfPacket<'a> {
    /// A raw frame is always at least the four framing bytes long.
    #[verifier::type_invariant]
    pub closed spec fn type_wf(self) -> bool {
        self.bytes@.len() >= 4
    }

    /// Wraps a byte slice that holds one complete frame; rejects slices
    /// shorter than the least possible frame.
    pub fn new(bytes: &'a [u8]) -> (r: Option<Self>)
        ensures
            bytes@.len() >= 4 ==> (r matches Some(p) && p@ == bytes@),
            bytes@.len() < 4 ==> r is None,
    {
        if bytes.len() >= 4 {
            proof {
                assert(bytes@.len() >= 4);
            }
            Some(Self { bytes })
        } else {
            None
        }
    }

    /// The destination address byte of the frame.
    pub fn dst_addr(&self) -> (r: u8)
        ensures
            r == self@[0],
    {
        proof {
            use_type_invariant(self);
        }
        self.bytes[0]
    }

    /// The raw frame type byte.
    pub fn raw_packet_type(&self) -> (r: u8)
        ensures
            r == self@[2],
    {
        proof {
            use_type_invariant(self);
        }
        self.bytes[2]
    }

    /// The payload: everything between the frame type byte and the CRC.
    pub fn payload(&self) -> (r: &[u8])
        ensures
            r@ == self@.subrange(3, self@.len() - 1),
    {
        proof {
            use_type_invariant(self);
        }
        vstd::slice::slice_subrange(self.bytes, 3, self.bytes.len() - 1)
    }

    /// The CRC byte of the frame.
    pub fn crc(&self) -> (r: u8)
        ensures
            r == self@[self@.len() - 1],
    {
        proof {
            use_type_invariant(self);
        }
        self.bytes[self.bytes.len() - 1]
    }

    /// The total length of the frame in bytes, framing included.
    pub fn len(&self) -> (r: usize)
        ensures
            r == self@.len(),
    {
        self.bytes.len()
    }

    /// Whether the frame is empty; a raw frame never is.
    pub fn is_empty(&self) -> (r: bool)
        ensures
            r == (self@.len() == 0),
            r == false,
    {
        proof {
            use_type_invariant(self);
        }
        self.bytes.is_empty()
    }
}


/// What one pushed byte yields once complete frames are dispatched to
/// the packet codecs: the exact relation between the machine's step and
/// `push_byte`'s result.
pub open spec fn spec_push_out(s: CrsfParser, byte: u8, r: Result<
    Option<Packet>,
    CrsfStreamError,
>) -> bool {
    match s.spec_step_out(byte) {
        StepOut::Incomplete => r == Ok::<Option<Packet>, CrsfStreamError>(None),
        StepOut::Fail(e) => r == Err::<Option<Packet>, CrsfStreamError>(e),
        StepOut::Complete(frame) => match r {
            Ok(Some(p)) => crate::packets::spec_parse_post(
                frame[2],
                frame.subrange(3, frame.len() - 1),
                Ok(p),
            ),
            Err(CrsfStreamError::ParsingError(e)) => crate::packets::spec_parse_post(
                frame[2],
                frame.subrange(3, frame.len() - 1),
                Err(e),
            ),
            _ => false,
        },
    }
}

impl CrsfParser {
    /// Consumes one byte; when it completes a frame, dispatches the frame
    /// to the packet codecs and yields the decoded packet.
    pub fn push_byte(&mut self, byte: u8) -> (r: Result<Option<Packet>, CrsfStreamError>)
        requires
            old(self).wf(),
        ensures
            final(self).wf(),
            *final(self) == old(self).spec_step(byte),
            spec_push_out(*old(self), byte, r),
    {
        match self.push_byte_raw(byte) {
            Ok(Some(raw_packet)) => match Packet::parse(&raw_packet) {
                Ok(packet) => Ok(Some(packet)),
                Err(e) => Err(CrsfStreamError::ParsingError(e)),
            },
            Ok(None) => Ok(None),
            Err(e) => Err(e),
        }
    }

    /// Drives this machine across a byte buffer, yielding one result per
    /// complete frame or framing error, resynchronizing in between.
    pub fn iter_packets<'b>(&mut self, buffer: &'b [u8]) -> (r: PacketIterator<'b>)
        requires
            old(self).wf(),
        ensures
            *final(self) == *old(self),
            r.parser == *old(self),
            r.buffer@ == buffer@,
            r.pos == 0,
    {
        PacketIterator { parser: *self, buffer, pos: 0 }
    }
}

/// A lazy, finite sequence of decode results over one byte buffer.
///
/// It owns its copy of the frame state machine and scans the buffer
/// byte by byte; `next` yields one `Result` per complete frame or
/// framing error and `None` when the buffer is exhausted.
pub struct PacketIterator<'b> {
    /// The machine driven across the buffer.
    pub parser: CrsfParser,
    /// The bytes being scanned.
    pub buffer: &'b [u8],
    /// How many bytes have been consumed.
    pub pos: usize,
}

/// The exact relation between an iterator configuration and what its
/// next call returns: skip incomplete steps, yield the first framing
/// error or decoded frame, stop at the end of the buffer.
pub open spec fn spec_next_post(
    s: CrsfParser,
    input: Seq<u8>,
    pos: int,
    s2: CrsfParser,
    pos2: int,
    r: Option<Result<Packet, CrsfStreamError>>,
) -> bool
    decreases input.len() - pos,
{
    if pos < 0 || pos >= input.len() {
        r is None && s2 == s && pos2 == pos
    } else {
        let b = input[pos];
        let sn = s.spec_step(b);
        match s.spec_step_out(b) {
            StepOut::Incomplete => spec_next_post(sn, input, pos + 1, s2, pos2, r),
            StepOut::Fail(e) => r == Some(Err::<Packet, CrsfStreamError>(e)) && s2 == sn && pos2
                == pos + 1,
            StepOut::Complete(frame) => {
                &&& s2 == sn
                &&& pos2 == pos + 1
                &&& match r {
                    Some(Ok(p)) => crate::packets::spec_parse_post(
                        frame[2],
                        frame.subrange(3, frame.len() - 1),
                        Ok(p),
                    ),
                    Some(Err(CrsfStreamError::ParsingError(e))) => crate::packets::spec_parse_post(
                        frame[2],
                        frame.subrange(3, frame.len() - 1),
                        Err(e),
                    ),
                    _ => false,
                }
            },
        }
    }
}

impl<'b> PacketIterator<'b> {
    /// The next decode result, or nothing when the buffer is exhausted.
    pub fn next(&mut self) -> (r: Option<Result<Packet, CrsfStreamError>>)
        requires
            old(self).parser.wf(),
            old(self).pos <= old(self).buffer@.len(),
        ensures
            final(self).parser.wf(),
            final(self).buffer == old(self).buffer,
            final(self).pos <= final(self).buffer@.len(),
            spec_next_post(
                old(self).parser,
                old(self).buffer@,
                old(self).pos as int,
                final(self).parser,
                final(self).pos as int,
                r,
            ),
    {
        loop
            invariant
                self.parser.wf(),
                self.buffer == old(self).buffer,
                self.pos <= self.buffer@.len(),
                forall|s2: CrsfParser, pos2: int, r: Option<Result<Packet, CrsfStreamError>>|
                    spec_next_post(self.parser, self.buffer@, self.pos as int, s2, pos2, r)
                        ==> spec_next_post(
                        old(self).parser,
                        old(self).buffer@,
                        old(self).pos as int,
                        s2,
                        pos2,
                        r,
                    ),
            decreases self.buffer@.len() - self.pos,
        {
            if self.pos >= self.buffer.len() {
                return None;
            }
            let byte = self.buffer[self.pos];
            self.pos = self.pos + 1;
            match self.parser.push_byte(byte) {
                Ok(Some(packet)) => {
                    return Some(Ok(packet));
                },
                Ok(None) => (),
                Err(err) => {
                    return Some(Err(err));
                },
            }
        }
    }
}


/// The machine after a whole byte sequence.
pub open spec fn spec_feed(s: CrsfParser, bytes: Seq<u8>) -> CrsfParser
    decreases bytes.len(),
{
    if bytes.len() == 0 {
        s
    } else {
        spec_feed(s.spec_step(bytes[0]), bytes.drop_first())
    }
}

/// What each byte of a sequence produces, in order.
pub open spec fn spec_feed_outs(s: CrsfParser, bytes: Seq<u8>) -> Seq<StepOut>
    decreases bytes.len(),
{
    if bytes.len() == 0 {
        Seq::empty()
    } else {
        seq![s.spec_step_out(bytes[0])] + spec_feed_outs(s.spec_step(bytes[0]), bytes.drop_first())
    }
}

/// Feeding a concatenation feeds the parts one after the other.
pub proof fn lemma_feed_concat(s: CrsfParser, a: Seq<u8>, b: Seq<u8>)
    ensures
        spec_feed(s, a + b) == spec_feed(spec_feed(s, a), b),
        spec_feed_outs(s, a + b) == spec_feed_outs(s, a) + spec_feed_outs(spec_feed(s, a), b),
    decreases a.len(),
{
    if a.len() == 0 {
        assert(a + b =~= b);
        assert(spec_feed_outs(s, a) + spec_feed_outs(spec_feed(s, a), b) =~= spec_feed_outs(s, b));
    } else {
        let s1 = s.spec_step(a[0]);
        lemma_feed_concat(s1, a.drop_first(), b);
        assert((a + b).drop_first() =~= a.drop_first() + b);
        assert(spec_feed_outs(s, a + b) =~= spec_feed_outs(s, a) + spec_feed_outs(
            spec_feed(s, a),
            b,
        ));
    }
}

/// Every step from a well-formed machine is well formed, and any step
/// that completes a frame or reports an error leaves the machine back
/// at awaiting-sync: no byte can wedge the stream.
pub proof fn lemma_result_resets(s: CrsfParser, byte: u8)
    requires
        s.wf(),
    ensures
        s.spec_step(byte).wf(),
        !(s.spec_step_out(byte) is Incomplete) ==> s.spec_step(byte).state
            == State::AwaitingSync,
{
    broadcast use vstd::array::group_array_axioms;

}

/// After the first two bytes of a well-formed frame have been taken, the
/// machine consumes the rest silently and completes with exactly that
/// frame.
proof fn lemma_frame_accepted_mid(s: CrsfParser, f: Seq<u8>, i: int)
    requires
        valid_frame(f),
        2 <= i <= f.len() - 1,
        s.wf(),
        forall|k: int| 0 <= k < i ==> s.buffer@[k] == f[k],
        i < f.len() - 1 ==> s.state == State::Reading((f.len() - 1) as usize) && s.position == i
            - 1,
        i == f.len() - 1 ==> s.state == State::AwaitingCrc && s.position == f.len() - 2,
    ensures
        spec_feed(s, f.skip(i)).wf(),
        spec_feed(s, f.skip(i)).state == State::AwaitingSync,
        spec_feed_outs(s, f.skip(i)).len() == f.len() - i,
        forall|k: int|
            0 <= k < f.len() - i - 1 ==> spec_feed_outs(s, f.skip(i))[k] == StepOut::Incomplete,
        spec_feed_outs(s, f.skip(i)).last() == StepOut::Complete(f),
    decreases f.len() - i,
{
    broadcast use vstd::array::group_array_axioms;

    let rest = f.skip(i);
    let b = f[i];
    assert(rest[0] == b);
    let sn = s.spec_step(b);
    if i == f.len() - 1 {
        let pos = f.len() - 1;
        let filled = vstd::array::spec_array_update(s.buffer, pos, b);
        assert(filled@.subrange(2, pos as int) =~= f.subrange(2, f.len() - 1));
        assert(crc8_dvb_s2_of(filled@.subrange(2, pos as int)) == f[f.len() - 1]);
        assert(filled@.subrange(0, pos + 1) =~= f);
        assert(s.spec_step_out(b) == StepOut::Complete(filled@.subrange(0, pos + 1)));
        assert(rest.drop_first() =~= f.skip(i + 1));
        assert(f.skip(i + 1).len() == 0);
        assert(spec_feed_outs(sn, rest.drop_first()) =~= Seq::<StepOut>::empty());
        assert(spec_feed_outs(s, rest) =~= seq![s.spec_step_out(b)] + spec_feed_outs(
            sn,
            rest.drop_first(),
        ));
        assert(spec_feed_outs(s, rest) =~= seq![s.spec_step_out(b)]);
        assert(spec_feed(s, rest) == spec_feed(sn, rest.drop_first()));
        assert(sn.state == State::AwaitingSync && sn.position == 0);
    } else {
        assert(s.spec_step_out(b) == StepOut::Incomplete);
        assert(rest.drop_first() =~= f.skip(i + 1));
        assert forall|k: int| 0 <= k < i + 1 implies sn.buffer@[k] == f[k] by {
            if k < i {
                assert(sn.buffer@[k] == s.buffer@[k]);
            }
        }
        lemma_frame_accepted_mid(sn, f, i + 1);
        assert(spec_feed_outs(s, rest) =~= seq![StepOut::Incomplete] + spec_feed_outs(
            sn,
            f.skip(i + 1),
        ));
        assert(spec_feed(s, rest) == spec_feed(sn, f.skip(i + 1)));
        assert forall|k: int|
            0 <= k < f.len() - i - 1 implies spec_feed_outs(s, rest)[k] == StepOut::Incomplete by {
            if k > 0 {
                assert(spec_feed_outs(s, rest)[k] == spec_feed_outs(sn, f.skip(i + 1))[k - 1]);
            }
        }
    }
}

/// Frame acceptance: from awaiting-sync, a well-formed frame is consumed
/// with no output until its last byte, which completes exactly that
/// frame, and the machine is back at awaiting-sync.
pub proof fn lemma_frame_accepted(s: CrsfParser, f: Seq<u8>)
    requires
        s.wf(),
        s.state == State::AwaitingSync,
        valid_frame(f),
    ensures
        spec_feed(s, f).wf(),
        spec_feed(s, f).state == State::AwaitingSync,
        spec_feed_outs(s, f).len() == f.len(),
        forall|k: int| 0 <= k < f.len() - 1 ==> spec_feed_outs(s, f)[k] == StepOut::Incomplete,
        spec_feed_outs(s, f).last() == StepOut::Complete(f),
{
    broadcast use vstd::array::group_array_axioms;

    let s1 = s.spec_step(f[0]);
    assert(s.spec_step_out(f[0]) == StepOut::Incomplete);
    assert(s1.state == State::AwaitingLenth && s1.position == 0 && s1.buffer@[0] == f[0]);
    let b1 = f[1];
    assert(f.drop_first()[0] == b1);
    let s2 = s1.spec_step(b1);
    assert(b1 + 2 == f.len());
    assert(s1.spec_step_out(b1) == StepOut::Incomplete);
    assert(s2.state == State::Reading((f.len() - 1) as usize) && s2.position == 1);
    assert(s2.buffer@[0] == f[0] && s2.buffer@[1] == f[1]);
    lemma_frame_accepted_mid(s2, f, 2);
    assert(f.drop_first().drop_first() =~= f.skip(2));
    assert(spec_feed(s, f) == spec_feed(s1, f.drop_first()));
    assert(spec_feed(s1, f.drop_first()) == spec_feed(s2, f.drop_first().drop_first()));
    assert(spec_feed(s, f) == spec_feed(s2, f.skip(2)));
    assert(spec_feed_outs(s, f) =~= seq![s.spec_step_out(f[0])] + spec_feed_outs(
        s1,
        f.drop_first(),
    ));
    assert(spec_feed_outs(s1, f.drop_first()) =~= seq![s1.spec_step_out(b1)] + spec_feed_outs(
        s2,
        f.drop_first().drop_first(),
    ));
    assert(spec_feed_outs(s, f) =~= seq![StepOut::Incomplete, StepOut::Incomplete]
        + spec_feed_outs(s2, f.skip(2)));
    assert forall|k: int|
        0 <= k < f.len() - 1 implies spec_feed_outs(s, f)[k] == StepOut::Incomplete by {
        if k >= 2 {
            assert(spec_feed_outs(s, f)[k] == spec_feed_outs(s2, f.skip(2))[k - 2]);
        }
    }
}

/// Resynchronization: a byte that completes or fails a frame leaves the
/// machine at awaiting-sync; one stray byte that is no address is
/// rejected without corrupting anything; and the next well-formed frame
/// then parses in full.
pub proof fn lemma_resynchronization(s: CrsfParser, byte: u8, junk: u8, f: Seq<u8>)
    requires
        s.wf(),
        !(s.spec_step_out(byte) is Incomplete),
        !PacketAddress::spec_is_valid(junk),
        valid_frame(f),
    ensures
        ({
            let s1 = s.spec_step(byte);
            let s2 = s1.spec_step(junk);
            &&& s1.state == State::AwaitingSync
            &&& s1.spec_step_out(junk) == StepOut::Fail(CrsfStreamError::InvalidSync(junk))
            &&& s2.state == State::AwaitingSync
            &&& spec_feed_outs(s2, f).len() == f.len()
            &&& forall|k: int|
                0 <= k < f.len() - 1 ==> spec_feed_outs(s2, f)[k] == StepOut::Incomplete
            &&& spec_feed_outs(s2, f).last() == StepOut::Complete(f)
        }),
{
    lemma_result_resets(s, byte);
    let s1 = s.spec_step(byte);
    lemma_result_resets(s1, junk);
    let s2 = s1.spec_step(junk);
    lemma_frame_accepted(s2, f);
}

/// Two well-formed frames back to back yield exactly two complete
/// frames, each the frame that was sent, and nothing else.
pub proof fn lemma_back_to_back_frames(s: CrsfParser, f1: Seq<u8>, f2: Seq<u8>)
    requires
        s.wf(),
        s.state == State::AwaitingSync,
        valid_frame(f1),
        valid_frame(f2),
    ensures
        ({
            let outs = spec_feed_outs(s, f1 + f2);
            &&& outs.len() == f1.len() + f2.len()
            &&& outs[f1.len() - 1] == StepOut::Complete(f1)
            &&& outs.last() == StepOut::Complete(f2)
            &&& forall|k: int|
                0 <= k < outs.len() && k != f1.len() - 1 && k != outs.len() - 1 ==> outs[k]
                    == StepOut::Incomplete
            &&& spec_feed(s, f1 + f2).state == State::AwaitingSync
        }),
{
    lemma_feed_concat(s, f1, f2);
    lemma_frame_accepted(s, f1);
    let sm = spec_feed(s, f1);
    lemma_frame_accepted(sm, f2);
    let outs = spec_feed_outs(s, f1 + f2);
    let o1 = spec_feed_outs(s, f1);
    let o2 = spec_feed_outs(sm, f2);
    assert(outs[f1.len() - 1] == o1[f1.len() - 1]);
    assert(outs.last() == o2[f2.len() - 1]);
    assert forall|k: int|
        0 <= k < outs.len() && k != f1.len() - 1 && k != outs.len() - 1 implies outs[k]
        == StepOut::Incomplete by {
        if k < f1.len() {
            assert(outs[k] == o1[k]);
        } else {
            assert(outs[k] == o2[k - f1.len()]);
        }
    }
}


/// After the first two bytes of a well-formed frame have been taken, one
/// call of the lazy sequence consumes the rest of the frame and yields
/// its decode result.
proof fn lemma_next_frame_mid(
    s: CrsfParser,
    input: Seq<u8>,
    start: int,
    f: Seq<u8>,
    i: int,
    s2: CrsfParser,
    pos2: int,
    r: Option<Result<Packet, CrsfStreamError>>,
)
    requires
        valid_frame(f),
        2 <= i <= f.len() - 1,
        0 <= start,
        start + f.len() <= input.len(),
        input.subrange(start, start + f.len()) == f,
        s.wf(),
        forall|k: int| 0 <= k < i ==> s.buffer@[k] == f[k],
        i < f.len() - 1 ==> s.state == State::Reading((f.len() - 1) as usize) && s.position == i
            - 1,
        i == f.len() - 1 ==> s.state == State::AwaitingCrc && s.position == f.len() - 2,
        spec_next_post(s, input, start + i, s2, pos2, r),
    ensures
        pos2 == start + f.len(),
        s2.wf(),
        s2.state == State::AwaitingSync,
        s2 == spec_feed(s, f.skip(i)),
        ({
            match r {
                Some(Ok(p)) => crate::packets::spec_parse_post(
                    f[2],
                    f.subrange(3, f.len() - 1),
                    Ok(p),
                ),
                Some(Err(CrsfStreamError::ParsingError(e))) => crate::packets::spec_parse_post(
                    f[2],
                    f.subrange(3, f.len() - 1),
                    Err(e),
                ),
                _ => false,
            }
        }),
    decreases f.len() - i,
{
    broadcast use vstd::array::group_array_axioms;

    let b = input[start + i];
    assert(b == input.subrange(start, start + f.len())[i]);
    assert(b == f[i]);
    let sn = s.spec_step(b);
    let rest = f.skip(i);
    assert(rest[0] == b);
    if i == f.len() - 1 {
        let pos = f.len() - 1;
        let filled = vstd::array::spec_array_update(s.buffer, pos, b);
        assert(filled@.subrange(2, pos as int) =~= f.subrange(2, f.len() - 1));
        assert(crc8_dvb_s2_of(filled@.subrange(2, pos as int)) == f[f.len() - 1]);
        assert(filled@.subrange(0, pos + 1) =~= f);
        assert(s.spec_step_out(b) == StepOut::Complete(filled@.subrange(0, pos + 1)));
        assert(rest.drop_first() =~= f.skip(i + 1));
        assert(spec_feed(sn, rest.drop_first()) == sn);
        assert(sn.state == State::AwaitingSync && sn.position == 0);
    } else {
        assert(s.spec_step_out(b) == StepOut::Incomplete);
        assert forall|k: int| 0 <= k < i + 1 implies sn.buffer@[k] == f[k] by {
            if k < i {
                assert(sn.buffer@[k] == s.buffer@[k]);
            }
        }
        lemma_next_frame_mid(sn, input, start, f, i + 1, s2, pos2, r);
        assert(rest.drop_first() =~= f.skip(i + 1));
        assert(spec_feed(s, rest) == spec_feed(sn, f.skip(i + 1)));
    }
}

/// One call of the lazy sequence on a buffer whose remaining bytes start
/// with a well-formed frame, from a machine at awaiting-sync, consumes
/// exactly that frame and yields its decode result.
pub proof fn lemma_next_yields_frame(
    s: CrsfParser,
    input: Seq<u8>,
    pos: int,
    f: Seq<u8>,
    s2: CrsfParser,
    pos2: int,
    r: Option<Result<Packet, CrsfStreamError>>,
)
    requires
        s.wf(),
        s.state == State::AwaitingSync,
        valid_frame(f),
        0 <= pos,
        pos + f.len() <= input.len(),
        input.subrange(pos, pos + f.len()) == f,
        spec_next_post(s, input, pos, s2, pos2, r),
    ensures
        pos2 == pos + f.len(),
        s2.wf(),
        s2.state == State::AwaitingSync,
        ({
            match r {
                Some(Ok(p)) => crate::packets::spec_parse_post(
                    f[2],
                    f.subrange(3, f.len() - 1),
                    Ok(p),
                ),
                Some(Err(CrsfStreamError::ParsingError(e))) => crate::packets::spec_parse_post(
                    f[2],
                    f.subrange(3, f.len() - 1),
                    Err(e),
                ),
                _ => false,
            }
        }),
{
    broadcast use vstd::array::group_array_axioms;

    let b0 = input[pos];
    assert(b0 == input.subrange(pos, pos + f.len())[0]);
    assert(b0 == f[0]);
    assert(s.spec_step_out(b0) == StepOut::Incomplete);
    let s1 = s.spec_step(b0);
    assert(s1.state == State::AwaitingLenth && s1.position == 0 && s1.buffer@[0] == f[0]);
    let b1 = input[pos + 1];
    assert(b1 == input.subrange(pos, pos + f.len())[1]);
    assert(b1 == f[1]);
    assert(b1 + 2 == f.len());
    assert(s1.spec_step_out(b1) == StepOut::Incomplete);
    let s2m = s1.spec_step(b1);
    assert(s2m.state == State::Reading((f.len() - 1) as usize) && s2m.position == 1);
    assert(s2m.buffer@[0] == f[0] && s2m.buffer@[1] == f[1]);
    assert(spec_next_post(s1, input, pos + 1, s2, pos2, r));
    assert(spec_next_post(s2m, input, pos + 2, s2, pos2, r));
    lemma_next_frame_mid(s2m, input, pos, f, 2, s2, pos2, r);
}

/// A buffer that is two well-formed frames back to back yields, from a
/// fresh machine, exactly two results, each the decode of its frame, and
/// then nothing.
pub proof fn lemma_sequence_back_to_back(
    s: CrsfParser,
    f1: Seq<u8>,
    f2: Seq<u8>,
    s1: CrsfParser,
    pos1: int,
    r1: Option<Result<Packet, CrsfStreamError>>,
    s2: CrsfParser,
    pos2: int,
    r2: Option<Result<Packet, CrsfStreamError>>,
)
    requires
        s.wf(),
        s.state == State::AwaitingSync,
        valid_frame(f1),
        valid_frame(f2),
        spec_next_post(s, f1 + f2, 0, s1, pos1, r1),
        spec_next_post(s1, f1 + f2, pos1, s2, pos2, r2),
    ensures
        pos1 == f1.len(),
        pos2 == f1.len() + f2.len(),
        ({
            match r1 {
                Some(Ok(p)) => crate::packets::spec_parse_post(
                    f1[2],
                    f1.subrange(3, f1.len() - 1),
                    Ok(p),
                ),
                Some(Err(CrsfStreamError::ParsingError(e))) => crate::packets::spec_parse_post(
                    f1[2],
                    f1.subrange(3, f1.len() - 1),
                    Err(e),
                ),
                _ => false,
            }
        }),
        ({
            match r2 {
                Some(Ok(p)) => crate::packets::spec_parse_post(
                    f2[2],
                    f2.subrange(3, f2.len() - 1),
                    Ok(p),
                ),
                Some(Err(CrsfStreamError::ParsingError(e))) => crate::packets::spec_parse_post(
                    f2[2],
                    f2.subrange(3, f2.len() - 1),
                    Err(e),
                ),
                _ => false,
            }
        }),
        forall|s3: CrsfParser, pos3: int, r3: Option<Result<Packet, CrsfStreamError>>|
            spec_next_post(s2, f1 + f2, pos2, s3, pos3, r3) ==> r3 is None,
{
    let input = f1 + f2;
    assert(input.subrange(0, f1.len() as int) =~= f1);
    lemma_next_yields_frame(s, input, 0, f1, s1, pos1, r1);
    assert(input.subrange(pos1, pos1 + f2.len()) =~= f2);
    lemma_next_yields_frame(s1, input, pos1, f2, s2, pos2, r2);
}

} // verus!
