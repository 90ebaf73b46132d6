//! Packets and their framing on the serial byte stream.
//!
//! A frame is `[FRAME_MARKER, kind, payload..., FRAME_MARKER]`. The marker
//! opens and closes a frame, so neither the kind nor the payload may hold it.
//! Back-to-back markers carry no frame: the last of them opens the next one,
//! which lets a reader that starts mid-stream fall into step.

use vstd::prelude::*;

verus! {

/// The byte that opens and closes every frame.
pub const FRAME_MARKER: u8 = 0x7E;

/// Most bytes in one frame, both markers included.
pub const MAX_PACKET_LENGTH: usize = 16;

/// Most bytes between the two markers of a frame: the kind and the payload.
pub const MAX_FRAME_CONTENT: usize = MAX_PACKET_LENGTH - 2;

/// Most payload bytes in one packet.
pub const MAX_PAYLOAD_LEN: usize = MAX_FRAME_CONTENT - 1;

/// One unit of the panel protocol.
#[derive(Debug, Clone, PartialEq, Eq)]
pub struct Packet {
    /// Which handler the packet is for.
    pub packet_ident: u8,
    pub payload: Vec<u8>,
}

/// Why no packet came out of a byte stream.
#[derive(Debug, Clone, Copy, PartialEq, Eq, Structural)]
pub enum DecodeError {
    /// The bytes ended before a frame was complete.
    Incomplete,
    /// More than `MAX_FRAME_CONTENT` bytes followed the opening marker
    /// without a closing one.
    FrameTooLong,
}

/// Index of the first marker at or after `i`, or `s.len()` if there is none.
pub open spec fn find_marker(s: Seq<u8>, i: int) -> int
    decreases s.len() - i,
{
    if i >= s.len() {
        s.len() as int
    } else if s[i] == FRAME_MARKER {
        i
    } else {
        find_marker(s, i + 1)
    }
}

/// Index of the first non-marker byte at or after `i`, or `s.len()` if there
/// is none.
pub open spec fn find_non_marker(s: Seq<u8>, i: int) -> int
    decreases s.len() - i,
{
    if i >= s.len() {
        s.len() as int
    } else if s[i] != FRAME_MARKER {
        i
    } else {
        find_non_marker(s, i + 1)
    }
}

/// No byte of `s` in `[a, b)` is a marker.
pub open spec fn marker_free(s: Seq<u8>, a: int, b: int) -> bool {
    forall|j: int| a <= j < b ==> s[j] != FRAME_MARKER
}

/// The first frame of `s`: its kind, its payload, and how many bytes of `s`
/// it used up, counting the closing marker.
///
/// The frame opens at the first marker, or at the last of a run of markers,
/// and its content runs to the next marker. Content longer than `MAX_FRAME_CONTENT`
/// is an error as soon as that many bytes have come, closing marker or not.
pub open spec fn decode_frame(s: Seq<u8>) -> Result<(u8, Seq<u8>, int), DecodeError> {
    let opening = find_marker(s, 0);
    let first = find_non_marker(s, opening + 1);
    let closing = find_marker(s, first);
    if first >= s.len() {
        Err(DecodeError::Incomplete)
    } else if closing - first > MAX_FRAME_CONTENT {
        Err(DecodeError::FrameTooLong)
    } else if closing >= s.len() {
        Err(DecodeError::Incomplete)
    } else {
        Ok((s[first], s.subrange(first + 1, closing), closing + 1))
    }
}

/// A packet that can stand in a frame: no marker in it, and short enough.
pub open spec fn can_frame(kind: u8, payload: Seq<u8>) -> bool {
    &&& kind != FRAME_MARKER
    &&& payload.len() <= MAX_PAYLOAD_LEN
    &&& marker_free(payload, 0, payload.len() as int)
}

/// The bytes of the frame that carries `kind` and `payload`.
pub open spec fn frame_bytes(kind: u8, payload: Seq<u8>) -> Seq<u8> {
    seq![FRAME_MARKER, kind] + payload + seq![FRAME_MARKER]
}

/// Scanning for a marker from `i` never goes back and never passes the end.
pub proof fn lemma_find_marker_range(s: Seq<u8>, i: int)
    requires
        0 <= i <= s.len(),
    ensures
        i <= find_marker(s, i) <= s.len(),
    decreases s.len() - i,
{
    if i < s.len() && s[i] != FRAME_MARKER {
        lemma_find_marker_range(s, i + 1);
    }
}

/// Scanning past markers from `i` never goes back.
pub proof fn lemma_find_non_marker_range(s: Seq<u8>, i: int)
    ensures
        i <= s.len() ==> i <= find_non_marker(s, i) <= s.len(),
        i > s.len() ==> find_non_marker(s, i) == s.len(),
    decreases s.len() - i,
{
    if i < s.len() && s[i] == FRAME_MARKER {
        lemma_find_non_marker_range(s, i + 1);
    }
}

/// Scanning for a marker skips a stretch that holds none.
pub proof fn lemma_find_marker_skips(s: Seq<u8>, a: int, b: int)
    requires
        0 <= a <= b <= s.len(),
        marker_free(s, a, b),
    ensures
        find_marker(s, a) == find_marker(s, b),
    decreases b - a,
{
    if a < b {
        lemma_find_marker_skips(s, a + 1, b);
    }
}

impl Packet {
    /// A packet of the given kind and payload.
    pub fn new(packet_ident: u8, payload: Vec<u8>) -> (r: Packet)
        ensures
            r.packet_ident == packet_ident,
            r.payload@ == payload@,
    {
        Packet { packet_ident, payload }
    }

    /// The frame that carries this packet, or `None` where the packet cannot
    /// be framed (see `can_frame`).
    pub fn compile(&self) -> (r: Option<Vec<u8>>)
        ensures
            can_frame(self.packet_ident, self.payload@) ==> (r matches Some(v) && v@ == frame_bytes(
                self.packet_ident,
                self.payload@,
            )),
            !can_frame(self.packet_ident, self.payload@) ==> r is None,
    {
        if self.packet_ident == FRAME_MARKER || self.payload.len() > MAX_PAYLOAD_LEN {
            return None;
        }
        let mut out: Vec<u8> = Vec::new();
        out.push(FRAME_MARKER);
        out.push(self.packet_ident);
        let mut i: usize = 0;
        while i < self.payload.len()
            invariant
                i <= self.payload.len() <= MAX_PAYLOAD_LEN,
                marker_free(self.payload@, 0, i as int),
                out@ == seq![FRAME_MARKER, self.packet_ident] + self.payload@.subrange(0, i as int),
            decreases self.payload.len() - i,
        {
            if self.payload[i] == FRAME_MARKER {
                return None;
            }
            out.push(self.payload[i]);
            i = i + 1;
            assert(self.payload@.subrange(0, i as int) == self.payload@.subrange(0, i - 1).push(
                self.payload@[i - 1],
            ));
        }
        out.push(FRAME_MARKER);
        assert(self.payload@.subrange(0, i as int) == self.payload@);
        Some(out)
    }
}

/// Why a handler refused a packet.
#[derive(Debug, Clone, Copy, PartialEq, Eq, Structural)]
pub enum HandlerError {
    /// The payload is shorter than the packet kind needs.
    PayloadTooShort,
    /// A transponder code has more than four decimal digits.
    CodeOutOfRange,
}

/// Assembles packets from a byte stream one byte at a time, for a reader that
/// cannot wait for a whole frame.
///
/// Between frames it skips every byte up to a marker. Inside a frame it
/// gathers the content until the closing marker, and gives up on a frame whose
/// content outgrows `MAX_FRAME_CONTENT`.
#[derive(Debug)]
pub struct FrameReader {
    in_frame: bool,
    buffer: Vec<u8>,
}

impl View for FrameReader {
    /// Whether a frame is open, and its content so far.
    type V = (bool, Seq<u8>);

    closed spec fn view(&self) -> (bool, Seq<u8>) {
        (self.in_frame, self.buffer@)
    }
}

impl FrameReader {
    /// The reader's state is consistent: content only inside a frame, never
    /// more of it than a frame holds, and no marker in it.
    pub open spec fn wf(&self) -> bool {
        &&& self@.1.len() <= MAX_FRAME_CONTENT
        &&& !self@.0 ==> self@.1.len() == 0
        &&& marker_free(self@.1, 0, self@.1.len() as int)
    }

    /// A reader waiting for the first marker.
    pub fn new() -> (r: FrameReader)
        ensures
            r.wf(),
            r@ == (false, Seq::<u8>::empty()),
    {
        FrameReader { in_frame: false, buffer: Vec::new() }
    }

    /// Takes the next byte of the stream. Returns a packet, or an error, when
    /// this byte ends a frame; `None` while a frame is still open or none has
    /// begun.
    pub fn push_byte(&mut self, b: u8) -> (r: Option<Result<Packet, DecodeError>>)
        requires
            old(self).wf(),
        ensures
            final(self).wf(),
            !old(self)@.0 ==> r is None && final(self)@ == (b == FRAME_MARKER, Seq::<u8>::empty()),
            old(self)@.0 && b == FRAME_MARKER && old(self)@.1.len() == 0 ==> r is None && final(self)@
                == old(self)@,
            old(self)@.0 && b == FRAME_MARKER && old(self)@.1.len() > 0 ==> (r matches Some(Ok(p))
                && p.packet_ident == old(self)@.1[0] && p.payload@ == old(self)@.1.subrange(
                1,
                old(self)@.1.len() as int,
            )) && final(self)@ == (false, Seq::<u8>::empty()),
            old(self)@.0 && b != FRAME_MARKER && old(self)@.1.len() == MAX_FRAME_CONTENT ==> r
                == Some(Err::<Packet, DecodeError>(DecodeError::FrameTooLong)) && final(self)@ == (
                false,
                Seq::<u8>::empty(),
            ),
            old(self)@.0 && b != FRAME_MARKER && old(self)@.1.len() < MAX_FRAME_CONTENT ==> r is None
                && final(self)@ == (true, old(self)@.1.push(b)),
    {
        if !self.in_frame {
            self.in_frame = b == FRAME_MARKER;
            return None;
        }
        if b == FRAME_MARKER {
            if self.buffer.len() == 0 {
                return None;
            }
            let kind = self.buffer[0];
            let mut payload: Vec<u8> = Vec::new();
            let mut i: usize = 1;
            while i < self.buffer.len()
                invariant
                    1 <= i <= self.buffer.len(),
                    payload@ == self.buffer@.subrange(1, i as int),
                decreases self.buffer.len() - i,
            {
                payload.push(self.buffer[i]);
                i = i + 1;
                assert(self.buffer@.subrange(1, i as int) == self.buffer@.subrange(1, i - 1).push(
                    self.buffer@[i - 1],
                ));
            }
            self.buffer.clear();
            self.in_frame = false;
            return Some(Ok(Packet { packet_ident: kind, payload }));
        }
        if self.buffer.len() == MAX_FRAME_CONTENT {
            self.buffer.clear();
            self.in_frame = false;
            return Some(Err(DecodeError::FrameTooLong));
        }
        self.buffer.push(b);
        None
    }
}

/// Reads the first frame out of `bytes`.
///
/// On success returns the packet and how many bytes of `bytes` the frame used
/// up, closing marker included. Fails with `Incomplete` where the bytes end
/// before a frame does, and with `FrameTooLong` where more than
/// `MAX_FRAME_CONTENT` bytes follow the opening marker without a closing one.
pub fn parse_frame(bytes: &[u8]) -> (r: Result<(Packet, usize), DecodeError>)
    ensures
        match r {
            Ok((p, used)) => decode_frame(bytes@) == Ok::<(u8, Seq<u8>, int), DecodeError>(
                (p.packet_ident, p.payload@, used as int),
            ),
            Err(e) => decode_frame(bytes@) == Err::<(u8, Seq<u8>, int), DecodeError>(e),
        },
        r matches Ok((p, _)) ==> p.payload@.len() <= MAX_PAYLOAD_LEN,
{
    let ghost s = bytes@;
    let mut reader = FrameReader::new();
    let mut i: usize = 0;
    while i < bytes.len()
        invariant
            i <= bytes@.len(),
            s == bytes@,
            reader.wf(),
            reader_tracks(s, i as int, reader@),
        decreases bytes.len() - i,
    {
        proof {
            lemma_reader_step(s, i as int, reader@);
        }
        match reader.push_byte(bytes[i]) {
            Some(Ok(p)) => return Ok((p, i + 1)),
            Some(Err(e)) => return Err(e),
            None => {},
        }
        i = i + 1;
    }
    proof {
        lemma_reader_at_end(s, reader@);
    }
    Err(DecodeError::Incomplete)
}

/// A reader in `state` has taken the bytes of `s` before `i` without giving
/// an outcome.
pub open spec fn reader_tracks(s: Seq<u8>, i: int, state: (bool, Seq<u8>)) -> bool {
    let opening = find_marker(s, 0);
    let first = find_non_marker(s, opening + 1);
    &&& 0 <= i <= s.len()
    &&& state.1.len() <= MAX_FRAME_CONTENT
    &&& !state.0 ==> opening == find_marker(s, i)
    &&& state.0 ==> opening < i
    &&& state.0 && state.1.len() == 0 ==> first == find_non_marker(s, i)
    &&& state.0 && state.1.len() > 0 ==> {
        &&& first < i
        &&& find_marker(s, first) == find_marker(s, i)
        &&& state.1 == s.subrange(first, i)
    }
}

/// Feeding byte `i` either keeps the reader on track or gives the outcome
/// that `decode_frame` names, having used up `i + 1` bytes.
proof fn lemma_reader_step(s: Seq<u8>, i: int, state: (bool, Seq<u8>))
    requires
        0 <= i < s.len(),
        reader_tracks(s, i, state),
        !state.0 ==> state.1.len() == 0,
    ensures
        ({
            let b = s[i];
            let (in_frame, content) = state;
            &&& !in_frame ==> reader_tracks(s, i + 1, (b == FRAME_MARKER, Seq::<u8>::empty()))
            &&& in_frame && b == FRAME_MARKER && content.len() == 0 ==> reader_tracks(s, i + 1, state)
            &&& in_frame && b == FRAME_MARKER && content.len() > 0 ==> decode_frame(s) == Ok::<
                (u8, Seq<u8>, int),
                DecodeError,
            >((content[0], content.subrange(1, content.len() as int), i + 1))
            &&& in_frame && b != FRAME_MARKER && content.len() == MAX_FRAME_CONTENT ==> decode_frame(s)
                == Err::<(u8, Seq<u8>, int), DecodeError>(DecodeError::FrameTooLong)
            &&& in_frame && b != FRAME_MARKER && content.len() < MAX_FRAME_CONTENT ==> reader_tracks(
                s,
                i + 1,
                (true, content.push(b)),
            )
        }),
{
    let b = s[i];
    let (in_frame, content) = state;
    let opening = find_marker(s, 0);
    let first = find_non_marker(s, opening + 1);
    lemma_find_marker_range(s, 0);
    lemma_find_non_marker_range(s, opening + 1);
    if in_frame && content.len() > 0 {
        lemma_find_marker_range(s, i + 1);
        assert(content[0] == s[first]);
        assert(content.subrange(1, content.len() as int) == s.subrange(first + 1, i));
        assert(content.push(b) == s.subrange(first, i + 1));
    } else if in_frame && b != FRAME_MARKER {
        assert(first == i);
        assert(content.push(b) == s.subrange(i, i + 1));
    }
}

/// A reader still on track when the bytes run out means the bytes hold no
/// whole frame.
proof fn lemma_reader_at_end(s: Seq<u8>, state: (bool, Seq<u8>))
    requires
        reader_tracks(s, s.len() as int, state),
    ensures
        decode_frame(s) == Err::<(u8, Seq<u8>, int), DecodeError>(DecodeError::Incomplete),
{
    lemma_find_marker_range(s, 0);
    lemma_find_non_marker_range(s, find_marker(s, 0) + 1);
}

/// Round trip: the frame of a packet that can be framed reads back as that
/// packet, and uses up exactly the frame's bytes.
pub proof fn lemma_frame_round_trip(kind: u8, payload: Seq<u8>)
    requires
        can_frame(kind, payload),
    ensures
        decode_frame(frame_bytes(kind, payload)) == Ok::<(u8, Seq<u8>, int), DecodeError>(
            (kind, payload, payload.len() + 3int),
        ),
{
    let s = frame_bytes(kind, payload);
    let last = payload.len() + 2int;
    assert(s[0] == FRAME_MARKER);
    assert(find_marker(s, 0) == 0);
    assert(s[1] == kind);
    assert(find_non_marker(s, 1) == 1);
    assert(marker_free(s, 1, last)) by {
        assert forall|j: int| 1 <= j < last implies s[j] != FRAME_MARKER by {
            if j >= 2 {
                assert(s[j] == payload[j - 2]);
            }
        }
    }
    lemma_find_marker_skips(s, 1, last);
    assert(s[last] == FRAME_MARKER);
    assert(find_marker(s, last) == last);
    assert(s.subrange(2, last) == payload);
}

/// A stream whose first marker is followed by more than a frame's worth of
/// non-marker bytes is refused as too long, whatever comes after them.
pub proof fn lemma_overlong_frame(junk: Seq<u8>, body: Seq<u8>)
    requires
        marker_free(junk, 0, junk.len() as int),
        body.len() >= MAX_PACKET_LENGTH + 1,
        marker_free(body, 0, MAX_PACKET_LENGTH + 1),
    ensures
        decode_frame(junk + seq![FRAME_MARKER] + body) == Err::<(u8, Seq<u8>, int), DecodeError>(
            DecodeError::FrameTooLong,
        ),
{
    let s = junk + seq![FRAME_MARKER] + body;
    let opening = junk.len() as int;
    let stop = opening + 1 + MAX_PACKET_LENGTH + 1;
    assert(marker_free(s, 0, opening)) by {
        assert forall|j: int| 0 <= j < opening implies s[j] != FRAME_MARKER by {
            assert(s[j] == junk[j]);
        }
    }
    lemma_find_marker_skips(s, 0, opening);
    assert(find_marker(s, 0) == opening);
    assert(s[opening + 1] == body[0]);
    assert(find_non_marker(s, opening + 1) == opening + 1);
    assert(marker_free(s, opening + 1, stop)) by {
        assert forall|j: int| opening + 1 <= j < stop implies s[j] != FRAME_MARKER by {
            assert(s[j] == body[j - opening - 1]);
        }
    }
    lemma_find_marker_skips(s, opening + 1, stop);
    lemma_find_marker_range(s, stop);
}

} // verus!
