//! Frames: packets on a stream of bytes, each behind its length.
use vstd::prelude::*;

verus! {

/// The longest packet that a length can say.
pub const MAX_PACKET_LEN: usize = 65535;

/// The length that is written in front of a packet.
pub open spec fn written_len(data: Seq<u8>) -> int {
    if data.len() <= MAX_PACKET_LEN {
        data.len() as int
    } else {
        MAX_PACKET_LEN as int
    }
}

/// A length, as two bytes, the higher first.
pub open spec fn length_bytes(n: int) -> Seq<u8> {
    seq![(n / 256) as u8, (n % 256) as u8]
}

/// The length that two bytes say.
pub open spec fn length_of(bytes: Seq<u8>) -> int {
    bytes[0] * 256 + bytes[1]
}

/// The frame of a packet.
pub open spec fn frame(data: Seq<u8>) -> Seq<u8> {
    length_bytes(written_len(data)) + data
}

/// Whether a whole frame stands at the start of a stream.
pub open spec fn has_frame(bytes: Seq<u8>) -> bool {
    bytes.len() >= 2 && bytes.len() >= 2 + length_of(bytes)
}

/// The packet in the first frame.
pub open spec fn first_packet(bytes: Seq<u8>) -> Seq<u8> {
    bytes.subrange(2, 2 + length_of(bytes))
}

/// What follows the first frame.
pub open spec fn after_frame(bytes: Seq<u8>) -> Seq<u8> {
    bytes.skip(2 + length_of(bytes))
}

/// The packets of the whole frames on a stream.
pub open spec fn packets(bytes: Seq<u8>) -> Seq<Seq<u8>>
    decreases bytes.len(),
{
    if has_frame(bytes) && length_of(bytes) >= 0 {
        seq![first_packet(bytes)] + packets(after_frame(bytes))
    } else {
        seq![]
    }
}

/// The frame of a packet, to be written.
pub fn write_frame(data: &[u8]) -> (r: Vec<u8>)
    ensures
        r@ == frame(data@),
{
    let len: usize = if data.len() <= MAX_PACKET_LEN {
        data.len()
    } else {
        MAX_PACKET_LEN
    };
    let mut out: Vec<u8> = Vec::new();
    out.push((len / 256) as u8);
    out.push((len % 256) as u8);
    let mut i: usize = 0;
    assert(out@ =~= length_bytes(written_len(data@)) + data@.take(0));
    while i < data.len()
        invariant
            i <= data@.len(),
            out@ == length_bytes(written_len(data@)) + data@.take(i as int),
        decreases data@.len() - i,
    {
        out.push(data[i]);
        i = i + 1;
        assert(out@ =~= length_bytes(written_len(data@)) + data@.take(i as int));
    }
    assert(data@.take(i as int) =~= data@);
    out
}

/// How a stream ends.
#[derive(Debug, Clone, Copy, PartialEq, Eq, Structural)]
pub enum StreamEnd {
    /// Between two frames, or within a length.
    Clean,
    /// Within a packet.
    Truncated,
}

/// How a stream ends that has these bytes behind its last whole frame.
pub open spec fn end_of(rest: Seq<u8>) -> StreamEnd {
    if rest.len() < 2 {
        StreamEnd::Clean
    } else {
        StreamEnd::Truncated
    }
}

/// Reads frames from a stream that comes in pieces.
pub struct FrameReader {
    buffer: Vec<u8>,
}

impl View for FrameReader {
    type V = Seq<u8>;

    /// What has come and was not read yet.
    closed spec fn view(&self) -> Seq<u8> {
        self.buffer@
    }
}

fn bytes_between(bytes: &Vec<u8>, start: usize, end: usize) -> (r: Vec<u8>)
    requires
        start <= end <= bytes@.len(),
    ensures
        r@ == bytes@.subrange(start as int, end as int),
{
    let mut out: Vec<u8> = Vec::new();
    let mut i: usize = start;
    while i < end
        invariant
            start <= i <= end <= bytes@.len(),
            out@ == bytes@.subrange(start as int, i as int),
        decreases end - i,
    {
        out.push(bytes[i]);
        i = i + 1;
        assert(out@ =~= bytes@.subrange(start as int, i as int));
    }
    out
}

impl FrameReader {
    /// A reader at the start of a stream.
    pub fn new() -> (r: Self)
        ensures
            r@ == Seq::<u8>::empty(),
    {
        FrameReader { buffer: Vec::new() }
    }

    /// Takes in the next piece of the stream.
    pub fn receive(&mut self, piece: &[u8])
        ensures
            final(self)@ == old(self)@ + piece@,
    {
        let mut i: usize = 0;
        assert(self@ =~= old(self)@ + piece@.take(0));
        while i < piece.len()
            invariant
                i <= piece@.len(),
                self@ == old(self)@ + piece@.take(i as int),
            decreases piece@.len() - i,
        {
            self.buffer.push(piece[i]);
            i = i + 1;
            assert(self@ =~= old(self)@ + piece@.take(i as int));
        }
        assert(piece@.take(i as int) =~= piece@);
    }

    /// The next packet, where its frame has come whole.
    pub fn read_frame(&mut self) -> (r: Option<Vec<u8>>)
        ensures
            match r {
                Some(packet) => has_frame(old(self)@) && packet@ == first_packet(old(self)@)
                    && final(self)@ == after_frame(old(self)@),
                None => !has_frame(old(self)@) && final(self)@ == old(self)@,
            },
    {
        let n: usize = self.buffer.len();
        if n < 2 {
            return None;
        }
        let len: usize = self.buffer[0] as usize * 256 + self.buffer[1] as usize;
        if n - 2 < len {
            return None;
        }
        let packet = bytes_between(&self.buffer, 2, 2 + len);
        let rest = bytes_between(&self.buffer, 2 + len, n);
        assert(rest@ =~= self.buffer@.skip(2 + len));
        self.buffer = rest;
        Some(packet)
    }

    /// How the stream ends, where it ends here and every whole frame was read.
    pub fn at_end(&self) -> (r: StreamEnd)
        requires
            !has_frame(self@),
        ensures
            r == end_of(self@),
    {
        if self.buffer.len() < 2 {
            StreamEnd::Clean
        } else {
            StreamEnd::Truncated
        }
    }
}

/// The frame that starts a stream must be there.
pub fn expect_assignment(frame: Option<Vec<u8>>) -> (r: Result<Vec<u8>, String>)
    ensures
        match (r, frame) {
            (Ok(bytes), Some(given)) => bytes == given,
            (Err(message), None) => message@ == "stream closed before assignment"@,
            _ => false,
        },
{
    match frame {
        Some(bytes) => Ok(bytes),
        None => Err("stream closed before assignment".to_owned()),
    }
}

/// The part of a buffer that a read of `n` bytes has filled, where it fits.
pub fn filled_part(buffer: &[u8], n: usize) -> (r: Option<Vec<u8>>)
    ensures
        match r {
            Some(packet) => n <= buffer@.len() && packet@ == buffer@.take(n as int),
            None => n > buffer@.len(),
        },
{
    if n > buffer.len() {
        return None;
    }
    let mut out: Vec<u8> = Vec::new();
    let mut i: usize = 0;
    while i < n
        invariant
            i <= n <= buffer@.len(),
            out@ == buffer@.take(i as int),
        decreases n - i,
    {
        out.push(buffer[i]);
        i = i + 1;
        assert(out@ =~= buffer@.take(i as int));
    }
    Some(out)
}

/// What a read of `n` bytes from the interface puts on the stream.
pub open spec fn outbound(buffer: Seq<u8>, n: int) -> Result<Option<Seq<u8>>, Seq<char>> {
    if n == 0 {
        Ok(None)
    } else if n > buffer.len() {
        Err("tun read length exceeded buffer"@)
    } else {
        Ok(Some(frame(buffer.take(n))))
    }
}

/// What a read of `n` bytes from the interface puts on the stream: the frame of
/// the packet, or nothing more where the interface is closed.
pub fn outbound_frame(buffer: &[u8], n: usize) -> (r: Result<Option<Vec<u8>>, String>)
    ensures
        match r {
            Ok(Some(bytes)) => outbound(buffer@, n as int) == Ok::<Option<Seq<u8>>, Seq<char>>(
                Some(bytes@),
            ),
            Ok(None) => outbound(buffer@, n as int) == Ok::<Option<Seq<u8>>, Seq<char>>(None),
            Err(message) => outbound(buffer@, n as int) == Err::<Option<Seq<u8>>, Seq<char>>(
                message@,
            ),
        },
{
    if n == 0 {
        return Ok(None);
    }
    match filled_part(buffer, n) {
        Some(packet) => Ok(Some(write_frame(&packet))),
        None => Err("tun read length exceeded buffer".to_owned()),
    }
}

// ---------------------------------------------------------------------------
// Laws
// ---------------------------------------------------------------------------
/// Reading a frame gives back the packet that was written, and leaves what
/// follows it. The packet must be short enough for its length to be written.
pub proof fn read_gives_back_what_was_written(data: Seq<u8>, rest: Seq<u8>)
    requires
        data.len() <= MAX_PACKET_LEN,
    ensures
        has_frame(frame(data) + rest),
        first_packet(frame(data) + rest) == data,
        after_frame(frame(data) + rest) == rest,
{
    let n = data.len() as int;
    let stream = frame(data) + rest;
    assert(stream[0] == (n / 256) as u8 && stream[1] == (n % 256) as u8);
    assert(length_of(stream) == n) by {
        assert(n / 256 < 256);
        assert(n == 256 * (n / 256) + n % 256);
    }
    assert(first_packet(stream) =~= data);
    assert(after_frame(stream) =~= rest);
}

/// The frames of packets, one after the other.
pub open spec fn frames(list: Seq<Seq<u8>>) -> Seq<u8>
    decreases list.len(),
{
    if list.len() == 0 {
        Seq::empty()
    } else {
        frame(list[0]) + frames(list.drop_first())
    }
}

/// A stream of frames holds the packets that were written, in order; a frame
/// that has not come whole changes nothing before it.
pub proof fn stream_keeps_the_packets(list: Seq<Seq<u8>>, rest: Seq<u8>)
    requires
        forall|i: int| 0 <= i < list.len() ==> (#[trigger] list[i]).len() <= MAX_PACKET_LEN,
        !has_frame(rest),
    ensures
        packets(frames(list) + rest) == list,
    decreases list.len(),
{
    if list.len() == 0 {
        assert(frames(list) + rest =~= rest);
        assert(list =~= seq![]);
    } else {
        let tail = list.drop_first();
        assert forall|i: int| 0 <= i < tail.len() implies (#[trigger] tail[i]).len()
            <= MAX_PACKET_LEN by {
            assert(tail[i] == list[i + 1]);
        }
        stream_keeps_the_packets(tail, rest);
        read_gives_back_what_was_written(list[0], frames(tail) + rest);
        assert(frames(list) + rest =~= frame(list[0]) + (frames(tail) + rest));
        assert(list =~= seq![list[0]] + tail);
    }
}

/// A packet that the interface hands over is the packet that the other end
/// writes to its own: what goes onto the stream is read back as it was.
pub proof fn pump_carries_the_packet(buffer: Seq<u8>, n: int, rest: Seq<u8>)
    requires
        0 < n <= buffer.len(),
        n <= MAX_PACKET_LEN,
    ensures
        outbound(buffer, n) == Ok::<Option<Seq<u8>>, Seq<char>>(Some(frame(buffer.take(n)))),
        has_frame(frame(buffer.take(n)) + rest),
        first_packet(frame(buffer.take(n)) + rest) == buffer.take(n),
        after_frame(frame(buffer.take(n)) + rest) == rest,
{
    read_gives_back_what_was_written(buffer.take(n), rest);
}

} // verus!
