//! The frame codec: a payload travels behind a four byte big-endian length.

use vstd::prelude::*;
use vstd::slice::slice_to_vec;
use crate::text::{decimal, push_decimal};

verus! {

/// The largest number of bytes asked of a source in one read.
pub const NET_BUFF_SIZE: usize = 4096;

/// The number of bytes of the length prefix.
pub const PREFIX_LEN: usize = 4;

/// The four bytes of `n`, most significant first.
pub open spec fn be_bytes(n: u32) -> Seq<u8> {
    seq![
        (n / 0x100_0000) as u8,
        ((n / 0x1_0000) % 0x100) as u8,
        ((n / 0x100) % 0x100) as u8,
        (n % 0x100) as u8,
    ]
}

/// The number that the first four bytes of `b` spell, most significant first.
pub open spec fn be_value(b: Seq<u8>) -> u32
    recommends
        b.len() >= 4,
{
    (b[0] * 0x100_0000 + b[1] * 0x1_0000 + b[2] * 0x100 + b[3]) as u32
}

/// The length that a frame declares for a payload of `len` bytes: the prefix
/// has 32 bits, so a longer payload declares its length modulo 2^32.
pub open spec fn declared_len(len: nat) -> u32 {
    (len % 0x1_0000_0000) as u32
}

/// The wire form of `payload`: its declared length, then its bytes.
pub open spec fn frame_of(payload: Seq<u8>) -> Seq<u8> {
    be_bytes(declared_len(payload.len())) + payload
}

/// Reading the bytes of a number gives the number back.
pub proof fn lemma_be_value_of_be_bytes(n: u32)
    ensures
        be_bytes(n).len() == 4,
        be_value(be_bytes(n)) == n,
{
    let b0 = n as int / 0x100_0000;
    let b1 = (n as int / 0x1_0000) % 0x100;
    let b2 = (n as int / 0x100) % 0x100;
    let b3 = n as int % 0x100;
    assert(0 <= b0 < 0x100);
    assert(n as int / 0x100 == (n as int / 0x1_0000) * 0x100 + b2);
    assert(n as int / 0x1_0000 == b0 * 0x100 + b1);
    assert(n as int == b0 * 0x100_0000 + b1 * 0x1_0000 + b2 * 0x100 + b3);
}

/// Writing the number that four bytes spell gives the four bytes back.
pub proof fn lemma_be_bytes_of_be_value(b: Seq<u8>)
    requires
        b.len() == 4,
    ensures
        be_bytes(be_value(b)) =~= b,
{
    let b0 = b[0] as int;
    let b1 = b[1] as int;
    let b2 = b[2] as int;
    let b3 = b[3] as int;
    let v = b0 * 0x100_0000 + b1 * 0x1_0000 + b2 * 0x100 + b3;
    assert(0 <= v <= u32::MAX);
    assert(be_value(b) == v);
    assert(v % 0x100 == b3);
    assert(v / 0x100 == b0 * 0x1_0000 + b1 * 0x100 + b2);
    assert((v / 0x100) % 0x100 == b2);
    assert(v / 0x1_0000 == b0 * 0x100 + b1);
    assert((v / 0x1_0000) % 0x100 == b1);
    assert(v / 0x100_0000 == b0);
}

/// The length prefix for a payload of `len` bytes.
pub fn length_prefix(len: usize) -> (prefix: [u8; 4])
    ensures
        prefix@ == be_bytes(declared_len(len as nat)),
{
    let wide: u64 = len as u64;
    let n: u32 = (wide % 0x1_0000_0000) as u32;
    let prefix: [u8; 4] = [
        (n / 0x100_0000) as u8,
        ((n / 0x1_0000) % 0x100) as u8,
        ((n / 0x100) % 0x100) as u8,
        (n % 0x100) as u8,
    ];
    assert(prefix@ =~= be_bytes(n));
    prefix
}

/// The length that a prefix declares.
pub fn prefix_value(prefix: &[u8; 4]) -> (n: u32)
    ensures
        n == be_value(prefix@),
{
    let b0: u32 = prefix[0] as u32;
    let b1: u32 = prefix[1] as u32;
    let b2: u32 = prefix[2] as u32;
    let b3: u32 = prefix[3] as u32;
    b0 * 0x100_0000 + b1 * 0x1_0000 + b2 * 0x100 + b3
}

/// Whether `bytes` begins with a whole frame: a prefix and as many payload
/// bytes as it declares.
pub open spec fn starts_with_frame(bytes: Seq<u8>) -> bool {
    bytes.len() >= PREFIX_LEN && bytes.len() >= PREFIX_LEN + be_value(bytes)
}

/// The payload of the frame that `bytes` begins with.
pub open spec fn first_payload(bytes: Seq<u8>) -> Seq<u8>
    recommends
        starts_with_frame(bytes),
{
    bytes.subrange(PREFIX_LEN as int, PREFIX_LEN + be_value(bytes))
}

/// What follows the frame that `bytes` begins with.
pub open spec fn after_first_frame(bytes: Seq<u8>) -> Seq<u8>
    recommends
        starts_with_frame(bytes),
{
    bytes.skip(PREFIX_LEN + be_value(bytes))
}

/// Whether `received` is the leading part of one frame, with nothing beyond it.
pub open spec fn within_frame(received: Seq<u8>) -> bool {
    received.len() <= PREFIX_LEN || received.len() <= PREFIX_LEN + be_value(received)
}

/// Whether `received` is exactly one frame.
pub open spec fn is_whole_frame(received: Seq<u8>) -> bool {
    received.len() >= PREFIX_LEN && received.len() == PREFIX_LEN + be_value(received)
}

/// How many bytes a reader that holds `received` asks of its source next: what
/// is missing of the prefix, then what is missing of the payload, never more
/// than `NET_BUFF_SIZE` at once, and nothing once the frame is whole.
pub open spec fn request_len(received: Seq<u8>) -> nat {
    if received.len() < PREFIX_LEN {
        (PREFIX_LEN - received.len()) as nat
    } else if received.len() >= PREFIX_LEN + be_value(received) {
        0
    } else if PREFIX_LEN + be_value(received) - received.len() <= NET_BUFF_SIZE {
        (PREFIX_LEN + be_value(received) - received.len()) as nat
    } else {
        NET_BUFF_SIZE as nat
    }
}

/// Why a frame could not be read in full.
#[derive(Clone, Copy, Debug, PartialEq, Eq, Structural)]
pub enum FrameError {
    /// The source ended after `received` of the four prefix bytes.
    CutPrefix { received: usize },
    /// The source ended after `received` of the `declared` payload bytes.
    CutPayload { declared: u32, received: usize },
}

impl FrameError {
    /// What the error reports: how far the source came.
    pub open spec fn report(self) -> Seq<char> {
        match self {
            FrameError::CutPrefix { received } => {
                "the stream ended after "@ + decimal(received as nat)
                    + " of the 4 bytes of a length prefix"@
            },
            FrameError::CutPayload { declared, received } => {
                "the stream ended after "@ + decimal(received as nat) + " of "@
                    + decimal(declared as nat) + " payload bytes"@
            },
        }
    }

    /// What the error reports, as a string.
    pub fn to_string(&self) -> (text: String)
        ensures
            text@ == self.report(),
    {
        let mut text = "the stream ended after ".to_owned();
        match self {
            FrameError::CutPrefix { received } => {
                push_decimal(&mut text, *received as u64);
                text.push_str(" of the 4 bytes of a length prefix");
            },
            FrameError::CutPayload { declared, received } => {
                push_decimal(&mut text, *received as u64);
                text.push_str(" of ");
                push_decimal(&mut text, *declared as u64);
                text.push_str(" payload bytes");
            },
        }
        text
    }
}

/// The error of a source that ends after `received`, short of a whole frame.
pub open spec fn cut_error(received: Seq<u8>) -> FrameError
    recommends
        !starts_with_frame(received),
{
    if received.len() < PREFIX_LEN {
        FrameError::CutPrefix { received: received.len() as usize }
    } else {
        FrameError::CutPayload {
            declared: be_value(received),
            received: (received.len() - PREFIX_LEN) as usize,
        }
    }
}

/// The sending side of one frame, free of I/O. The caller hands `pending()`
/// to its sink, reports with `advance` how many of those bytes the sink took,
/// and goes on until `is_done()`.
pub struct FrameWriter<'a> {
    prefix: [u8; 4],
    payload: &'a [u8],
    prefix_sent: usize,
    payload_sent: usize,
}

impl<'a> FrameWriter<'a> {
    /// The invariant of a writer.
    pub closed spec fn well_formed(&self) -> bool {
        &&& self.prefix@ == be_bytes(declared_len(self.payload@.len()))
        &&& self.prefix_sent <= PREFIX_LEN
        &&& self.payload_sent <= self.payload@.len()
        &&& (self.prefix_sent < PREFIX_LEN ==> self.payload_sent == 0)
    }

    /// The payload that this writer frames.
    pub closed spec fn payload(&self) -> Seq<u8> {
        self.payload@
    }

    /// How many bytes of the frame the sink has taken.
    pub closed spec fn sent_len(&self) -> nat {
        (self.prefix_sent + self.payload_sent) as nat
    }

    /// The whole frame.
    pub open spec fn frame(&self) -> Seq<u8> {
        frame_of(self.payload())
    }

    /// The bytes of the frame that the sink has taken.
    pub open spec fn sent(&self) -> Seq<u8> {
        self.frame().take(self.sent_len() as int)
    }

    /// The bytes that `pending()` offers: the rest of the prefix while the
    /// prefix is incomplete, the rest of the payload after that.
    pub open spec fn offer(&self) -> Seq<u8> {
        if self.sent_len() < PREFIX_LEN {
            self.frame().subrange(self.sent_len() as int, PREFIX_LEN as int)
        } else {
            self.frame().skip(self.sent_len() as int)
        }
    }

    /// A writer for the frame of `payload`, of which nothing is sent yet.
    pub fn new(payload: &'a [u8]) -> (writer: Self)
        ensures
            writer.well_formed(),
            writer.payload() == payload@,
            writer.sent_len() == 0,
    {
        FrameWriter {
            prefix: length_prefix(payload.len()),
            payload,
            prefix_sent: 0,
            payload_sent: 0,
        }
    }

    /// A writer always stays within its frame.
    pub proof fn lemma_sent_within_frame(&self)
        requires
            self.well_formed(),
        ensures
            self.sent_len() <= self.frame().len(),
            self.frame().len() == PREFIX_LEN + self.payload().len(),
    {
    }

    /// However the sink took the bytes, in one piece or in many, what it has
    /// taken when the writer is done is the frame of the payload.
    pub proof fn lemma_done_is_whole_frame(&self)
        requires
            self.well_formed(),
            self.sent_len() == self.frame().len(),
        ensures
            self.sent() == frame_of(self.payload()),
            self.offer() == Seq::<u8>::empty(),
    {
        self.lemma_sent_within_frame();
        assert(self.sent() =~= frame_of(self.payload()));
        assert(self.offer() =~= Seq::<u8>::empty());
    }

    /// Whether the sink has taken the whole frame.
    pub fn is_done(&self) -> (done: bool)
        requires
            self.well_formed(),
        ensures
            done == (self.sent_len() == self.frame().len()),
    {
        self.prefix_sent == PREFIX_LEN && self.payload_sent == self.payload.len()
    }

    /// The bytes to hand to the sink next; empty only when the frame is done.
    pub fn pending(&self) -> (bytes: &[u8])
        requires
            self.well_formed(),
        ensures
            bytes@ == self.offer(),
            bytes@.len() == 0 <==> self.sent_len() == self.frame().len(),
    {
        if self.prefix_sent < PREFIX_LEN {
            let bytes = &self.prefix.as_slice()[self.prefix_sent..PREFIX_LEN];
            assert(bytes@ =~= self.offer());
            bytes
        } else {
            let bytes = &self.payload[self.payload_sent..self.payload.len()];
            assert(bytes@ =~= self.offer());
            bytes
        }
    }

    /// Records that the sink took the first `n` of the pending bytes.
    pub fn advance(&mut self, n: usize)
        requires
            old(self).well_formed(),
            n <= old(self).offer().len(),
        ensures
            final(self).well_formed(),
            final(self).payload() == old(self).payload(),
            final(self).sent_len() == old(self).sent_len() + n,
            final(self).sent() == old(self).sent() + old(self).offer().take(n as int),
    {
        let total: usize = self.payload.len();
        proof {
            self.lemma_sent_within_frame();
            assert(self.offer().len() == if self.prefix_sent < PREFIX_LEN {
                PREFIX_LEN - self.prefix_sent
            } else {
                total - self.payload_sent
            });
        }
        if self.prefix_sent < PREFIX_LEN {
            self.prefix_sent = self.prefix_sent + n;
        } else {
            self.payload_sent = self.payload_sent + n;
        }
        assert(self.sent() =~= old(self).sent() + old(self).offer().take(n as int));
    }
}

/// The receiving side of one frame, free of I/O. The caller asks its source
/// for at most `next_request()` bytes, hands what came to `accept`, and goes
/// on until `next_request()` is zero. An empty chunk stands for a source that
/// has ended.
pub struct FrameReader {
    head: Vec<u8>,
    body: Vec<u8>,
}

impl FrameReader {
    /// Every byte accepted so far, prefix first.
    pub closed spec fn received(&self) -> Seq<u8> {
        self.head@ + self.body@
    }

    /// The invariant of a reader: it never holds a byte beyond its frame.
    pub closed spec fn well_formed(&self) -> bool {
        &&& self.head@.len() <= PREFIX_LEN
        &&& (self.head@.len() < PREFIX_LEN ==> self.body@.len() == 0)
        &&& (self.head@.len() == PREFIX_LEN ==> self.body@.len() <= be_value(self.head@))
    }

    /// A reader that has accepted nothing.
    pub fn new() -> (reader: Self)
        ensures
            reader.well_formed(),
            reader.received() == Seq::<u8>::empty(),
    {
        let reader = FrameReader { head: Vec::new(), body: Vec::new() };
        assert(reader.received() =~= Seq::<u8>::empty());
        reader
    }

    /// A well-formed reader holds the leading part of one frame.
    pub proof fn lemma_within_frame(&self)
        requires
            self.well_formed(),
        ensures
            within_frame(self.received()),
    {
        if self.head@.len() == PREFIX_LEN {
            assert(be_value(self.received()) == be_value(self.head@));
        }
    }

    /// The length that the prefix declares, once the prefix is whole.
    fn declared(&self) -> (n: u32)
        requires
            self.well_formed(),
            self.head@.len() == PREFIX_LEN,
        ensures
            n == be_value(self.received()),
            n == be_value(self.head@),
            self.body@.len() <= n,
    {
        let prefix: [u8; 4] = [self.head[0], self.head[1], self.head[2], self.head[3]];
        assert(be_value(prefix@) == be_value(self.head@));
        assert(be_value(self.received()) == be_value(self.head@));
        prefix_value(&prefix)
    }

    /// How many bytes to ask of the source next; zero once the frame is whole.
    pub fn next_request(&self) -> (n: usize)
        requires
            self.well_formed(),
        ensures
            n == request_len(self.received()),
            n <= NET_BUFF_SIZE,
            n == 0 <==> is_whole_frame(self.received()),
    {
        if self.head.len() < PREFIX_LEN {
            PREFIX_LEN - self.head.len()
        } else {
            let declared: usize = self.declared() as usize;
            let missing: usize = declared - self.body.len();
            if missing <= NET_BUFF_SIZE {
                missing
            } else {
                NET_BUFF_SIZE
            }
        }
    }

    /// Takes what the source delivered. An empty chunk while bytes are still
    /// missing means that the source ended inside the frame: that is an error,
    /// never a short frame.
    pub fn accept(&mut self, chunk: &[u8]) -> (result: Result<(), FrameError>)
        requires
            old(self).well_formed(),
            chunk@.len() <= request_len(old(self).received()),
        ensures
            final(self).well_formed(),
            chunk@.len() == 0 && !is_whole_frame(old(self).received()) ==> ({
                &&& result == Err::<(), FrameError>(cut_error(old(self).received()))
                &&& final(self).received() == old(self).received()
            }),
            chunk@.len() > 0 || is_whole_frame(old(self).received()) ==> ({
                &&& result is Ok
                &&& final(self).received() == old(self).received() + chunk@
            }),
    {
        let ghost before = self.received();
        if self.head.len() == PREFIX_LEN {
            assert(be_value(before) == be_value(self.head@));
        }
        if chunk.len() == 0 {
            assert(before + chunk@ =~= before);
            if self.head.len() < PREFIX_LEN {
                assert(before =~= self.head@);
                return Err(FrameError::CutPrefix { received: self.head.len() });
            }
            let declared: u32 = self.declared();
            if self.body.len() < declared as usize {
                return Err(FrameError::CutPayload { declared, received: self.body.len() });
            }
            return Ok(());
        }
        if self.head.len() < PREFIX_LEN {
            append_bytes(&mut self.head, chunk);
            assert(self.received() =~= before + chunk@);
            if self.head.len() == PREFIX_LEN {
                assert(self.body@.len() <= be_value(self.head@));
            }
        } else {
            append_bytes(&mut self.body, chunk);
            assert(self.received() =~= before + chunk@);
        }
        Ok(())
    }

    /// The payload of the frame, once it is whole.
    pub fn into_payload(self) -> (payload: Option<Vec<u8>>)
        requires
            self.well_formed(),
        ensures
            is_whole_frame(self.received()) ==> ({
                &&& payload is Some
                &&& payload->0@ == first_payload(self.received())
            }),
            !is_whole_frame(self.received()) ==> payload is None,
    {
        if self.head.len() < PREFIX_LEN {
            return None;
        }
        let declared: u32 = self.declared();
        if self.body.len() < declared as usize {
            return None;
        }
        assert(self.body@ =~= first_payload(self.received()));
        Some(self.body)
    }
}

/// Appends the bytes of `more` to `bytes`.
pub fn append_bytes(bytes: &mut Vec<u8>, more: &[u8])
    ensures
        final(bytes)@ == old(bytes)@ + more@,
{
    let mut i: usize = 0;
    while i < more.len()
        invariant
            i <= more@.len(),
            bytes@ == old(bytes)@ + more@.take(i as int),
        decreases more@.len() - i,
    {
        bytes.push(more[i]);
        i = i + 1;
        assert(bytes@ =~= old(bytes)@ + more@.take(i as int));
    }
    assert(more@.take(i as int) =~= more@);
}

/// A byte stream held in memory. What is written to it is appended to what
/// it holds; reading hands the held bytes out in order, once each. Each call
/// moves at most `chunk()` bytes, as a real stream may move fewer bytes than
/// it was asked for. A read that returns nothing means the stream has ended.
pub struct MemoryStream {
    data: Vec<u8>,
    pos: usize,
    chunk: usize,
}

impl MemoryStream {
    /// The invariant of a stream.
    pub closed spec fn well_formed(&self) -> bool {
        self.pos <= self.data@.len() && self.chunk >= 1
    }

    /// The bytes written and not yet read.
    pub closed spec fn unread(&self) -> Seq<u8> {
        self.data@.skip(self.pos as int)
    }

    /// The number of bytes read so far.
    pub closed spec fn consumed(&self) -> nat {
        self.pos as nat
    }

    /// The most bytes that one read or write moves.
    pub closed spec fn chunk(&self) -> nat {
        self.chunk as nat
    }

    /// An empty stream without a limit on what one call moves.
    pub fn new() -> (stream: Self)
        ensures
            stream.well_formed(),
            stream.unread() == Seq::<u8>::empty(),
            stream.consumed() == 0,
            stream.chunk() == usize::MAX,
    {
        let stream = MemoryStream { data: Vec::new(), pos: 0, chunk: usize::MAX };
        assert(stream.unread() =~= Seq::<u8>::empty());
        stream
    }

    /// A stream that holds `data` and moves at most `chunk` bytes per call; a
    /// `chunk` of zero is taken as one, since a stream that moves nothing
    /// would never end.
    pub fn from_bytes(data: Vec<u8>, chunk: usize) -> (stream: Self)
        ensures
            stream.well_formed(),
            stream.unread() == data@,
            stream.consumed() == 0,
            stream.chunk() == if chunk == 0 { 1 } else { chunk as nat },
    {
        let stream = MemoryStream { data, pos: 0, chunk: if chunk == 0 { 1 } else { chunk } };
        assert(stream.unread() =~= data@);
        stream
    }

    /// How many bytes a read of at most `max` bytes hands out.
    pub open spec fn read_len(&self, max: nat) -> nat {
        if max <= self.chunk() && max <= self.unread().len() {
            max
        } else if self.chunk() <= self.unread().len() {
            self.chunk()
        } else {
            self.unread().len()
        }
    }

    /// Hands out the next unread bytes: at most `max`, at most `chunk()`, and
    /// nothing only where `max` is zero or the stream has ended.
    pub fn read(&mut self, max: usize) -> (bytes: Vec<u8>)
        requires
            old(self).well_formed(),
        ensures
            final(self).well_formed(),
            final(self).chunk() == old(self).chunk(),
            bytes@ == old(self).unread().take(old(self).read_len(max as nat) as int),
            final(self).unread() == old(self).unread().skip(old(self).read_len(max as nat) as int),
            final(self).consumed() == old(self).consumed() + bytes@.len(),
    {
        let left: usize = self.data.len() - self.pos;
        let mut n: usize = max;
        if self.chunk < n {
            n = self.chunk;
        }
        if left < n {
            n = left;
        }
        let bytes = slice_to_vec(&self.data.as_slice()[self.pos..self.pos + n]);
        assert(bytes@ =~= self.unread().take(n as int));
        let ghost before = self.unread();
        self.pos = self.pos + n;
        assert(self.unread() =~= before.skip(n as int));
        bytes
    }

    /// Takes the first bytes of `src`, at most `chunk()` of them, and returns
    /// how many it took.
    pub fn write(&mut self, src: &[u8]) -> (n: usize)
        requires
            old(self).well_formed(),
        ensures
            final(self).well_formed(),
            final(self).chunk() == old(self).chunk(),
            final(self).consumed() == old(self).consumed(),
            n == if src@.len() <= old(self).chunk() { src@.len() } else { old(self).chunk() },
            final(self).unread() == old(self).unread() + src@.take(n as int),
    {
        let n: usize = if src.len() <= self.chunk { src.len() } else { self.chunk };
        let ghost before = self.unread();
        append_bytes(&mut self.data, &src[0..n]);
        assert(self.unread() =~= before + src@.take(n as int));
        n
    }
}

/// Writes the frame of `src` to `sock`: the four byte length, then the
/// payload, going on after every partial write until the stream has taken
/// every byte.
pub fn send_buffer(src: &[u8], sock: &mut MemoryStream)
    requires
        old(sock).well_formed(),
    ensures
        final(sock).well_formed(),
        final(sock).chunk() == old(sock).chunk(),
        final(sock).consumed() == old(sock).consumed(),
        final(sock).unread() == old(sock).unread() + frame_of(src@),
{
    let mut writer = FrameWriter::new(src);
    proof {
        writer.lemma_sent_within_frame();
        assert(writer.sent() =~= Seq::<u8>::empty());
        assert(sock.unread() + writer.sent() =~= sock.unread());
    }
    while !writer.is_done()
        invariant
            writer.well_formed(),
            writer.payload() == src@,
            writer.sent_len() <= writer.frame().len(),
            sock.well_formed(),
            sock.chunk() == old(sock).chunk(),
            sock.consumed() == old(sock).consumed(),
            sock.unread() == old(sock).unread() + writer.sent(),
        decreases writer.frame().len() - writer.sent_len(),
    {
        let ghost sent_before = writer.sent();
        let written = sock.write(writer.pending());
        writer.advance(written);
        proof {
            writer.lemma_sent_within_frame();
            assert(sock.unread() =~= old(sock).unread() + writer.sent());
        }
    }
    assert(writer.sent() =~= frame_of(src@));
}

/// Reads one frame from `sock` into `dest`. It reads the four byte length
/// `N`, then asks for what is missing of the `N` payload bytes and never for
/// more, so that the bytes after the frame stay in the stream. A stream that
/// ends before the frame is whole gives an error and leaves `dest` empty.
pub fn receive_buffer(dest: &mut Vec<u8>, sock: &mut MemoryStream) -> (result: Result<(), FrameError>)
    requires
        old(sock).well_formed(),
    ensures
        final(sock).well_formed(),
        final(sock).chunk() == old(sock).chunk(),
        starts_with_frame(old(sock).unread()) ==> ({
            &&& result is Ok
            &&& final(dest)@ == first_payload(old(sock).unread())
            &&& final(sock).unread() == after_first_frame(old(sock).unread())
            &&& final(sock).consumed() == old(sock).consumed() + PREFIX_LEN
                + be_value(old(sock).unread())
        }),
        !starts_with_frame(old(sock).unread()) ==> ({
            &&& result == Err::<(), FrameError>(cut_error(old(sock).unread()))
            &&& final(dest)@ == Seq::<u8>::empty()
            &&& final(sock).unread() == Seq::<u8>::empty()
        }),
{
    dest.clear();
    let ghost all = sock.unread();
    let mut reader = FrameReader::new();
    assert(reader.received() + sock.unread() =~= all);
    loop
        invariant
            reader.well_formed(),
            sock.well_formed(),
            sock.chunk() == old(sock).chunk(),
            all == old(sock).unread(),
            reader.received() + sock.unread() == all,
            sock.consumed() == old(sock).consumed() + reader.received().len(),
            dest@ == Seq::<u8>::empty(),
        ensures
            is_whole_frame(reader.received()),
        decreases sock.unread().len(),
    {
        proof {
            reader.lemma_within_frame();
            lemma_leading_part(reader.received(), sock.unread());
        }
        let want = reader.next_request();
        if want == 0 {
            break ;
        }
        let ghost held = reader.received();
        let ghost rest = sock.unread();
        let chunk = sock.read(want);
        match reader.accept(chunk.as_slice()) {
            Ok(()) => {
                assert(reader.received() + sock.unread() =~= all);
            },
            Err(e) => {
                assert(rest =~= Seq::<u8>::empty());
                assert(held =~= all);
                assert(sock.unread() =~= Seq::<u8>::empty());
                return Err(e);
            },
        }
    }
    proof {
        lemma_leading_part(reader.received(), sock.unread());
        assert(first_payload(reader.received()) =~= first_payload(all));
        assert(sock.unread() =~= after_first_frame(all));
    }
    match reader.into_payload() {
        Some(payload) => {
            *dest = payload;
        },
        None => {},
    }
    Ok(())
}

/// The prefix of a stream decides the length that its first frame declares.
pub proof fn lemma_leading_part(held: Seq<u8>, rest: Seq<u8>)
    ensures
        held.len() >= PREFIX_LEN ==> be_value(held + rest) == be_value(held),
        is_whole_frame(held) ==> starts_with_frame(held + rest),
        within_frame(held) && starts_with_frame(held + rest) && rest.len() == 0
            ==> is_whole_frame(held),
        within_frame(held) && !is_whole_frame(held) && rest.len() == 0
            ==> !starts_with_frame(held + rest),
{
    if rest.len() == 0 {
        assert(held + rest =~= held);
    }
}

/// Round trip. A payload whose length fits the prefix is read back from its
/// frame as it was, whatever follows the frame, and what follows is left over.
pub proof fn lemma_frame_round_trip(payload: Seq<u8>, rest: Seq<u8>)
    requires
        payload.len() <= u32::MAX,
    ensures
        is_whole_frame(frame_of(payload)),
        starts_with_frame(frame_of(payload) + rest),
        first_payload(frame_of(payload) + rest) == payload,
        after_first_frame(frame_of(payload) + rest) == rest,
{
    let n = declared_len(payload.len());
    lemma_be_value_of_be_bytes(n);
    let frame = frame_of(payload);
    assert(be_value(frame) == be_value(be_bytes(n)));
    lemma_leading_part(frame, rest);
    assert(first_payload(frame + rest) =~= payload);
    assert(after_first_frame(frame + rest) =~= rest);
}

/// Truncation. A stream that ends after `k` bytes of a frame, short of the
/// whole, does not hold a frame: reading it is an error that tells how far
/// the stream came.
pub proof fn lemma_cut_frame_is_error(payload: Seq<u8>, k: nat)
    requires
        payload.len() <= u32::MAX,
        k < PREFIX_LEN + payload.len(),
    ensures
        !starts_with_frame(frame_of(payload).take(k as int)),
        k < PREFIX_LEN ==> cut_error(frame_of(payload).take(k as int)) == (FrameError::CutPrefix {
            received: k as usize,
        }),
        k >= PREFIX_LEN ==> cut_error(frame_of(payload).take(k as int)) == (FrameError::CutPayload {
            declared: payload.len() as u32,
            received: (k - PREFIX_LEN) as usize,
        }),
{
    let n = declared_len(payload.len());
    lemma_be_value_of_be_bytes(n);
    let frame = frame_of(payload);
    let cut = frame.take(k as int);
    if k >= PREFIX_LEN {
        assert(be_value(cut) == be_value(be_bytes(n)));
    }
}

/// Exact framing. A reader that asks for `request_len` bytes and gets no more
/// than it asked for never holds a byte beyond its frame, however large the
/// chunks that the source could deliver.
pub proof fn lemma_request_stays_within_frame(received: Seq<u8>, chunk: Seq<u8>)
    requires
        within_frame(received),
        chunk.len() <= request_len(received),
    ensures
        request_len(received) <= NET_BUFF_SIZE,
        within_frame(received + chunk),
        request_len(received) == 0 <==> is_whole_frame(received),
{
    if received.len() >= PREFIX_LEN {
        lemma_leading_part(received, chunk);
    }
}

} // verus!
