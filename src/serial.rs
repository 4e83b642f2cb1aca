//! The framer: a byte-at-a-time state machine that cuts the payloads of
//! `0x9B | L | payload | checksum (2) | 0x9D` frames out of a byte stream.

use vstd::prelude::*;
use crate::text::{decimal, upper_hex, with_decimal, with_hex};

verus! {

/// Byte that opens a frame.
pub const START_BYTE: u8 = 0x9B;

/// Byte that closes a frame.
pub const END_BYTE: u8 = 0x9D;

/// Number of checksum bytes between the payload and the end byte.
pub const CHECKSUM_LENGTH: usize = 2;

/// `std::io::Error`, carried through as an opaque value: the reader's failure
/// is handed back to the caller as it came.
#[verifier::external_type_specification]
#[verifier::external_body]
pub struct ExIoError(std::io::Error);

/// What reading a packet can fail with.
#[derive(Debug)]
pub enum Error {
    /// A zero byte on an idle line: the desk is switched off.
    DeviceTurnedOffError,
    /// The reader failed, other than by a timeout.
    IoError(std::io::Error),
    /// A byte that cannot stand where it was read.
    MalformedPacketError(String),
    /// The reader claims more bytes than it was given room for.
    UnknownError(String),
}

/// Where the framer stands in a frame.
#[derive(Debug)]
pub enum ParserState {
    /// No frame in progress.
    WaitStart,
    /// Start byte seen; the length byte comes next.
    WaitLength,
    /// Collecting the payload: the declared length, and the payload so far.
    WaitBody(usize, Vec<u8>),
    /// Payload complete; the checksum bytes seen so far.
    WaitChecksum(Vec<u8>, usize),
    /// Checksum consumed; the end byte comes next.
    WaitEnd(Vec<u8>),
    /// A whole frame was read: its payload.
    End(Vec<u8>),
}

/// The mathematical model of a `ParserState`.
pub ghost enum Phase {
    WaitStart,
    WaitLength,
    WaitBody(nat, Seq<u8>),
    WaitChecksum(Seq<u8>, nat),
    WaitEnd(Seq<u8>),
    End(Seq<u8>),
}

impl View for ParserState {
    type V = Phase;

    open spec fn view(&self) -> Phase {
        match self {
            ParserState::WaitStart => Phase::WaitStart,
            ParserState::WaitLength => Phase::WaitLength,
            ParserState::WaitBody(len, buf) => Phase::WaitBody(*len as nat, buf@),
            ParserState::WaitChecksum(buf, n) => Phase::WaitChecksum(buf@, *n as nat),
            ParserState::WaitEnd(buf) => Phase::WaitEnd(buf@),
            ParserState::End(buf) => Phase::End(buf@),
        }
    }
}

/// What one byte does to the state machine.
pub ghost enum Step {
    /// The machine moves to this phase.
    Next(Phase),
    /// A zero byte while idle.
    DeviceOff,
    /// A byte that cannot stand here; the message that names it.
    Malformed(Seq<char>),
}

/// The transition of the framer on one byte. The payload stage ends once the
/// payload holds `len - 3` bytes, and never before its first byte: a declared
/// length below 4 gives a payload of one byte.
pub open spec fn step(p: Phase, b: u8) -> Step {
    match p {
        Phase::WaitStart => if b == START_BYTE {
            Step::Next(Phase::WaitLength)
        } else if b == 0 {
            Step::DeviceOff
        } else {
            Step::Malformed("failed to get first byte. got "@ + upper_hex(b))
        },
        Phase::WaitLength => Step::Next(Phase::WaitBody(b as nat, Seq::empty())),
        Phase::WaitBody(len, buf) => if len <= buf.len() + 1 + 3 {
            Step::Next(Phase::WaitChecksum(buf.push(b), 0))
        } else {
            Step::Next(Phase::WaitBody(len, buf.push(b)))
        },
        Phase::WaitChecksum(buf, n) => if CHECKSUM_LENGTH <= n + 1 {
            Step::Next(Phase::WaitEnd(buf))
        } else {
            Step::Next(Phase::WaitChecksum(buf, n + 1))
        },
        Phase::WaitEnd(buf) => if b == END_BYTE {
            Step::Next(Phase::End(buf))
        } else {
            Step::Malformed("unexpected packet byte "@ + upper_hex(b))
        },
        Phase::End(_) => Step::Malformed("unexpected packet byte "@ + upper_hex(b)),
    }
}

/// The bounds that every phase the framer can reach keeps: a declared length
/// is a byte, a payload holds between 1 and 252 bytes, and at most one
/// checksum byte has been seen while more are awaited.
pub open spec fn phase_wf(p: Phase) -> bool {
    match p {
        Phase::WaitStart => true,
        Phase::WaitLength => true,
        Phase::WaitBody(len, buf) => len <= 255 && (buf.len() == 0 || buf.len() + 3 < len),
        Phase::WaitChecksum(buf, n) => 1 <= buf.len() <= 252 && n < CHECKSUM_LENGTH,
        Phase::WaitEnd(buf) => 1 <= buf.len() <= 252,
        Phase::End(buf) => 1 <= buf.len() <= 252,
    }
}

/// Whether `r` is what `update_state` owes for the step `s`.
pub open spec fn update_matches(r: Result<ParserState, Error>, s: Step) -> bool {
    match s {
        Step::Next(p) => r is Ok && r->Ok_0@ == p,
        Step::DeviceOff => r is Err && r->Err_0 is DeviceTurnedOffError,
        Step::Malformed(text) => r is Err && match r->Err_0 {
            Error::MalformedPacketError(t) => t@ == text,
            _ => false,
        },
    }
}

/// One step keeps the bounds of `phase_wf`.
pub proof fn lemma_step_wf(p: Phase, b: u8)
    requires
        phase_wf(p),
    ensures
        step(p, b) is Next ==> phase_wf(step(p, b)->Next_0),
{
}

/// What the framer hands back once a frame ends or fails.
pub ghost enum Outcome {
    /// A whole frame: its payload.
    Packet(Seq<u8>),
    /// A zero byte on an idle line.
    DeviceOff,
    /// A byte that could not stand where it was read; the message.
    Malformed(Seq<char>),
}

/// The framer run over a sequence of bytes.
pub ghost enum Run {
    /// An outcome, after that many bytes.
    Done(Outcome, nat),
    /// The bytes ran out first; the phase reached.
    Pending(Phase),
}

/// A run that started `k` bytes earlier.
pub open spec fn after(r: Run, k: nat) -> Run {
    match r {
        Run::Done(o, n) => Run::Done(o, n + k),
        Run::Pending(p) => Run::Pending(p),
    }
}

/// The framer fed `input` byte by byte from phase `p`, up to the first frame
/// or failure.
pub open spec fn run(p: Phase, input: Seq<u8>) -> Run
    decreases input.len(),
{
    if input.len() == 0 {
        Run::Pending(p)
    } else {
        match step(p, input[0]) {
            Step::Next(q) => match q {
                Phase::End(body) => Run::Done(Outcome::Packet(body), 1),
                _ => after(run(q, input.drop_first()), 1),
            },
            Step::DeviceOff => Run::Done(Outcome::DeviceOff, 1),
            Step::Malformed(text) => Run::Done(Outcome::Malformed(text), 1),
        }
    }
}

/// Whether `r` is the result that stands for outcome `o`.
pub open spec fn outcome_matches(r: Result<Vec<u8>, Error>, o: Outcome) -> bool {
    match o {
        Outcome::Packet(body) => r is Ok && r->Ok_0@ == body,
        Outcome::DeviceOff => r is Err && r->Err_0 is DeviceTurnedOffError,
        Outcome::Malformed(text) => r is Err && match r->Err_0 {
            Error::MalformedPacketError(t) => t@ == text,
            _ => false,
        },
    }
}

/// Whether feeding byte `b` in phase `p` may return `r` and leave phase `q`:
/// a frame that ends or fails is returned and the machine goes idle, any
/// other step returns nothing.
pub open spec fn feed_matches(p: Phase, b: u8, r: Option<Result<Vec<u8>, Error>>, q: Phase) -> bool {
    match step(p, b) {
        Step::Next(next) => match next {
            Phase::End(body) => r is Some && outcome_matches(r->Some_0, Outcome::Packet(body))
                && q == Phase::WaitStart,
            _ => r is None && q == next,
        },
        Step::DeviceOff => r is Some && outcome_matches(r->Some_0, Outcome::DeviceOff) && q
            == Phase::WaitStart,
        Step::Malformed(text) => r is Some && outcome_matches(r->Some_0, Outcome::Malformed(text))
            && q == Phase::WaitStart,
    }
}

/// What one read of a one-byte buffer brought.
pub enum ReadEvent {
    /// The reader filled this many bytes; the first byte of the buffer.
    Filled(usize, u8),
    /// The read timed out.
    TimedOut,
    /// The read failed otherwise.
    Failed(std::io::Error),
}

/// The framing state machine. It keeps its phase between calls, so a frame
/// may arrive over many bytes.
pub struct Framer {
    state: ParserState,
}

impl Framer {
    /// The phase of the state machine.
    pub closed spec fn phase(&self) -> Phase {
        self.state@
    }

    /// The phase keeps its bounds, and a finished frame is never kept.
    #[verifier::type_invariant]
    closed spec fn wf(&self) -> bool {
        phase_wf(self.state@) && !(self.state@ is End)
    }

    /// An idle framer.
    pub fn new() -> (r: Self)
        ensures
            r.phase() == Phase::WaitStart,
    {
        Framer { state: ParserState::WaitStart }
    }

    /// The transition of the framer on one byte, on states.
    pub fn update_state(current: ParserState, byte: u8) -> (r: Result<ParserState, Error>)
        requires
            phase_wf(current@),
        ensures
            update_matches(r, step(current@, byte)),
    {
        match current {
            ParserState::WaitStart => {
                if byte == START_BYTE {
                    Ok(ParserState::WaitLength)
                } else if byte == 0 {
                    Err(Error::DeviceTurnedOffError)
                } else {
                    Err(Error::MalformedPacketError(with_hex("failed to get first byte. got ", byte)))
                }
            },
            ParserState::WaitLength => Ok(ParserState::WaitBody(byte as usize, Vec::new())),
            ParserState::WaitBody(len, buf) => {
                let mut buf = buf;
                buf.push(byte);
                if len <= buf.len() + 3 {
                    Ok(ParserState::WaitChecksum(buf, 0))
                } else {
                    Ok(ParserState::WaitBody(len, buf))
                }
            },
            ParserState::WaitChecksum(body, n) => {
                let n = n + 1;
                if CHECKSUM_LENGTH <= n {
                    Ok(ParserState::WaitEnd(body))
                } else {
                    Ok(ParserState::WaitChecksum(body, n))
                }
            },
            ParserState::WaitEnd(buf) => {
                if byte == END_BYTE {
                    Ok(ParserState::End(buf))
                } else {
                    Err(Error::MalformedPacketError(with_hex("unexpected packet byte ", byte)))
                }
            },
            ParserState::End(_) => {
                Err(Error::MalformedPacketError(with_hex("unexpected packet byte ", byte)))
            },
        }
    }

    /// Feeds one byte to the state machine. Returns the payload when the byte
    /// ends a frame, the failure when it breaks one, and nothing otherwise.
    pub fn push_byte(&mut self, byte: u8) -> (r: Option<Result<Vec<u8>, Error>>)
        ensures
            feed_matches(old(self).phase(), byte, r, final(self).phase()),
            phase_wf(final(self).phase()),
    {
        proof {
            use_type_invariant(&*self);
        }
        let mut current = ParserState::WaitStart;
        core::mem::swap(&mut current, &mut self.state);
        proof {
            lemma_step_wf(current@, byte);
        }
        match Self::update_state(current, byte) {
            Ok(ParserState::End(body)) => Some(Ok(body)),
            Ok(next) => {
                self.state = next;
                None
            },
            Err(e) => Some(Err(e)),
        }
    }
}

/// A framer over a byte reader.
pub struct FlexiConnection<R> {
    connection: R,
    framer: Framer,
}

impl<R> FlexiConnection<R> {
    /// The phase of the state machine.
    pub closed spec fn phase(&self) -> Phase {
        self.framer.phase()
    }

    /// The reader.
    pub closed spec fn reader(&self) -> R {
        self.connection
    }

    /// A framer over `read`, idle.
    pub fn new(read: R) -> (r: Self)
        ensures
            r.phase() == Phase::WaitStart,
            r.reader() == read,
            phase_wf(r.phase()),
    {
        FlexiConnection { connection: read, framer: Framer::new() }
    }

    /// Feeds one byte to the state machine. Returns the payload when the byte
    /// ends a frame, the failure when it breaks one, and nothing otherwise.
    pub fn push_byte(&mut self, byte: u8) -> (r: Option<Result<Vec<u8>, Error>>)
        ensures
            final(self).reader() == old(self).reader(),
            feed_matches(old(self).phase(), byte, r, final(self).phase()),
            phase_wf(final(self).phase()),
    {
        self.framer.push_byte(byte)
    }

    /// Handles the result of one read of a one-byte buffer. A read that
    /// brings no byte, or times out, changes nothing; a read that claims more
    /// than one byte, or fails, is reported, and a frame in progress is kept
    /// so that the next reads can finish it.
    pub fn handle_read(&mut self, event: ReadEvent) -> (r: Option<Result<Vec<u8>, Error>>)
        ensures
            final(self).reader() == old(self).reader(),
            phase_wf(final(self).phase()),
            match event {
                ReadEvent::Filled(count, b) => if count == 0 {
                    r is None && final(self).phase() == old(self).phase()
                } else if count == 1 {
                    feed_matches(old(self).phase(), b, r, final(self).phase())
                } else {
                    &&& final(self).phase() == old(self).phase()
                    &&& r is Some && r->Some_0 is Err
                    &&& match r->Some_0->Err_0 {
                        Error::UnknownError(t) => t@ == "invalid read length: "@ + decimal(count as nat),
                        _ => false,
                    }
                },
                ReadEvent::TimedOut => r is None && final(self).phase() == old(self).phase(),
                ReadEvent::Failed(e) => {
                    &&& final(self).phase() == old(self).phase()
                    &&& r == Some(Err::<Vec<u8>, Error>(Error::IoError(e)))
                },
            },
    {
        proof {
            use_type_invariant(&self.framer);
        }
        match event {
            ReadEvent::Filled(count, b) => {
                if count == 0 {
                    None
                } else if count == 1 {
                    self.push_byte(b)
                } else {
                    Some(Err(Error::UnknownError(with_decimal("invalid read length: ", count))))
                }
            },
            ReadEvent::TimedOut => None,
            ReadEvent::Failed(e) => {
                Some(Err(Error::IoError(e)))
            },
        }
    }

    /// The reader, to read from; the phase is left as it is.
    pub fn reader_mut(&mut self) -> (r: &mut R)
        ensures
            *r == old(self).reader(),
            final(self).reader() == *final(r),
            final(self).phase() == old(self).phase(),
    {
        &mut self.connection
    }
}

impl<'a> FlexiConnection<&'a [u8]> {
    /// Reads bytes from the slice until a frame ends or fails, and returns its
    /// payload or the failure; a frame whose length byte is below 4 gives a
    /// payload of one byte. The slice must hold that many bytes: read further,
    /// an empty slice would bring no byte for ever.
    pub fn read_packet(&mut self) -> (r: Result<Vec<u8>, Error>)
        requires
            run(old(self).phase(), old(self).reader()@) is Done,
        ensures
            final(self).phase() == Phase::WaitStart,
            phase_wf(final(self).phase()),
            match run(old(self).phase(), old(self).reader()@) {
                Run::Done(o, n) => {
                    &&& outcome_matches(r, o)
                    &&& final(self).reader()@ == old(self).reader()@.skip(n as int)
                },
                Run::Pending(_) => false,
            },
    {
        let ghost p0 = self.phase();
        let ghost in0 = self.connection@;
        let ghost mut used: int = 0;
        loop
            invariant
                p0 == old(self).phase(),
                in0 == old(self).reader()@,
                0 <= used <= in0.len(),
                self.connection@ == in0.skip(used),
                run(p0, in0) is Done,
                run(p0, in0) == after(run(self.phase(), self.connection@), used as nat),
            decreases self.connection@.len(),
        {
            let ghost p = self.phase();
            let ghost input = self.connection@;
            let len = self.connection.len();
            if len == 0 {
                proof {
                    assert(run(p, input) is Pending);
                }
                assert(false);
            }
            let b = self.connection[0];
            assert(b == input[0]);
            self.connection = vstd::slice::slice_subrange(self.connection, 1, len);
            proof {
                assert(self.connection@ =~= input.drop_first());
                assert(self.connection@ =~= in0.skip(used + 1));
            }
            match self.push_byte(b) {
                Some(res) => {
                    proof {
                        assert(run(p, input) is Done);
                        assert(run(p, input)->Done_1 == 1);
                    }
                    return res;
                },
                None => {},
            }
            proof {
                used = used + 1;
            }
        }
    }
}

/// A payload that the framer returns holds between 1 and 252 bytes. Every
/// phase that a connection is left in keeps `phase_wf`, so this holds of the
/// next payload of any connection, whatever it read before.
pub proof fn lemma_payload_length(p: Phase, input: Seq<u8>)
    requires
        phase_wf(p),
        run(p, input) is Done,
        run(p, input)->Done_0 is Packet,
    ensures
        1 <= run(p, input)->Done_0->Packet_0.len() <= 252,
    decreases input.len(),
{
    lemma_step_wf(p, input[0]);
    if let Step::Next(q) = step(p, input[0]) {
        if !(q is End) {
            lemma_payload_length(q, input.drop_first());
        }
    }
}

/// Zero bytes give `DeviceOff` only on an idle line: a run that ends in it
/// started idle, and the zero byte was the first byte it read.
pub proof fn lemma_device_off_only_idle(p: Phase, input: Seq<u8>)
    requires
        run(p, input) is Done,
        run(p, input)->Done_0 is DeviceOff,
    ensures
        p is WaitStart,
        input[0] == 0,
        run(p, input)->Done_1 == 1,
    decreases input.len(),
{
    if let Step::Next(q) = step(p, input[0]) {
        if !(q is End) {
            lemma_device_off_only_idle(q, input.drop_first());
        }
    }
}

/// The bytes that a series of reads brought; `None` stands for a read that
/// brought no byte or timed out.
pub open spec fn bytes_read(reads: Seq<Option<u8>>) -> Seq<u8>
    decreases reads.len(),
{
    if reads.len() == 0 {
        Seq::empty()
    } else {
        match reads[0] {
            Some(b) => seq![b] + bytes_read(reads.drop_first()),
            None => bytes_read(reads.drop_first()),
        }
    }
}

/// What `handle_read` returns first over a series of reads from phase `p`:
/// a read with no byte leaves the phase, a read of one byte steps the
/// machine, as its contract states.
pub open spec fn run_reads(p: Phase, reads: Seq<Option<u8>>) -> Option<Outcome>
    decreases reads.len(),
{
    if reads.len() == 0 {
        None
    } else {
        match reads[0] {
            None => run_reads(p, reads.drop_first()),
            Some(b) => match step(p, b) {
                Step::Next(q) => match q {
                    Phase::End(body) => Some(Outcome::Packet(body)),
                    _ => run_reads(q, reads.drop_first()),
                },
                Step::DeviceOff => Some(Outcome::DeviceOff),
                Step::Malformed(text) => Some(Outcome::Malformed(text)),
            },
        }
    }
}

/// The outcome of a run, if it ended.
pub open spec fn outcome_of(r: Run) -> Option<Outcome> {
    match r {
        Run::Done(o, _) => Some(o),
        Run::Pending(_) => None,
    }
}

/// Reads that bring no byte, and timeouts, change nothing: a frame delivered
/// one byte per read with such reads among them gives what the same bytes
/// give in one block.
pub proof fn lemma_empty_reads_ignored(p: Phase, reads: Seq<Option<u8>>)
    ensures
        run_reads(p, reads) == outcome_of(run(p, bytes_read(reads))),
    decreases reads.len(),
{
    if reads.len() > 0 {
        let rest = reads.drop_first();
        lemma_empty_reads_ignored(p, rest);
        if let Some(b) = reads[0] {
            let bytes = bytes_read(reads);
            assert(bytes[0] == b);
            assert(bytes.drop_first() =~= bytes_read(rest));
            if let Step::Next(q) = step(p, b) {
                if !(q is End) {
                    lemma_empty_reads_ignored(q, rest);
                }
            }
        }
    }
}

/// A run that ends has read at least one byte, and no more than it was given.
pub proof fn lemma_run_length(p: Phase, input: Seq<u8>)
    requires
        run(p, input) is Done,
    ensures
        1 <= run(p, input)->Done_1 <= input.len(),
    decreases input.len(),
{
    if let Step::Next(q) = step(p, input[0]) {
        if !(q is End) {
            lemma_run_length(q, input.drop_first());
        }
    }
}

/// From the payload stage of a frame with declared length `len >= 4`, the
/// framer returns the rest of a `len - 3` byte payload after reading the rest
/// of the payload, two checksum bytes and the end byte.
proof fn lemma_body_run(len: nat, buf: Seq<u8>, input: Seq<u8>)
    requires
        4 <= len <= 255,
        buf.len() + 3 < len,
        run(Phase::WaitBody(len, buf), input) is Done,
        run(Phase::WaitBody(len, buf), input)->Done_0 is Packet,
    ensures
        run(Phase::WaitBody(len, buf), input)->Done_1 == len - buf.len(),
        input.len() >= len - buf.len(),
        run(Phase::WaitBody(len, buf), input)->Done_0->Packet_0 == buf + input.take(
            len - 3 - buf.len(),
        ),
    decreases len - buf.len(),
{
    let p = Phase::WaitBody(len, buf);
    lemma_run_length(p, input);
    let nb = buf.push(input[0]);
    let rest = input.drop_first();
    if len <= nb.len() + 3 {
        let r1 = rest.drop_first();
        let r2 = r1.drop_first();
        assert(run(p, input) == after(run(Phase::WaitChecksum(nb, 0), rest), 1));
        assert(run(Phase::WaitChecksum(nb, 0), rest) == after(run(Phase::WaitChecksum(nb, 1), r1), 1));
        assert(run(Phase::WaitChecksum(nb, 1), r1) == after(run(Phase::WaitEnd(nb), r2), 1));
        assert(r2.len() > 0);
        assert(nb =~= buf + input.take(len - 3 - buf.len()));
    } else {
        assert(run(p, input) == after(run(Phase::WaitBody(len, nb), rest), 1));
        lemma_body_run(len, nb, rest);
        assert(nb + rest.take(len - 3 - nb.len()) =~= buf + input.take(len - 3 - buf.len()));
    }
}

/// An idle framer that reads a frame whose length byte `L` is at least 4
/// consumes exactly `L + 2` bytes, and returns the `L - 3` bytes that follow
/// the length byte.
pub proof fn lemma_frame_consumption(input: Seq<u8>)
    requires
        run(Phase::WaitStart, input) is Done,
        run(Phase::WaitStart, input)->Done_0 is Packet,
        input.len() >= 2 && input[1] >= 4,
    ensures
        input.len() >= input[1] + 2,
        run(Phase::WaitStart, input)->Done_1 == input[1] + 2,
        run(Phase::WaitStart, input)->Done_0->Packet_0 == input.subrange(2, input[1] - 1),
{
    let len = input[1] as nat;
    let r1 = input.drop_first();
    let r2 = r1.drop_first();
    assert(run(Phase::WaitStart, input) == after(run(Phase::WaitLength, r1), 1));
    assert(run(Phase::WaitLength, r1) == after(run(Phase::WaitBody(len, Seq::empty()), r2), 1));
    lemma_body_run(len, Seq::empty(), r2);
    assert(Seq::<u8>::empty() + r2.take(len - 3) =~= input.subrange(2, input[1] - 1));
}

} // verus!
