//! One end of a connection, without its transport: what to put on the wire
//! for a message, and what to make of the bytes that each read supplies.

use crate::error::ConnectionError;
use crate::packet::{
    frame_spec, header_len, make_packet, parse_header, parse_header_spec, ParseHeaderError,
};
use std::marker::PhantomData;
use vstd::prelude::*;

verus! {

/// A read of exactly `want` bytes, put together from the reads of a stream,
/// each of which supplies what is there: it is complete once `want` bytes
/// have come, or once the stream has ended, which a read shows by supplying
/// nothing.
#[derive(Debug)]
pub struct ExactRead {
    want: usize,
    got: Vec<u8>,
    ended: bool,
}

/// The number of bytes that a read which has `got` of `want` bytes still
/// asks for: none once it is complete.
pub open spec fn remaining_spec(want: usize, got: Seq<u8>, ended: bool) -> nat {
    if ended || got.len() >= want {
        0
    } else {
        (want - got.len()) as nat
    }
}

/// What an exact read has got, and whether the stream has ended, after one
/// more read of the stream has supplied `chunk`. Bytes are put behind those
/// that came before; a read that supplies nothing while bytes are still to
/// come ends the read. A read that is complete takes no more.
pub open spec fn supply_spec(want: usize, got: Seq<u8>, ended: bool, chunk: Seq<u8>) -> (
    Seq<u8>,
    bool,
) {
    if remaining_spec(want, got, ended) == 0 {
        (got, ended)
    } else {
        (got + chunk, chunk.len() == 0)
    }
}

impl ExactRead {
    /// The number of bytes to read.
    pub closed spec fn want(&self) -> usize {
        self.want
    }

    /// The bytes that have come, in the order in which they came.
    pub closed spec fn got(&self) -> Seq<u8> {
        self.got@
    }

    /// The stream has ended before all the bytes had come.
    pub closed spec fn ended(&self) -> bool {
        self.ended
    }

    /// The number of bytes that are still to come.
    pub open spec fn spec_remaining(&self) -> nat {
        remaining_spec(self.want(), self.got(), self.ended())
    }

    /// No more bytes have come than were asked for.
    #[verifier::type_invariant]
    spec fn within_want(&self) -> bool {
        self.got@.len() <= self.want
    }

    /// Begins a read of exactly `want` bytes.
    pub fn new(want: usize) -> (read: Self)
        ensures
            read.want() == want,
            read.got() == Seq::<u8>::empty(),
            !read.ended(),
    {
        ExactRead { want, got: Vec::new(), ended: false }
    }

    /// The number of bytes to ask the stream for next: 0 once the read is
    /// complete.
    pub fn remaining(&self) -> (remaining: usize)
        ensures
            remaining == self.spec_remaining(),
            self.got().len() <= self.want(),
    {
        proof {
            use_type_invariant(self);
        }
        if self.ended || self.got.len() >= self.want {
            0
        } else {
            self.want - self.got.len()
        }
    }

    /// Takes what one read of the stream supplied, which is no more than was
    /// asked for, and gives the read as it then stands.
    pub fn supply(self, chunk: &[u8]) -> (read: Self)
        requires
            chunk@.len() <= self.spec_remaining(),
        ensures
            read.want() == self.want(),
            (read.got(), read.ended()) == supply_spec(
                self.want(),
                self.got(),
                self.ended(),
                chunk@,
            ),
            read.got().len() <= read.want(),
    {
        proof {
            use_type_invariant(&self);
        }
        if self.remaining() == 0 {
            return self;
        }
        let want = self.want;
        let mut got = self.got;
        got.extend_from_slice(chunk);
        assert(got@ =~= self.got@ + chunk@);
        ExactRead { want, got, ended: chunk.len() == 0 }
    }

    /// The bytes that came: what the read reports. They are as many as were
    /// asked for, or fewer if the stream has ended.
    pub fn into_bytes(self) -> (bytes: Vec<u8>)
        ensures
            bytes@ == self.got(),
            bytes@.len() <= self.want(),
    {
        proof {
            use_type_invariant(&self);
        }
        self.got
    }
}

/// Every read of the stream supplied no more than the exact read asked it
/// for at that time.
pub open spec fn chunks_fit(want: usize, chunks: Seq<Seq<u8>>) -> bool
    decreases chunks.len(),
{
    chunks.len() > 0 ==> {
        let (got, ended) = exact_read_spec(want, chunks.drop_last());
        &&& chunks_fit(want, chunks.drop_last())
        &&& chunks.last().len() <= remaining_spec(want, got, ended)
    }
}

/// What an exact read of `want` bytes has got once the stream has supplied
/// `chunks`, one read after the other.
pub open spec fn exact_read_spec(want: usize, chunks: Seq<Seq<u8>>) -> (Seq<u8>, bool)
    decreases chunks.len(),
{
    if chunks.len() == 0 {
        (Seq::empty(), false)
    } else {
        let (got, ended) = exact_read_spec(want, chunks.drop_last());
        supply_spec(want, got, ended, chunks.last())
    }
}

/// An exact read is complete with fewer bytes than were asked for only if
/// the stream has ended, and while bytes are to come it holds all that the
/// stream has supplied, in order. It never holds more bytes than were asked
/// for, as long as no read of the stream supplied more than it was asked
/// for.
pub proof fn lemma_exact_read(want: usize, chunks: Seq<Seq<u8>>)
    ensures
        ({
            let (got, ended) = exact_read_spec(want, chunks);
            &&& got.len() < want && remaining_spec(want, got, ended) == 0 ==> ended
            &&& remaining_spec(want, got, ended) > 0 ==> got == chunks.flatten()
            &&& chunks_fit(want, chunks) ==> got.len() <= want
        }),
    decreases chunks.len(),
{
    if chunks.len() > 0 {
        let before = chunks.drop_last();
        lemma_exact_read(want, before);
        let (got, ended) = exact_read_spec(want, before);
        if remaining_spec(want, got, ended) > 0 {
            assert(chunks =~= before.push(chunks.last()));
            before.lemma_flatten_push(chunks.last());
        }
    } else {
        assert(chunks.flatten() =~= Seq::<u8>::empty());
    }
}

/// How far the receiving of one message has come.
#[derive(Debug, Clone, Copy, PartialEq, Eq, Structural)]
pub enum ReceiveState {
    /// The next read is to supply a header.
    Header,
    /// The header announced a payload of `len` bytes; the next read is to
    /// supply them.
    Payload { len: usize },
}

/// What the transport is to do next for a message that is being received.
#[derive(Debug)]
pub enum ReceiveAction {
    /// Read exactly `len` bytes, blocking, and report what came.
    Read { len: usize },
    /// The frame is complete: decode `payload`.
    Deliver { payload: Vec<u8> },
    /// The message is lost to this error.
    Fail(ConnectionError),
}

/// A `ReceiveAction`, with the payload as a sequence.
pub enum ReceiveOutcome {
    Read { len: usize },
    Deliver { payload: Seq<u8> },
    Fail(ConnectionError),
}

impl View for ReceiveAction {
    type V = ReceiveOutcome;

    open spec fn view(&self) -> ReceiveOutcome {
        match *self {
            ReceiveAction::Read { len } => ReceiveOutcome::Read { len },
            ReceiveAction::Deliver { payload } => ReceiveOutcome::Deliver { payload: payload@ },
            ReceiveAction::Fail(e) => ReceiveOutcome::Fail(e),
        }
    }
}

/// What a read reported: the bytes that it supplied, or its error.
pub open spec fn read_view(read: Result<Vec<u8>, std::io::Error>) -> Result<
    Seq<u8>,
    std::io::Error,
> {
    match read {
        Ok(bytes) => Ok(bytes@),
        Err(e) => Err(e),
    }
}

/// The connection error that stands for a refused header.
pub open spec fn header_error(e: ParseHeaderError) -> ConnectionError {
    match e {
        ParseHeaderError::NotEnoughBytes => ConnectionError::UnexepctedEof,
        ParseHeaderError::PacketTooLarge => ConnectionError::PacketTooLarge,
        ParseHeaderError::MagicBytesMissing => ConnectionError::HeaderMismatch,
    }
}

/// One step of receiving: from the state and what the read reported to the
/// next state and what to do.
///
/// A read that failed gives `ReadFailed`. A read that supplied another number
/// of bytes than was asked for gives `UnexepctedEof`. A full header is
/// checked, and a good one asks for the payload; a full payload is handed
/// over. After `Deliver` and after `Fail` the next read is a header again.
pub open spec fn receive_step(
    magic: Seq<u8>,
    state: ReceiveState,
    read: Result<Seq<u8>, std::io::Error>,
) -> (ReceiveState, ReceiveOutcome) {
    match read {
        Err(e) => (ReceiveState::Header, ReceiveOutcome::Fail(ConnectionError::ReadFailed(e))),
        Ok(bytes) => match state {
            ReceiveState::Header => if bytes.len() != header_len(magic) {
                (ReceiveState::Header, ReceiveOutcome::Fail(ConnectionError::UnexepctedEof))
            } else {
                match parse_header_spec(magic, bytes) {
                    Ok(len) => (ReceiveState::Payload { len }, ReceiveOutcome::Read { len }),
                    Err(e) => (ReceiveState::Header, ReceiveOutcome::Fail(header_error(e))),
                }
            },
            ReceiveState::Payload { len } => if bytes.len() != len {
                (ReceiveState::Header, ReceiveOutcome::Fail(ConnectionError::UnexepctedEof))
            } else {
                (ReceiveState::Header, ReceiveOutcome::Deliver { payload: bytes })
            },
        },
    }
}

/// Represents a connection that can send `T` and receive `R`, apart from the
/// stream that carries the bytes.
#[derive(Debug)]
pub struct Connection<T, R> {
    magic_bytes: Vec<u8>,
    state: ReceiveState,
    _tx: PhantomData<T>,
    _rx: PhantomData<R>,
}

impl<T, R> Connection<T, R> {
    /// The magic bytes that both ends agreed on.
    pub closed spec fn magic(&self) -> Seq<u8> {
        self.magic_bytes@
    }

    /// How far the receiving of the current message has come.
    pub closed spec fn state(&self) -> ReceiveState {
        self.state
    }

    /// A header with these magic bytes has a length that fits in `usize`.
    #[verifier::type_invariant]
    spec fn header_fits(&self) -> bool {
        header_len(self.magic_bytes@) <= usize::MAX
    }

    /// Make a new connection for the given magic bytes.
    pub fn new(magic_bytes: Vec<u8>) -> (connection: Self)
        requires
            header_len(magic_bytes@) <= usize::MAX,
        ensures
            connection.magic() == magic_bytes@,
            connection.state() == ReceiveState::Header,
    {
        Connection { magic_bytes, state: ReceiveState::Header, _tx: PhantomData, _rx: PhantomData }
    }

    /// The frame to write for a message, given what serializing it gave.
    pub fn send(&self, serialized: Result<Vec<u8>, bitcode::Error>) -> (frame: Result<
        Vec<u8>,
        ConnectionError,
    >)
        ensures
            match serialized {
                Ok(payload) => frame is Ok && frame->Ok_0@ == frame_spec(self.magic(), payload@),
                Err(e) => frame is Err && frame->Err_0 == ConnectionError::SerilizationFailed(e),
            },
    {
        match serialized {
            Ok(payload) => Ok(make_packet(self.magic_bytes.as_slice(), payload)),
            Err(e) => Err(ConnectionError::SerilizationFailed(e)),
        }
    }

    /// The result of `send`, given what writing the whole frame gave.
    pub fn sent(&self, written: Result<(), std::io::Error>) -> (result: Result<
        (),
        ConnectionError,
    >)
        ensures
            match written {
                Ok(_) => result is Ok,
                Err(e) => result is Err && result->Err_0 == ConnectionError::WriteFailed(e),
            },
    {
        match written {
            Ok(_) => Ok(()),
            Err(e) => Err(ConnectionError::WriteFailed(e)),
        }
    }

    /// Begins to receive a message: gives the number of bytes of the first
    /// read, which is to supply the header.
    pub fn receive(&mut self) -> (len: usize)
        ensures
            final(self).magic() == old(self).magic(),
            final(self).state() == ReceiveState::Header,
            len == header_len(old(self).magic()),
    {
        proof {
            use_type_invariant(&*self);
        }
        self.state = ReceiveState::Header;
        self.magic_bytes.len() + crate::packet::LENGTH_BYTES
    }

    /// Takes what a read reported and says what to do next.
    pub fn on_read(&mut self, read: Result<Vec<u8>, std::io::Error>) -> (action: ReceiveAction)
        ensures
            final(self).magic() == old(self).magic(),
            (final(self).state(), action@) == receive_step(
                old(self).magic(),
                old(self).state(),
                read_view(read),
            ),
    {
        proof {
            use_type_invariant(&*self);
        }
        let state = self.state;
        self.state = ReceiveState::Header;
        match read {
            Err(e) => ReceiveAction::Fail(ConnectionError::ReadFailed(e)),
            Ok(bytes) => match state {
                ReceiveState::Header => {
                    if bytes.len() != self.magic_bytes.len() + crate::packet::LENGTH_BYTES {
                        return ReceiveAction::Fail(ConnectionError::UnexepctedEof);
                    }
                    match parse_header(self.magic_bytes.as_slice(), bytes.as_slice()) {
                        Ok(len) => {
                            self.state = ReceiveState::Payload { len };
                            ReceiveAction::Read { len }
                        },
                        Err(ParseHeaderError::NotEnoughBytes) => ReceiveAction::Fail(
                            ConnectionError::UnexepctedEof,
                        ),
                        Err(ParseHeaderError::PacketTooLarge) => ReceiveAction::Fail(
                            ConnectionError::PacketTooLarge,
                        ),
                        Err(ParseHeaderError::MagicBytesMissing) => ReceiveAction::Fail(
                            ConnectionError::HeaderMismatch,
                        ),
                    }
                },
                ReceiveState::Payload { len } => {
                    if bytes.len() != len {
                        return ReceiveAction::Fail(ConnectionError::UnexepctedEof);
                    }
                    ReceiveAction::Deliver { payload: bytes }
                },
            },
        }
    }

    /// The result of `receive`, given what decoding the payload gave.
    pub fn received(&self, decoded: Result<R, bitcode::Error>) -> (message: Result<
        R,
        ConnectionError,
    >)
        ensures
            match decoded {
                Ok(m) => message is Ok && message->Ok_0 == m,
                Err(e) => message is Err && message->Err_0
                    == ConnectionError::DeserilizationFailed(e),
            },
    {
        match decoded {
            Ok(m) => Ok(m),
            Err(e) => Err(ConnectionError::DeserilizationFailed(e)),
        }
    }
}

/// A frame that arrives whole is delivered whole: the read of its header asks
/// for as many bytes as the payload has, and the read of those bytes hands
/// the payload over.
pub proof fn lemma_receive_round_trip(magic: Seq<u8>, payload: Seq<u8>)
    requires
        payload.len() <= usize::MAX,
    ensures
        ({
            let frame = frame_spec(magic, payload);
            let split = header_len(magic) as int;
            let len = payload.len() as usize;
            &&& receive_step(magic, ReceiveState::Header, Ok(frame.take(split))) == (
                ReceiveState::Payload { len },
                ReceiveOutcome::Read { len },
            )
            &&& receive_step(magic, ReceiveState::Payload { len }, Ok(frame.skip(split))) == (
                ReceiveState::Header,
                ReceiveOutcome::Deliver { payload },
            )
        }),
{
    crate::packet::lemma_frame_round_trip(magic, payload);
}

/// A header of the right length that does not begin with the magic bytes is
/// a header mismatch, whatever length it declares.
pub proof fn lemma_receive_header_integrity(magic: Seq<u8>, header: Seq<u8>)
    requires
        header.len() == header_len(magic),
        header.subrange(0, magic.len() as int) != magic,
    ensures
        receive_step(magic, ReceiveState::Header, Ok(header)) == (
            ReceiveState::Header,
            ReceiveOutcome::Fail(ConnectionError::HeaderMismatch),
        ),
{
    crate::packet::lemma_header_integrity(magic, header);
}

/// A read that supplies fewer bytes than were asked for ends the message with
/// `UnexepctedEof`: nothing shorter than the declared payload is delivered,
/// and a stream that has ended gives no header.
pub proof fn lemma_receive_truncation(magic: Seq<u8>, len: usize, bytes: Seq<u8>)
    ensures
        bytes.len() < len ==> receive_step(magic, ReceiveState::Payload { len }, Ok(bytes)) == (
            ReceiveState::Header,
            ReceiveOutcome::Fail(ConnectionError::UnexepctedEof),
        ),
        bytes.len() < header_len(magic) ==> receive_step(magic, ReceiveState::Header, Ok(bytes))
            == (ReceiveState::Header, ReceiveOutcome::Fail(ConnectionError::UnexepctedEof)),
        receive_step(magic, ReceiveState::Payload { len }, Ok(bytes)).1 is Deliver ==> bytes.len()
            == len,
{
}

} // verus!
