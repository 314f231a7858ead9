//! The wire format of one frame: the magic bytes, the length of the payload
//! as eight little-endian bytes, then the payload.

use std::marker::PhantomData;
use vstd::prelude::*;

verus! {

/// Number of bytes that the length field of a frame takes on the wire.
pub const LENGTH_BYTES: usize = 8;

/// `256^n`.
pub open spec fn pow256(n: nat) -> nat
    decreases n,
{
    if n == 0 {
        1
    } else {
        256 * pow256((n - 1) as nat)
    }
}

/// The number that a little-endian byte sequence stands for: the first byte
/// is the least significant.
pub open spec fn le_value(bytes: Seq<u8>) -> nat
    decreases bytes.len(),
{
    if bytes.len() == 0 {
        0
    } else {
        bytes[0] as nat + 256 * le_value(bytes.skip(1))
    }
}

/// The `width` low-order bytes of `value`, least significant first.
pub open spec fn le_bytes(value: nat, width: nat) -> Seq<u8>
    decreases width,
{
    if width == 0 {
        Seq::empty()
    } else {
        seq![(value % 256) as u8] + le_bytes(value / 256, (width - 1) as nat)
    }
}

/// Length of a frame's header: the magic bytes and the length field.
pub open spec fn header_len(magic: Seq<u8>) -> nat {
    magic.len() + LENGTH_BYTES as nat
}

/// The header that announces a payload of `len` bytes.
pub open spec fn header_spec(magic: Seq<u8>, len: nat) -> Seq<u8> {
    magic + le_bytes(len, LENGTH_BYTES as nat)
}

/// The frame that carries `payload`.
pub open spec fn frame_spec(magic: Seq<u8>, payload: Seq<u8>) -> Seq<u8> {
    header_spec(magic, payload.len()) + payload
}

/// `bytes` begins with the magic bytes.
pub open spec fn magic_matches(magic: Seq<u8>, bytes: Seq<u8>) -> bool {
    magic.len() <= bytes.len() && bytes.subrange(0, magic.len() as int) == magic
}

/// The payload length that the header at the start of `bytes` declares.
pub open spec fn declared_len(magic: Seq<u8>, bytes: Seq<u8>) -> nat {
    le_value(bytes.subrange(magic.len() as int, header_len(magic) as int))
}

/// Why a header was refused.
#[derive(Debug, Clone, Copy, PartialEq, Eq, Structural)]
pub enum ParseHeaderError {
    /// Fewer bytes than a header has.
    NotEnoughBytes,
    /// The bytes do not begin with the magic bytes.
    MagicBytesMissing,
    /// The declared length does not fit in `usize`.
    PacketTooLarge,
}

/// What reading a header from the start of `bytes` gives. The checks come in
/// this order: the length of `bytes`, the magic bytes, the size of the
/// declared length. Bytes after the header are not looked at.
pub open spec fn parse_header_spec(magic: Seq<u8>, bytes: Seq<u8>) -> Result<
    usize,
    ParseHeaderError,
> {
    if bytes.len() < header_len(magic) {
        Err(ParseHeaderError::NotEnoughBytes)
    } else if !magic_matches(magic, bytes) {
        Err(ParseHeaderError::MagicBytesMissing)
    } else if declared_len(magic, bytes) > usize::MAX {
        Err(ParseHeaderError::PacketTooLarge)
    } else {
        Ok(declared_len(magic, bytes) as usize)
    }
}

/// Eight bytes hold exactly the numbers below `2^64`.
pub proof fn lemma_pow256_eight()
    ensures
        pow256(8) == 0x1_0000_0000_0000_0000,
{
    reveal_with_fuel(pow256, 9);
}

/// `le_bytes` gives as many bytes as asked for.
pub proof fn lemma_le_bytes_len(value: nat, width: nat)
    ensures
        le_bytes(value, width).len() == width,
    decreases width,
{
    if width > 0 {
        lemma_le_bytes_len(value / 256, (width - 1) as nat);
    }
}

/// A sequence of `n` bytes stands for a number below `256^n`.
pub proof fn lemma_le_value_bound(bytes: Seq<u8>)
    ensures
        le_value(bytes) < pow256(bytes.len()),
    decreases bytes.len(),
{
    if bytes.len() > 0 {
        lemma_le_value_bound(bytes.skip(1));
    }
}

/// Writing a number that fits in `width` bytes and reading it back gives the
/// number.
pub proof fn lemma_le_value_of_bytes(value: nat, width: nat)
    requires
        value < pow256(width),
    ensures
        le_value(le_bytes(value, width)) == value,
    decreases width,
{
    if width > 0 {
        let rest = le_bytes(value / 256, (width - 1) as nat);
        let all = le_bytes(value, width);
        lemma_le_value_of_bytes(value / 256, (width - 1) as nat);
        assert(all.skip(1) =~= rest);
        assert(all[0] == (value % 256) as u8);
    }
}

/// Reading bytes as a number and writing it back in the same width gives the
/// bytes.
pub proof fn lemma_le_bytes_of_value(bytes: Seq<u8>)
    ensures
        le_bytes(le_value(bytes), bytes.len()) == bytes,
    decreases bytes.len(),
{
    if bytes.len() > 0 {
        let value = le_value(bytes);
        let tail = bytes.skip(1);
        lemma_le_bytes_of_value(tail);
        assert(value % 256 == bytes[0] as nat);
        assert(value / 256 == le_value(tail));
        assert(le_bytes(value, bytes.len()) =~= bytes);
    } else {
        assert(le_bytes(le_value(bytes), bytes.len()) =~= bytes);
    }
}

/// The eight little-endian bytes of `value`.
pub fn u64_to_le_bytes(value: u64) -> (bytes: Vec<u8>)
    ensures
        bytes@ == le_bytes(value as nat, LENGTH_BYTES as nat),
{
    let mut bytes: Vec<u8> = Vec::new();
    let mut rest: u64 = value;
    let mut i: usize = 0;
    while i < LENGTH_BYTES
        invariant
            i <= LENGTH_BYTES,
            bytes@.len() == i,
            bytes@ + le_bytes(rest as nat, (LENGTH_BYTES - i) as nat) == le_bytes(
                value as nat,
                LENGTH_BYTES as nat,
            ),
        decreases LENGTH_BYTES - i,
    {
        let low: u8 = (rest % 256) as u8;
        proof {
            let tail = le_bytes((rest / 256) as nat, (LENGTH_BYTES - i - 1) as nat);
            assert(le_bytes(rest as nat, (LENGTH_BYTES - i) as nat) == seq![low] + tail);
            assert(bytes@.push(low) + tail =~= bytes@ + (seq![low] + tail));
        }
        bytes.push(low);
        rest = rest / 256;
        i = i + 1;
    }
    assert(bytes@ + le_bytes(rest as nat, 0) =~= bytes@);
    bytes
}

/// The number that the eight bytes of `bytes` from `start` on stand for.
pub fn u64_from_le_bytes(bytes: &[u8], start: usize) -> (value: u64)
    requires
        start + LENGTH_BYTES <= bytes@.len(),
    ensures
        value == le_value(bytes@.subrange(start as int, start + LENGTH_BYTES)),
{
    let ghost field = bytes@.subrange(start as int, start + LENGTH_BYTES);
    let total = bytes.len();
    let mut value: u64 = 0;
    let mut i: usize = LENGTH_BYTES;
    assert(le_value(field.skip(8)) == 0);
    while i > 0
        invariant
            i <= LENGTH_BYTES,
            start + LENGTH_BYTES <= total,
            total == bytes@.len(),
            field == bytes@.subrange(start as int, start + LENGTH_BYTES),
            value == le_value(field.skip(i as int)),
        decreases i,
    {
        i = i - 1;
        let byte: u8 = bytes[start + i];
        proof {
            let here = field.skip(i as int);
            let after = field.skip(i + 1);
            assert(here[0] == byte);
            assert(here.skip(1) =~= after);
            lemma_le_value_bound(after);
            lemma_le_value_bound(here);
            lemma_pow256_eight();
            lemma_pow256_monotonic(here.len(), 8);
        }
        value = value * 256 + byte as u64;
    }
    assert(field.skip(0) =~= field);
    value
}

/// `256^n` grows with `n`.
pub proof fn lemma_pow256_monotonic(low: nat, high: nat)
    requires
        low <= high,
    ensures
        pow256(low) <= pow256(high),
        pow256(low) > 0,
    decreases high,
{
    if low < high {
        lemma_pow256_monotonic(low, (high - 1) as nat);
    } else if low > 0 {
        lemma_pow256_monotonic((low - 1) as nat, (high - 1) as nat);
    }
}

/// Length of the header for these magic bytes.
pub fn header_length(magic: &[u8]) -> (len: usize)
    requires
        header_len(magic@) <= usize::MAX,
    ensures
        len == header_len(magic@),
{
    magic.len() + LENGTH_BYTES
}

/// The header that announces a payload of `len` bytes: the magic bytes, then
/// `len` in eight bytes.
fn write_header(magic: &[u8], len: usize) -> (header: Vec<u8>)
    ensures
        header@ == header_spec(magic@, len as nat),
{
    let mut header: Vec<u8> = Vec::new();
    header.extend_from_slice(magic);
    assert(header@ =~= magic@);
    let mut length = u64_to_le_bytes(len as u64);
    header.append(&mut length);
    header
}

/// The header for `data`: the magic bytes, then the length of `data`.
pub fn gen_header(magic: &[u8], data: &[u8]) -> (header: Vec<u8>)
    ensures
        header@ == header_spec(magic@, data@.len()),
{
    write_header(magic, data.len())
}

/// The frame that carries `data`.
pub fn make_packet(magic: &[u8], data: Vec<u8>) -> (packet: Vec<u8>)
    ensures
        packet@ == frame_spec(magic@, data@),
{
    let mut packet = gen_header(magic, data.as_slice());
    let mut payload = data;
    packet.append(&mut payload);
    packet
}

/// Reads the header at the start of `bytes` and gives the payload length that
/// it declares.
pub fn parse_header(magic: &[u8], bytes: &[u8]) -> (parsed: Result<usize, ParseHeaderError>)
    requires
        header_len(magic@) <= usize::MAX,
    ensures
        parsed == parse_header_spec(magic@, bytes@),
{
    let header = header_length(magic);
    if bytes.len() < header {
        return Err(ParseHeaderError::NotEnoughBytes);
    }
    let mut i: usize = 0;
    while i < magic.len()
        invariant
            i <= magic@.len(),
            header_len(magic@) <= bytes@.len(),
            forall|j: int| 0 <= j < i ==> magic@[j] == bytes@[j],
        decreases magic@.len() - i,
    {
        if magic[i] != bytes[i] {
            assert(bytes@.subrange(0, magic@.len() as int)[i as int] != magic@[i as int]);
            return Err(ParseHeaderError::MagicBytesMissing);
        }
        i = i + 1;
    }
    assert(bytes@.subrange(0, magic@.len() as int) =~= magic@);
    let len = u64_from_le_bytes(bytes, magic.len());
    if len > usize::MAX as u64 {
        return Err(ParseHeaderError::PacketTooLarge);
    }
    Ok(len as usize)
}

/// A header read from one that `gen_header` wrote declares the length that
/// was written, whatever follows the header.
pub proof fn lemma_header_round_trip(magic: Seq<u8>, len: usize, rest: Seq<u8>)
    ensures
        parse_header_spec(magic, header_spec(magic, len as nat) + rest) == Ok::<
            usize,
            ParseHeaderError,
        >(len),
{
    let header = header_spec(magic, len as nat);
    let bytes = header + rest;
    let field = le_bytes(len as nat, LENGTH_BYTES as nat);
    lemma_le_bytes_len(len as nat, LENGTH_BYTES as nat);
    lemma_pow256_eight();
    lemma_le_value_of_bytes(len as nat, LENGTH_BYTES as nat);
    assert(bytes.subrange(0, magic.len() as int) =~= magic);
    assert(bytes.subrange(magic.len() as int, header_len(magic) as int) =~= field);
}

/// A header that is accepted is the very header that `gen_header` writes for
/// the length that it declares: no two headers declare the same length.
pub proof fn lemma_header_unique(magic: Seq<u8>, bytes: Seq<u8>)
    requires
        bytes.len() == header_len(magic),
        parse_header_spec(magic, bytes) is Ok,
    ensures
        bytes == header_spec(magic, parse_header_spec(magic, bytes)->Ok_0 as nat),
{
    let field = bytes.subrange(magic.len() as int, header_len(magic) as int);
    lemma_le_bytes_of_value(field);
    assert(bytes =~= bytes.subrange(0, magic.len() as int) + field);
}

/// Taking a frame apart gives back what it was made of: its header declares
/// the payload's length, and the bytes after the header are the payload.
pub proof fn lemma_frame_round_trip(magic: Seq<u8>, payload: Seq<u8>)
    requires
        payload.len() <= usize::MAX,
    ensures
        frame_spec(magic, payload).len() == header_len(magic) + payload.len(),
        parse_header_spec(magic, frame_spec(magic, payload).take(header_len(magic) as int)) == Ok::<
            usize,
            ParseHeaderError,
        >(payload.len() as usize),
        frame_spec(magic, payload).skip(header_len(magic) as int) == payload,
{
    let header = header_spec(magic, payload.len());
    let frame = frame_spec(magic, payload);
    lemma_le_bytes_len(payload.len(), LENGTH_BYTES as nat);
    assert(frame.take(header_len(magic) as int) =~= header + Seq::<u8>::empty());
    lemma_header_round_trip(magic, payload.len() as usize, Seq::empty());
    assert(frame.skip(header_len(magic) as int) =~= payload);
}

/// Bytes that are long enough for a header and do not begin with the magic
/// bytes are refused for that reason, whatever else they hold.
pub proof fn lemma_header_integrity(magic: Seq<u8>, bytes: Seq<u8>)
    requires
        bytes.len() >= header_len(magic),
        bytes.subrange(0, magic.len() as int) != magic,
    ensures
        parse_header_spec(magic, bytes) == Err::<usize, ParseHeaderError>(
            ParseHeaderError::MagicBytesMissing,
        ),
{
}

/// Two payloads with the same frame are the same payload.
pub proof fn lemma_frame_injective(magic: Seq<u8>, first: Seq<u8>, second: Seq<u8>)
    requires
        frame_spec(magic, first) == frame_spec(magic, second),
    ensures
        first == second,
{
    let n = header_len(magic) as int;
    lemma_le_bytes_len(first.len(), LENGTH_BYTES as nat);
    lemma_le_bytes_len(second.len(), LENGTH_BYTES as nat);
    assert(frame_spec(magic, first).skip(n) =~= first);
    assert(frame_spec(magic, second).skip(n) =~= second);
}

/// The magic bytes of a protocol, fixed by a type.
pub trait MagicBytes {
    /// The magic bytes, as contracts speak of them.
    spec fn spec_magic_bytes() -> Seq<u8>;

    /// Magic bytes at the beginning of the header to check for correctness.
    /// They never change, and leave room for the length field.
    fn magic_bytes() -> (magic: &'static [u8])
        ensures
            magic@ == Self::spec_magic_bytes(),
            header_len(magic@) <= usize::MAX,
    ;
}

/// The bytes `v010`.
pub const IPC_MAGIC: [u8; 4] = [118, 48, 49, 48];

/// The magic bytes of this version of the protocol.
#[derive(Debug)]
pub struct IpcMagicBytes;

impl MagicBytes for IpcMagicBytes {
    open spec fn spec_magic_bytes() -> Seq<u8> {
        seq![118u8, 48u8, 49u8, 48u8]
    }

    fn magic_bytes() -> (magic: &'static [u8]) {
        let magic: &'static [u8] = vstd::array::array_as_slice(&IPC_MAGIC);
        assert(magic@ =~= Self::spec_magic_bytes());
        magic
    }
}

/// The header of a frame whose magic bytes are those of `M`.
#[derive(Debug)]
pub struct Header<M: MagicBytes> {
    len: usize,
    _marker: PhantomData<M>,
}

impl<M: MagicBytes> Header<M> {
    /// The payload length that the header declares.
    pub closed spec fn spec_length(&self) -> nat {
        self.len as nat
    }

    /// The length of the header in bytes
    pub fn header_bytes() -> (len: usize)
        ensures
            len == header_len(M::spec_magic_bytes()),
    {
        header_length(M::magic_bytes())
    }

    /// The length of the data portion of the packet.
    pub fn length(&self) -> (len: usize)
        ensures
            len == self.spec_length(),
    {
        self.len
    }

    /// Create a header given some data
    pub fn create_header(data: &[u8]) -> (header: Self)
        ensures
            header.spec_length() == data@.len(),
    {
        Header { len: data.len(), _marker: PhantomData }
    }

    /// Parse header and check that magic bytes are correct
    pub fn parse_header(bytes: &[u8]) -> (parsed: Result<Self, ParseHeaderError>)
        ensures
            match parse_header_spec(M::spec_magic_bytes(), bytes@) {
                Ok(len) => parsed is Ok && parsed->Ok_0.spec_length() == len,
                Err(e) => parsed is Err && parsed->Err_0 == e,
            },
    {
        match parse_header(M::magic_bytes(), bytes) {
            Ok(len) => Ok(Header { len, _marker: PhantomData }),
            Err(e) => Err(e),
        }
    }

    /// Convert the header to bytes
    pub fn to_bytes(self) -> (bytes: Vec<u8>)
        ensures
            bytes@ == header_spec(M::spec_magic_bytes(), self.spec_length()),
    {
        write_header(M::magic_bytes(), self.len)
    }
}

/// A packet to be sent over a socket
#[derive(Debug)]
pub struct Packet<M: MagicBytes> {
    header: Header<M>,
    bytes: Vec<u8>,
}

impl<M: MagicBytes> Packet<M> {
    /// The payload of the packet.
    pub closed spec fn payload(&self) -> Seq<u8> {
        self.bytes@
    }

    /// The header declares the length of the payload.
    #[verifier::type_invariant]
    spec fn header_agrees(&self) -> bool {
        self.header.spec_length() == self.bytes@.len()
    }

    /// Make a new packet from data
    pub fn new(data: Vec<u8>) -> (packet: Self)
        ensures
            packet.payload() == data@,
    {
        let header = Header::create_header(data.as_slice());
        Packet { header, bytes: data }
    }

    /// Convert packet to bytes
    pub fn to_bytes(self) -> (bytes: Vec<u8>)
        ensures
            bytes@ == frame_spec(M::spec_magic_bytes(), self.payload()),
    {
        proof {
            use_type_invariant(&self);
        }
        let mut bytes = self.header.to_bytes();
        let mut payload = self.bytes;
        bytes.append(&mut payload);
        bytes
    }
}

} // verus!
