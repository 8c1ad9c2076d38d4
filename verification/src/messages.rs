//! What travels in front of every payload: the message header, and how it is
//! laid out in bytes.
//!
//! A header takes `HEADER_SIZE` bytes: the kind of the message in the first,
//! then the size of the payload in eight bytes, the least significant first.

use vstd::prelude::*;

verus! {

/// The tag that says what a message is about. The transport moves it and
/// never interprets it.
#[derive(Debug, Clone, Copy, PartialEq, Eq, Structural)]
pub struct Kind(pub u8);

/// The fixed-size record that announces a payload: what it is and how many
/// bytes the receiver must read after it.
#[derive(Debug, Clone, Copy, PartialEq, Eq, Structural)]
pub struct Header {
    pub kind: Kind,
    pub size: usize,
}

/// A message that is wrong in itself, whatever carried it.
#[derive(Debug, Clone, Copy, PartialEq, Eq, Structural)]
pub enum MessageError {
    /// The bytes are no header.
    MalformedHeader,
    /// The payload is not what its header announced.
    MalformedPayload,
}

/// How many bytes the size of the payload takes in a header.
pub const SIZE_BYTES: usize = 8;

/// How many bytes a header takes.
pub const HEADER_SIZE: usize = 9;

/// The first number that `count` bytes cannot hold.
pub open spec fn spec_limit(count: nat) -> nat
    decreases count,
{
    if count == 0 {
        1
    } else {
        256 * spec_limit((count - 1) as nat)
    }
}

/// The `count` low bytes of a number, the least significant first.
pub open spec fn spec_le_bytes(value: nat, count: nat) -> Seq<u8>
    decreases count,
{
    if count == 0 {
        Seq::empty()
    } else {
        seq![(value % 256) as u8] + spec_le_bytes(value / 256, (count - 1) as nat)
    }
}

/// The number that these bytes hold, the least significant first.
pub open spec fn spec_le_value(bytes: Seq<u8>) -> nat
    decreases bytes.len(),
{
    if bytes.len() == 0 {
        0
    } else {
        bytes[0] as nat + 256 * spec_le_value(bytes.drop_first())
    }
}

/// As many bytes come out as were asked for.
pub proof fn lemma_le_bytes_len(value: nat, count: nat)
    ensures
        spec_le_bytes(value, count).len() == count,
    decreases count,
{
    if count > 0 {
        lemma_le_bytes_len(value / 256, (count - 1) as nat);
    }
}

/// What a run of bytes holds is below the limit of its length.
pub proof fn lemma_le_value_bound(bytes: Seq<u8>)
    ensures
        spec_le_value(bytes) < spec_limit(bytes.len()),
    decreases bytes.len(),
{
    if bytes.len() > 0 {
        lemma_le_value_bound(bytes.drop_first());
    }
}

/// A number that fits in `count` bytes is read back from them unchanged.
pub proof fn lemma_le_value_of_bytes(value: nat, count: nat)
    requires
        value < spec_limit(count),
    ensures
        spec_le_value(spec_le_bytes(value, count)) == value,
    decreases count,
{
    if count > 0 {
        let rest = spec_le_bytes(value / 256, (count - 1) as nat);
        let bytes = spec_le_bytes(value, count);
        lemma_le_bytes_len(value / 256, (count - 1) as nat);
        lemma_le_value_of_bytes(value / 256, (count - 1) as nat);
        assert(bytes.drop_first() =~= rest);
        assert(bytes[0] == (value % 256) as u8);
    }
}

/// Bytes are written back unchanged from the number they hold.
pub proof fn lemma_le_bytes_of_value(bytes: Seq<u8>)
    ensures
        spec_le_bytes(spec_le_value(bytes), bytes.len()) == bytes,
    decreases bytes.len(),
{
    if bytes.len() > 0 {
        let rest = bytes.drop_first();
        let value = spec_le_value(bytes);
        lemma_le_bytes_of_value(rest);
        assert(value % 256 == bytes[0] as nat);
        assert(value / 256 == spec_le_value(rest));
        assert(spec_le_bytes(value, bytes.len()) =~= bytes);
    }
}

/// Eight bytes hold exactly the numbers of 64 bits.
pub proof fn lemma_limit_of_size_bytes()
    ensures
        spec_limit(SIZE_BYTES as nat) == 0x1_0000_0000_0000_0000,
{
    reveal_with_fuel(spec_limit, 9);
}

impl Header {
    /// The bytes of this header.
    pub open spec fn spec_encode(&self) -> Seq<u8> {
        seq![self.kind.0] + spec_le_bytes(self.size as nat, SIZE_BYTES as nat)
    }

    /// The header that these bytes are, if they are one: there must be
    /// exactly `HEADER_SIZE` of them, and the size they announce must be one
    /// that this machine can count to.
    pub open spec fn spec_decode(bytes: Seq<u8>) -> Result<Header, MessageError> {
        if bytes.len() != HEADER_SIZE {
            Err(MessageError::MalformedHeader)
        } else if spec_le_value(bytes.subrange(1, HEADER_SIZE as int)) > usize::MAX {
            Err(MessageError::MalformedHeader)
        } else {
            Ok(
                Header {
                    kind: Kind(bytes[0]),
                    size: spec_le_value(bytes.subrange(1, HEADER_SIZE as int)) as usize,
                },
            )
        }
    }

    /// Lays the header out in bytes.
    pub fn encode(&self) -> (bytes: Vec<u8>)
        ensures
            bytes@ == self.spec_encode(),
            bytes@.len() == HEADER_SIZE,
    {
        let mut bytes: Vec<u8> = Vec::with_capacity(HEADER_SIZE);
        bytes.push(self.kind.0);
        let mut rest: u64 = self.size as u64;
        let mut written: usize = 0;
        while written < SIZE_BYTES
            invariant
                written <= SIZE_BYTES,
                bytes@.len() == 1 + written,
                bytes@ + spec_le_bytes(rest as nat, (SIZE_BYTES - written) as nat)
                    =~= self.spec_encode(),
            decreases SIZE_BYTES - written,
        {
            bytes.push((rest % 256) as u8);
            rest = rest / 256;
            written = written + 1;
        }
        bytes
    }

    /// Reads a header from bytes. Anything but a well-formed header of
    /// exactly `HEADER_SIZE` bytes is refused as `MalformedHeader`.
    pub fn decode(bytes: &[u8]) -> (decoded: Result<Header, MessageError>)
        ensures
            decoded == Header::spec_decode(bytes@),
    {
        if bytes.len() != HEADER_SIZE {
            return Err(MessageError::MalformedHeader);
        }
        let mut value: u64 = 0;
        let mut at: usize = HEADER_SIZE;
        while at > 1
            invariant
                1 <= at <= HEADER_SIZE,
                bytes@.len() == HEADER_SIZE,
                value == spec_le_value(bytes@.subrange(at as int, HEADER_SIZE as int)),
            decreases at,
        {
            proof {
                let tail = bytes@.subrange(at as int, HEADER_SIZE as int);
                let longer = bytes@.subrange(at - 1, HEADER_SIZE as int);
                lemma_le_value_bound(tail);
                lemma_le_value_bound(longer);
                lemma_limit_of_size_bytes();
                reveal_with_fuel(spec_limit, 9);
                assert(longer.drop_first() =~= tail);
                assert(longer[0] == bytes@[at - 1]);
            }
            at = at - 1;
            value = value * 256 + bytes[at] as u64;
        }
        if value > usize::MAX as u64 {
            return Err(MessageError::MalformedHeader);
        }
        Ok(Header { kind: Kind(bytes[0]), size: value as usize })
    }
}

/// A header that was laid out in bytes is read back as it was.
pub proof fn lemma_decode_of_encode(header: Header)
    ensures
        Header::spec_decode(header.spec_encode()) == Ok::<Header, MessageError>(header),
{
    let bytes = header.spec_encode();
    let size_bytes = spec_le_bytes(header.size as nat, SIZE_BYTES as nat);
    lemma_le_bytes_len(header.size as nat, SIZE_BYTES as nat);
    lemma_limit_of_size_bytes();
    lemma_le_value_of_bytes(header.size as nat, SIZE_BYTES as nat);
    assert(bytes.subrange(1, HEADER_SIZE as int) =~= size_bytes);
}

/// Bytes that were read as a header are the bytes that this header is laid
/// out in: no two runs of bytes are the same header.
pub proof fn lemma_encode_of_decode(bytes: Seq<u8>)
    requires
        Header::spec_decode(bytes) is Ok,
    ensures
        Header::spec_decode(bytes).unwrap().spec_encode() == bytes,
{
    let size_bytes = bytes.subrange(1, HEADER_SIZE as int);
    lemma_le_bytes_of_value(size_bytes);
    assert(seq![bytes[0]] + size_bytes =~= bytes);
}

} // verus!
