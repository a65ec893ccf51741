use vstd::prelude::*;

verus! {

/// The commands that an instruction payload can carry.
#[derive(Debug, PartialEq, Eq, Structural)]
pub enum HelloInstructions {
    Increment,
    Decrement,
    SetValue(u32),
}

/// Why a payload does not decode.
#[derive(Debug, Clone, Copy, PartialEq, Eq, Structural)]
pub enum DecodeError {
    /// There is no tag byte.
    Empty,
    /// The tag asks for a payload of another length.
    MalformedPayload,
    /// The tag names no command.
    UnknownTag,
}

/// The value of four bytes read as a little-endian unsigned integer.
pub open spec fn u32_from_le(b: Seq<u8>) -> int {
    b[0] as int + b[1] as int * 0x100 + b[2] as int * 0x1_0000 + b[3] as int * 0x100_0000
}

/// The four little-endian bytes of `v`.
pub open spec fn u32_le_bytes(v: u32) -> Seq<u8> {
    seq![
        (v % 0x100) as u8,
        (v / 0x100 % 0x100) as u8,
        (v / 0x1_0000 % 0x100) as u8,
        (v / 0x100_0000 % 0x100) as u8,
    ]
}

/// What a payload decodes to: the first byte is the tag, the rest the payload.
pub open spec fn decode(b: Seq<u8>) -> Result<HelloInstructions, DecodeError> {
    if b.len() == 0 {
        Err(DecodeError::Empty)
    } else if b[0] == 0 {
        Ok(HelloInstructions::Increment)
    } else if b[0] == 1 {
        Ok(HelloInstructions::Decrement)
    } else if b[0] == 2 {
        if b.len() == 5 {
            Ok(HelloInstructions::SetValue(u32_from_le(b.subrange(1, 5)) as u32))
        } else {
            Err(DecodeError::MalformedPayload)
        }
    } else {
        Err(DecodeError::UnknownTag)
    }
}

/// The wire form of `SetValue(v)`.
pub open spec fn encode_set(v: u32) -> Seq<u8> {
    seq![2u8] + u32_le_bytes(v)
}

/// Reads `b[at..at + 4]` as a little-endian `u32`.
pub fn read_u32_le(b: &[u8], at: usize) -> (r: u32)
    requires
        at + 4 <= b@.len(),
    ensures
        r as int == u32_from_le(b@.subrange(at as int, at + 4)),
{
    let b0 = b[at] as u32;
    let b1 = b[at + 1] as u32;
    let b2 = b[at + 2] as u32;
    let b3 = b[at + 3] as u32;
    b0 + b1 * 0x100 + b2 * 0x1_0000 + b3 * 0x100_0000
}

impl HelloInstructions {
    /// Decodes an instruction payload: a tag byte, then the command's payload.
    /// `Increment` and `Decrement` ignore whatever follows the tag; `SetValue`
    /// wants exactly four bytes after it.
    pub fn unpack(input: &[u8]) -> (r: Result<HelloInstructions, DecodeError>)
        ensures
            r == decode(input@),
    {
        if input.len() == 0 {
            return Err(DecodeError::Empty);
        }
        let tag = input[0];
        match tag {
            0 => Ok(HelloInstructions::Increment),
            1 => Ok(HelloInstructions::Decrement),
            2 => {
                if input.len() != 5 {
                    return Err(DecodeError::MalformedPayload);
                }
                Ok(HelloInstructions::SetValue(read_u32_le(input, 1)))
            },
            _ => Err(DecodeError::UnknownTag),
        }
    }
}

/// A `SetValue` tag followed by a payload of any length but four fails as malformed.
pub proof fn lemma_set_wrong_length(b: Seq<u8>)
    requires
        b.len() >= 1,
        b[0] == 2,
        b.len() != 5,
    ensures
        decode(b) == Err::<HelloInstructions, DecodeError>(DecodeError::MalformedPayload),
{
}

/// A `SetValue` tag followed by four bytes decodes to `SetValue` of their little-endian value.
pub proof fn lemma_set_payload(b: Seq<u8>)
    requires
        b.len() == 5,
        b[0] == 2,
    ensures
        decode(b) == Ok::<HelloInstructions, DecodeError>(
            HelloInstructions::SetValue(u32_from_le(b.subrange(1, 5)) as u32),
        ),
        0 <= u32_from_le(b.subrange(1, 5)) <= u32::MAX,
{
}

/// Encoding `SetValue(v)` and decoding it gives back `SetValue(v)`.
pub proof fn lemma_set_round_trip(v: u32)
    ensures
        decode(encode_set(v)) == Ok::<HelloInstructions, DecodeError>(HelloInstructions::SetValue(v)),
{
    let b = encode_set(v);
    assert(b.subrange(1, 5) =~= u32_le_bytes(v));
    assert(u32_from_le(u32_le_bytes(v)) == v as int);
}

/// Two five-byte `SetValue` payloads that decode alike are the same bytes: no two
/// payloads give one value.
pub proof fn lemma_set_injective(a: Seq<u8>, b: Seq<u8>)
    requires
        a.len() == 5,
        b.len() == 5,
        a[0] == 2,
        b[0] == 2,
        decode(a) == decode(b),
    ensures
        a == b,
{
    let x = u32_from_le(a.subrange(1, 5));
    let y = u32_from_le(b.subrange(1, 5));
    assert(x == y);
    let (a1, a2, a3, a4) = (a[1] as int, a[2] as int, a[3] as int, a[4] as int);
    let (b1, b2, b3, b4) = (b[1] as int, b[2] as int, b[3] as int, b[4] as int);
    assert(a1 == x % 0x100 && b1 == y % 0x100);
    assert(a2 == x / 0x100 % 0x100 && b2 == y / 0x100 % 0x100);
    assert(a3 == x / 0x1_0000 % 0x100 && b3 == y / 0x1_0000 % 0x100);
    assert(a4 == x / 0x100_0000 && b4 == y / 0x100_0000);
    assert(a =~= b);
}

/// A lone byte that is no known tag fails as an unknown tag.
pub proof fn lemma_unknown_tag(t: u8)
    requires
        t != 0,
        t != 1,
        t != 2,
    ensures
        decode(seq![t]) == Err::<HelloInstructions, DecodeError>(DecodeError::UnknownTag),
{
}

} // verus!
