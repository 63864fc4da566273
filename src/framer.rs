//! Wire format: data packets carry a big-endian sequence number in their first
//! four bytes and zero filler after it; `"Init\n"` and `"exit\n"` are control
//! tokens that stand apart from data packets.
use vstd::prelude::*;

verus! {

/// Number of bytes that hold the sequence number at the start of a packet.
pub const SEQUENCE_LEN: usize = 4;

#[derive(Debug, Clone, Copy, PartialEq, Eq, Structural)]
pub enum FramerError {
    /// The requested packet length cannot hold a sequence number.
    TooShort,
    /// The bytes handed to the decoder are fewer than a sequence number.
    Truncated,
}

/// The big-endian bytes of `sequence`.
pub open spec fn be_bytes(sequence: u32) -> Seq<u8> {
    seq![
        (sequence / 0x100_0000) as u8,
        ((sequence / 0x1_0000) % 0x100) as u8,
        ((sequence / 0x100) % 0x100) as u8,
        (sequence % 0x100) as u8,
    ]
}

/// The number that the first four bytes of `b` spell in big-endian order.
pub open spec fn be_value(b: Seq<u8>) -> u32
    recommends
        b.len() >= 4,
{
    (b[0] * 0x100_0000int + b[1] * 0x1_0000int + b[2] * 0x100int + b[3]) as u32
}

/// A data packet of `length` bytes: the sequence number, then zeros.
pub open spec fn frame(sequence: u32, length: nat) -> Seq<u8> {
    be_bytes(sequence) + Seq::new((length - 4) as nat, |_i: int| 0u8)
}

/// What `encode` returns.
pub open spec fn encode_spec(sequence: u32, length: nat) -> Result<Seq<u8>, FramerError> {
    if length < 4 {
        Err(FramerError::TooShort)
    } else {
        Ok(frame(sequence, length))
    }
}

/// What `decode` returns.
pub open spec fn decode_spec(b: Seq<u8>) -> Result<u32, FramerError> {
    if b.len() < 4 {
        Err(FramerError::Truncated)
    } else {
        Ok(be_value(b))
    }
}

/// Builds a data packet of `length` bytes that carries `sequence`.
pub fn encode(sequence: u32, length: usize) -> (r: Result<Vec<u8>, FramerError>)
    ensures
        r is Err <==> length < 4,
        r is Err ==> r == Err::<Vec<u8>, FramerError>(FramerError::TooShort),
        r matches Ok(v) ==> v@ == frame(sequence, length as nat),
{
    if length < SEQUENCE_LEN {
        return Err(FramerError::TooShort);
    }
    let mut v: Vec<u8> = Vec::with_capacity(length);
    v.push((sequence / 0x100_0000) as u8);
    v.push(((sequence / 0x1_0000) % 0x100) as u8);
    v.push(((sequence / 0x100) % 0x100) as u8);
    v.push((sequence % 0x100) as u8);
    let mut i: usize = SEQUENCE_LEN;
    while i < length
        invariant
            SEQUENCE_LEN <= i <= length,
            v@.len() == i,
            v@.subrange(0, 4) == be_bytes(sequence),
            forall|j: int| 4 <= j < i ==> v@[j] == 0u8,
        decreases length - i,
    {
        v.push(0u8);
        i = i + 1;
    }
    assert(v@ =~= frame(sequence, length as nat)) by {
        assert forall|j: int| 0 <= j < 4 implies v@[j] == be_bytes(sequence)[j] by {
            assert(v@.subrange(0, 4)[j] == v@[j]);
        }
    }
    Ok(v)
}

/// Reads the sequence number at the start of a data packet.
pub fn decode(b: &[u8]) -> (r: Result<u32, FramerError>)
    ensures
        r == decode_spec(b@),
{
    if b.len() < SEQUENCE_LEN {
        return Err(FramerError::Truncated);
    }
    let v: u32 = (b[0] as u32) * 0x100_0000 + (b[1] as u32) * 0x1_0000 + (b[2] as u32) * 0x100
        + (b[3] as u32);
    Ok(v)
}

/// The handshake token, `"Init\n"`.
pub open spec fn init_token() -> Seq<u8> {
    seq![0x49u8, 0x6e, 0x69, 0x74, 0x0a]
}

/// The end-of-session token, `"exit\n"`.
pub open spec fn exit_token() -> Seq<u8> {
    seq![0x65u8, 0x78, 0x69, 0x74, 0x0a]
}

/// The class of an arriving message.
#[derive(Debug, Clone, Copy, PartialEq, Eq, Structural)]
pub enum Message {
    /// The handshake token.
    Init,
    /// The end-of-session token.
    Exit,
    /// A data packet with its sequence number.
    Data(u32),
    /// Fewer bytes than a sequence number, and no control token.
    Short,
}

/// Control tokens are recognised before any sequence number is read.
pub open spec fn message_of(b: Seq<u8>) -> Message {
    if b == init_token() {
        Message::Init
    } else if b == exit_token() {
        Message::Exit
    } else if b.len() < 4 {
        Message::Short
    } else {
        Message::Data(be_value(b))
    }
}

/// The bytes of the handshake token.
pub fn init_token_bytes() -> (r: Vec<u8>)
    ensures
        r@ == init_token(),
{
    let r: Vec<u8> = vec![0x49u8, 0x6e, 0x69, 0x74, 0x0a];
    assert(r@ =~= init_token());
    r
}

/// The bytes of the end-of-session token.
pub fn exit_token_bytes() -> (r: Vec<u8>)
    ensures
        r@ == exit_token(),
{
    let r: Vec<u8> = vec![0x65u8, 0x78, 0x69, 0x74, 0x0a];
    assert(r@ =~= exit_token());
    r
}

/// Whether `b` holds exactly the four bytes `t0..t3` followed by a newline.
fn is_token(b: &[u8], t0: u8, t1: u8, t2: u8, t3: u8) -> (r: bool)
    ensures
        r == (b@ == seq![t0, t1, t2, t3, 0x0au8]),
{
    let r = b.len() == 5 && b[0] == t0 && b[1] == t1 && b[2] == t2 && b[3] == t3 && b[4] == 0x0a;
    if r {
        assert(b@ =~= seq![t0, t1, t2, t3, 0x0au8]);
    }
    r
}

/// Whether `b` is exactly the handshake token.
pub fn is_init(b: &[u8]) -> (r: bool)
    ensures
        r == (b@ == init_token()),
{
    is_token(b, 0x49, 0x6e, 0x69, 0x74)
}

/// Whether `b` is exactly the end-of-session token.
pub fn is_exit(b: &[u8]) -> (r: bool)
    ensures
        r == (b@ == exit_token()),
{
    is_token(b, 0x65, 0x78, 0x69, 0x74)
}

/// Sorts an arriving message into control token, data packet or short junk.
pub fn classify_message(b: &[u8]) -> (m: Message)
    ensures
        m == message_of(b@),
{
    if is_init(b) {
        Message::Init
    } else if is_exit(b) {
        Message::Exit
    } else {
        match decode(b) {
            Ok(sequence) => Message::Data(sequence),
            Err(_) => Message::Short,
        }
    }
}

/// The four big-endian bytes of a number read back give the number.
pub proof fn lemma_be_round_trip(sequence: u32)
    ensures
        be_value(be_bytes(sequence)) == sequence,
{
    let b = be_bytes(sequence);
    assert((sequence / 0x100_0000) * 0x100_0000 + ((sequence / 0x1_0000) % 0x100) * 0x1_0000
        + ((sequence / 0x100) % 0x100) * 0x100 + sequence % 0x100 == sequence) by (bit_vector);
}

/// Decoding an encoded packet gives back its sequence number, for every
/// sequence number and every length that can hold one.
pub proof fn lemma_decode_encode(sequence: u32, length: nat)
    requires
        length >= 4,
    ensures
        encode_spec(sequence, length) matches Ok(p) && decode_spec(p) == Ok::<u32, FramerError>(sequence),
{
    let p = frame(sequence, length);
    lemma_be_round_trip(sequence);
    assert(p.subrange(0, 4) =~= be_bytes(sequence));
    assert(p[0] == be_bytes(sequence)[0] && p[1] == be_bytes(sequence)[1] && p[2] == be_bytes(sequence)[2]
        && p[3] == be_bytes(sequence)[3]);
}

/// No data packet is mistaken for a control token: its fifth byte, if it has
/// one, is zero filler where a token has a newline.
pub proof fn lemma_frames_are_not_tokens(sequence: u32, length: nat)
    requires
        length >= 4,
    ensures
        frame(sequence, length) != init_token(),
        frame(sequence, length) != exit_token(),
        message_of(frame(sequence, length)) == Message::Data(sequence),
{
    let p = frame(sequence, length);
    lemma_decode_encode(sequence, length);
    if length >= 5 {
        assert(p[4] == 0u8);
        assert(init_token()[4] == 0x0au8);
        assert(exit_token()[4] == 0x0au8);
    } else {
        assert(p.len() != init_token().len());
    }
}

} // verus!
