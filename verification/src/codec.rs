//! Wire codec of the push protocol.
//!
//! A message on the wire is a 4-byte big-endian length prefix followed by
//! that many payload bytes.  A command payload is a one-byte tag followed by
//! the command's fields; a reply payload is a one-byte success indicator,
//! optionally followed by an informational message that this layer ignores.
//!
//! The codec works purely on bytes: the caller owns the stream and writes
//! the frames produced here, and hands the bytes it read back for parsing.

use vstd::prelude::*;

use crate::errors::CodecError;

verus! {

pub const TAG_REGISTER: u8 = 1;

pub const TAG_COLOR: u8 = 2;

pub const TAG_IMAGE: u8 = 3;

pub const TAG_CLEAR: u8 = 4;

/// First payload byte of a reply reporting failure.
pub const REPLY_FAILURE: u8 = 0;

/// First payload byte of a reply reporting success.
pub const REPLY_SUCCESS: u8 = 1;

/// A row-major 8-bit-per-channel RGB raster, as the capture collaborator
/// hands it in: three bytes per pixel, rows from top to bottom.
pub struct RgbRaster {
    pub width: u32,
    pub height: u32,
    pub pixels: Vec<u8>,
}

impl RgbRaster {
    /// The buffer holds exactly three bytes for every pixel.
    pub open spec fn wf(&self) -> bool {
        self.pixels@.len() == 3 * (self.width as int) * (self.height as int)
    }
}

/// The commands of the push protocol that this agent needs.
pub enum Command {
    /// One-time client registration; must precede any Color or Image
    /// command on a fresh transport.
    Register { origin: Vec<u8>, priority: i32 },
    /// A single solid color, shown for `duration_ms` (negative: until
    /// replaced); doubles as a liveness probe and an idle signal.
    Color { red: u8, green: u8, blue: u8, duration_ms: i32 },
    /// One captured frame.
    Image { raster: RgbRaster },
    /// Clear the effect at the given priority.
    Clear { priority: i32 },
}

/// The four big-endian bytes of `n`, most significant first.
pub open spec fn spec_be32(n: u32) -> Seq<u8> {
    seq![(n >> 24) as u8, (n >> 16) as u8, (n >> 8) as u8, n as u8]
}

/// The `u32` read big-endian from the four bytes of `b`.
pub open spec fn spec_u32_from_be(b: Seq<u8>) -> u32
    recommends
        b.len() == 4,
{
    ((b[0] as u32) << 24) | ((b[1] as u32) << 16) | ((b[2] as u32) << 8) | (b[3] as u32)
}

/// The payload bytes of a command: its tag, then its fields.  Strings and
/// pixel buffers travel as raw bytes; integers travel big-endian, signed
/// ones in two's complement.
pub open spec fn spec_payload(c: Command) -> Seq<u8> {
    match c {
        Command::Register { origin, priority } => seq![TAG_REGISTER] + spec_be32(
            origin@.len() as u32,
        ) + origin@ + spec_be32(priority as u32),
        Command::Color { red, green, blue, duration_ms } => seq![TAG_COLOR, red, green, blue]
            + spec_be32(duration_ms as u32),
        Command::Image { raster } => seq![TAG_IMAGE] + spec_be32(raster.width) + spec_be32(
            raster.height,
        ) + raster.pixels@,
        Command::Clear { priority } => seq![TAG_CLEAR] + spec_be32(priority as u32),
    }
}

/// A command's payload fits a frame when its length is expressible in the
/// 4-byte prefix.  Only the variants with a variable-length field can grow.
pub open spec fn spec_command_fits(c: Command) -> bool {
    match c {
        Command::Register { origin, .. } => origin@.len() + 9 <= u32::MAX,
        Command::Color { .. } => true,
        Command::Image { raster } => raster.pixels@.len() + 9 <= u32::MAX,
        Command::Clear { .. } => true,
    }
}

/// A payload wrapped in the wire framing: its length, big-endian, then the
/// payload itself.
pub open spec fn spec_frame(payload: Seq<u8>) -> Seq<u8>
    recommends
        payload.len() <= u32::MAX,
{
    spec_be32(payload.len() as u32) + payload
}

/// The length of each command's payload, by variant.
pub proof fn lemma_payload_len(c: Command)
    ensures
        spec_payload(c).len() == (match c {
            Command::Register { origin, .. } => 9 + origin@.len(),
            Command::Color { .. } => 8,
            Command::Image { raster } => 9 + raster.pixels@.len(),
            Command::Clear { .. } => 5,
        }),
{
}

/// Reading the four big-endian bytes of `n` gives `n` back.
pub proof fn lemma_be32_round_trip(n: u32)
    ensures
        spec_u32_from_be(spec_be32(n)) == n,
{
    assert((((((n >> 24) as u8) as u32) << 24) | ((((n >> 16) as u8) as u32) << 16) | ((((n >> 8)
        as u8) as u32) << 8) | ((n as u8) as u32)) == n) by (bit_vector);
}

/// Framing loses nothing: the prefix of a frame reads back as the payload
/// length, and the rest is the payload itself.
pub proof fn lemma_frame_round_trip(payload: Seq<u8>)
    requires
        payload.len() <= u32::MAX,
    ensures
        spec_frame(payload).len() == 4 + payload.len(),
        spec_u32_from_be(spec_frame(payload).subrange(0, 4)) == payload.len(),
        spec_frame(payload).subrange(4, spec_frame(payload).len() as int) == payload,
{
    lemma_be32_round_trip(payload.len() as u32);
    assert(spec_frame(payload).subrange(0, 4) =~= spec_be32(payload.len() as u32));
    assert(spec_frame(payload).subrange(4, spec_frame(payload).len() as int) =~= payload);
}

/// Appends the four big-endian bytes of `n`.
fn push_u32_be(dst: &mut Vec<u8>, n: u32)
    ensures
        final(dst)@ == old(dst)@ + spec_be32(n),
{
    dst.push((n >> 24) as u8);
    dst.push((n >> 16) as u8);
    dst.push((n >> 8) as u8);
    dst.push(n as u8);
    proof {
        assert(dst@ =~= old(dst)@ + spec_be32(n));
    }
}

/// Appends a copy of `src`.
fn push_bytes(dst: &mut Vec<u8>, src: &Vec<u8>)
    ensures
        final(dst)@ == old(dst)@ + src@,
{
    let mut i: usize = 0;
    while i < src.len()
        invariant
            i <= src@.len(),
            dst@ == old(dst)@ + src@.subrange(0, i as int),
        decreases src@.len() - i,
    {
        dst.push(src[i]);
        i = i + 1;
        proof {
            assert(src@.subrange(0, i as int) =~= src@.subrange(0, i - 1).push(src@[i - 1]));
        }
    }
    proof {
        assert(src@.subrange(0, src@.len() as int) =~= src@);
    }
}

/// Encodes a command into its payload bytes.
pub fn encode_command(c: &Command) -> (r: Vec<u8>)
    ensures
        r@ == spec_payload(*c),
{
    let mut out: Vec<u8> = Vec::new();
    match c {
        Command::Register { origin, priority } => {
            out.push(TAG_REGISTER);
            push_u32_be(&mut out, origin.len() as u32);
            push_bytes(&mut out, origin);
            push_u32_be(&mut out, *priority as u32);
            proof {
                assert(out@ =~= spec_payload(*c));
            }
        },
        Command::Color { red, green, blue, duration_ms } => {
            out.push(TAG_COLOR);
            out.push(*red);
            out.push(*green);
            out.push(*blue);
            push_u32_be(&mut out, *duration_ms as u32);
            proof {
                assert(out@ =~= spec_payload(*c));
            }
        },
        Command::Image { raster } => {
            out.push(TAG_IMAGE);
            push_u32_be(&mut out, raster.width);
            push_u32_be(&mut out, raster.height);
            push_bytes(&mut out, &raster.pixels);
            proof {
                assert(out@ =~= spec_payload(*c));
            }
        },
        Command::Clear { priority } => {
            out.push(TAG_CLEAR);
            push_u32_be(&mut out, *priority as u32);
            proof {
                assert(out@ =~= spec_payload(*c));
            }
        },
    }
    out
}

/// Wraps a payload in the 4-byte length framing.
pub fn frame_payload(payload: &Vec<u8>) -> (r: Vec<u8>)
    requires
        payload@.len() <= u32::MAX,
    ensures
        r@ == spec_frame(payload@),
{
    let mut out: Vec<u8> = Vec::new();
    push_u32_be(&mut out, payload.len() as u32);
    push_bytes(&mut out, payload);
    out
}

/// Encodes a command and frames it, ready to be written to the transport.
pub fn encode_command_framed(c: &Command) -> (r: Vec<u8>)
    requires
        spec_command_fits(*c),
    ensures
        r@ == spec_frame(spec_payload(*c)),
{
    proof {
        lemma_payload_len(*c);
    }
    let payload = encode_command(c);
    frame_payload(&payload)
}

/// Reads a `u32` big-endian from `b` at `offset`.
pub fn decode_u32_be(b: &Vec<u8>, offset: usize) -> (r: u32)
    requires
        offset + 4 <= b@.len(),
    ensures
        r == spec_u32_from_be(b@.subrange(offset as int, offset as int + 4)),
{
    let _len: usize = b.len();
    ((b[offset] as u32) << 24u32) | ((b[offset + 1] as u32) << 16u32) | ((b[offset + 2] as u32)
        << 8u32) | (b[offset + 3] as u32)
}

/// Splits one complete frame into its payload.  The buffer must hold the
/// frame exactly: truncation (too few bytes for the prefix or the declared
/// length) and trailing garbage are both rejected.
pub fn parse_frame(buf: &Vec<u8>) -> (r: Result<Vec<u8>, CodecError>)
    ensures
        (r is Ok) <==> (buf@.len() >= 4 && buf@.len() == 4 + spec_u32_from_be(
            buf@.subrange(0, 4),
        )),
        (r matches Ok(payload) ==> payload@ == buf@.subrange(4, buf@.len() as int)),
        buf@.len() < 4 ==> r == Err::<Vec<u8>, CodecError>(CodecError::Truncated),
        (buf@.len() >= 4 && buf@.len() < 4 + spec_u32_from_be(buf@.subrange(0, 4))) ==> r
            == Err::<Vec<u8>, CodecError>(CodecError::Truncated),
        (buf@.len() >= 4 && buf@.len() > 4 + spec_u32_from_be(buf@.subrange(0, 4))) ==> r
            == Err::<Vec<u8>, CodecError>(CodecError::LengthMismatch),
{
    if buf.len() < 4 {
        return Err(CodecError::Truncated);
    }
    let declared = decode_u32_be(buf, 0);
    let body_len: usize = buf.len() - 4;
    if body_len < declared as usize {
        return Err(CodecError::Truncated);
    }
    if body_len > declared as usize {
        return Err(CodecError::LengthMismatch);
    }
    let mut payload: Vec<u8> = Vec::new();
    let mut i: usize = 4;
    while i < buf.len()
        invariant
            4 <= i <= buf@.len(),
            payload@ == buf@.subrange(4, i as int),
        decreases buf@.len() - i,
    {
        payload.push(buf[i]);
        i = i + 1;
        proof {
            assert(buf@.subrange(4, i as int) =~= buf@.subrange(4, i - 1).push(buf@[i - 1]));
        }
    }
    Ok(payload)
}

/// Interprets a reply payload: the first byte decides success or failure,
/// any following bytes are an informational message and are ignored.
pub fn parse_reply(payload: &Vec<u8>) -> (r: Result<bool, CodecError>)
    ensures
        payload@.len() == 0 ==> r == Err::<bool, CodecError>(CodecError::Truncated),
        (payload@.len() > 0 && payload@[0] == REPLY_SUCCESS) ==> r == Ok::<bool, CodecError>(true),
        (payload@.len() > 0 && payload@[0] == REPLY_FAILURE) ==> r == Ok::<bool, CodecError>(
            false,
        ),
        (payload@.len() > 0 && payload@[0] != REPLY_SUCCESS && payload@[0] != REPLY_FAILURE) ==> r
            == Err::<bool, CodecError>(CodecError::MalformedPayload),
{
    if payload.len() == 0 {
        return Err(CodecError::Truncated);
    }
    let indicator = payload[0];
    if indicator == REPLY_SUCCESS {
        Ok(true)
    } else if indicator == REPLY_FAILURE {
        Ok(false)
    } else {
        Err(CodecError::MalformedPayload)
    }
}

} // verus!
