//! Integer PCM: little-endian encoding and decoding of samples, base64
//! payloads, and the length-prefixed frames of the local recogniser's wire.
use vstd::prelude::*;

verus! {

/// The 16-bit two's complement pattern of `x`, as an unsigned value.
pub open spec fn u16_bits(x: i16) -> int {
    if x < 0 { x + 65536 } else { x as int }
}

/// Samples as little-endian 16-bit PCM bytes (`i16::to_le_bytes`, one sample after the other).
pub open spec fn le_bytes_i16(s: Seq<i16>) -> Seq<u8> {
    Seq::new(
        2 * s.len(),
        |k: int| if k % 2 == 0 { (u16_bits(s[k / 2]) % 256) as u8 } else { (u16_bits(s[k / 2]) / 256) as u8 },
    )
}

/// Encodes samples as little-endian 16-bit PCM.
pub fn pcm16_le_bytes(samples: &Vec<i16>) -> (bytes: Vec<u8>)
    requires
        2 * samples.len() <= usize::MAX,
    ensures
        bytes@ == le_bytes_i16(samples@),
{
    let mut bytes: Vec<u8> = Vec::new();
    let mut i: usize = 0;
    while i < samples.len()
        invariant
            i <= samples.len(),
            2 * samples.len() <= usize::MAX,
            bytes@.len() == 2 * i,
            forall|k: int| 0 <= k < 2 * i ==> bytes@[k] == le_bytes_i16(samples@)[k],
        decreases samples.len() - i,
    {
        let x = samples[i];
        let u: u32 = if x < 0 { (x as i32 + 65536) as u32 } else { x as u32 };
        bytes.push((u % 256) as u8);
        bytes.push((u / 256) as u8);
        proof {
            assert((2 * i) / 2 == i);
            assert((2 * i + 1) / 2 == i);
            assert((2 * i) % 2 == 0);
            assert((2 * i + 1) % 2 == 1);
        }
        i += 1;
    }
    assert(bytes@ =~= le_bytes_i16(samples@));
    bytes
}

/// The character of a 6-bit value in the standard base64 alphabet
/// (`A`-`Z`, `a`-`z`, `0`-`9`, `+`, `/`).
pub open spec fn base64_digit(v: int) -> char {
    if v < 26 {
        (65 + v) as char
    } else if v < 52 {
        (97 + v - 26) as char
    } else if v < 62 {
        (48 + v - 52) as char
    } else if v == 62 {
        '+'
    } else {
        '/'
    }
}

/// The standard base64 text (RFC 4648 alphabet, with `=` padding) of
/// `bytes`: each group of three bytes becomes four characters of six bits
/// each; a last group of one or two bytes is padded with `=`.
pub open spec fn base64_standard(bytes: Seq<u8>) -> Seq<char>
    decreases bytes.len(),
{
    if bytes.len() == 0 {
        Seq::empty()
    } else if bytes.len() == 1 {
        seq![base64_digit(bytes[0] as int / 4), base64_digit((bytes[0] as int % 4) * 16), '=', '=']
    } else if bytes.len() == 2 {
        seq![
            base64_digit(bytes[0] as int / 4),
            base64_digit((bytes[0] as int % 4) * 16 + bytes[1] as int / 16),
            base64_digit((bytes[1] as int % 16) * 4),
            '=',
        ]
    } else {
        seq![
            base64_digit(bytes[0] as int / 4),
            base64_digit((bytes[0] as int % 4) * 16 + bytes[1] as int / 16),
            base64_digit((bytes[1] as int % 16) * 4 + bytes[2] as int / 64),
            base64_digit(bytes[2] as int % 64),
        ] + base64_standard(bytes.skip(3))
    }
}

/// The length of the standard base64 text of `n` bytes.
pub open spec fn base64_len(n: nat) -> nat {
    4 * ((n + 2) / 3)
}

/// Encodes bytes in standard base64.
///
/// Trusted: calls `base64::Engine::encode` of `base64::engine::general_purpose::STANDARD`
/// (standard alphabet, padding on), whose text is `base64_standard`; the
/// source sizes the output with `encoded_len(n, true)` and panics when that
/// size overflows `usize`.
#[verifier::external_body]
pub(crate) fn encode_base64(bytes: &[u8]) -> (s: String)
    requires
        base64_len(bytes@.len()) <= usize::MAX,
    ensures
        s@ == base64_standard(bytes@),
{
    base64::Engine::encode(&base64::engine::general_purpose::STANDARD, bytes)
}

/// The base64 text of samples encoded as little-endian 16-bit PCM.
pub fn pcm16_base64(samples: &Vec<i16>) -> (s: String)
    requires
        base64_len(2 * samples@.len()) <= usize::MAX,
    ensures
        s@ == base64_standard(le_bytes_i16(samples@)),
{
    let bytes = pcm16_le_bytes(samples);
    encode_base64(bytes.as_slice())
}

} // verus!

verus! {

/// A little-endian two's complement integer of `n` bytes starting at `data[at]`.
pub open spec fn le_signed(data: Seq<u8>, at: int, n: nat) -> int
    decreases n,
{
    if n == 0 {
        0
    } else {
        let u = le_unsigned(data, at, n);
        if u >= pow256(n) / 2 { u - pow256(n) } else { u }
    }
}

/// 256 to the power `n`.
pub open spec fn pow256(n: nat) -> int
    decreases n,
{
    if n == 0 { 1 } else { 256 * pow256((n - 1) as nat) }
}

/// A little-endian unsigned integer of `n` bytes starting at `data[at]`.
pub open spec fn le_unsigned(data: Seq<u8>, at: int, n: nat) -> int
    decreases n,
{
    if n == 0 { 0 } else { data[at] + 256 * le_unsigned(data, at + 1, (n - 1) as nat) }
}

/// The samples of interleaved PCM bytes of `width` bytes each; a trailing
/// partial sample is ignored (`chunks_exact`).
pub open spec fn decode_samples(data: Seq<u8>, width: nat) -> Seq<int> {
    Seq::new(data.len() / width, |i: int| le_signed(data, i * width, width))
}

/// The sample width in bytes of a supported sample size in bits.
pub open spec fn supported_width(bits: u16) -> Option<nat> {
    if bits == 16 { Some(2) } else if bits == 24 { Some(3) } else if bits == 32 { Some(4) } else { None }
}

fn le_signed_at(data: &[u8], at: usize, width: usize) -> (v: i32)
    requires
        2 <= width <= 4,
        at + width <= data@.len(),
    ensures
        v == le_signed(data@, at as int, width as nat),
{
    let b0 = data[at] as i64;
    let b1 = data[at + 1] as i64;
    let b2: i64 = if width >= 3 { data[at + 2] as i64 } else { 0 };
    let b3: i64 = if width >= 4 { data[at + 3] as i64 } else { 0 };
    proof {
        reveal_with_fuel(le_unsigned, 5);
        reveal_with_fuel(pow256, 5);
    }
    let (u, full): (i64, i64) = if width == 2 {
        (b0 + 256 * b1, 65536)
    } else if width == 3 {
        (b0 + 256 * b1 + 65536 * b2, 16777216)
    } else {
        (b0 + 256 * b1 + 65536 * b2 + 16777216 * b3, 4294967296)
    };
    let v = if u >= full / 2 { u - full } else { u };
    v as i32
}

/// Decodes interleaved little-endian PCM of 16, 24 or 32 bits per sample
/// into signed integer samples; `None` for any other sample size.
pub fn decode_pcm(data: &[u8], bits_per_sample: u16) -> (r: Option<Vec<i32>>)
    ensures
        supported_width(bits_per_sample) is None ==> r is None,
        supported_width(bits_per_sample) matches Some(w) ==> (r matches Some(v) && v@.len()
            == decode_samples(data@, w).len() && forall|i: int|
            0 <= i < v@.len() ==> v@[i] as int == #[trigger] decode_samples(data@, w)[i]),
{
    let width: usize = if bits_per_sample == 16 {
        2
    } else if bits_per_sample == 24 {
        3
    } else if bits_per_sample == 32 {
        4
    } else {
        return None;
    };
    let n = data.len() / width;
    let mut out: Vec<i32> = Vec::new();
    let mut i: usize = 0;
    while i < n
        invariant
            2 <= width <= 4,
            n == data@.len() / (width as nat),
            supported_width(bits_per_sample) == Some(width as nat),
            i <= n,
            out@.len() == i,
            forall|k: int| 0 <= k < i ==> out@[k] as int == #[trigger] decode_samples(data@, width as nat)[k],
        decreases n - i,
    {
        proof {
            assert(i * width + width <= n * width) by (nonlinear_arith)
                requires i < n, width > 0;
            assert(n * width <= data@.len()) by (nonlinear_arith)
                requires n == data@.len() / (width as nat), width > 0;
            assert(i * width + width <= data@.len());
            assert(data@.len() == data.len());
        }
        let v = le_signed_at(data, i * width, width);
        out.push(v);
        i += 1;
    }
    Some(out)
}

/// The number of silent samples standing for `len` bytes of an unsupported sample size.
pub fn silence_len(len: usize, bits_per_sample: u16) -> (n: usize)
    ensures
        n as int == len as int / (if bits_per_sample / 8 > 1 { (bits_per_sample / 8) as int } else { 1int }),
{
    let w: usize = if bits_per_sample / 8 > 1 { (bits_per_sample / 8) as usize } else { 1 };
    len / w
}

/// The four big-endian bytes of `n`.
pub open spec fn be32(n: int) -> Seq<u8> {
    seq![(n / 16777216 % 256) as u8, (n / 65536 % 256) as u8, (n / 256 % 256) as u8, (n % 256) as u8]
}

/// A message framed for the recogniser's wire: its length as a big-endian
/// `u32` (the length cut to 32 bits, as `as u32` does), then the payload.
pub fn frame_message(payload: &Vec<u8>) -> (framed: Vec<u8>)
    requires
        payload@.len() + 4 <= usize::MAX,
    ensures
        framed@ == be32(payload@.len() as int % 4294967296) + payload@,
{
    let n: u64 = payload.len() as u64 % 4294967296;
    let mut framed: Vec<u8> = Vec::new();
    framed.push((n / 16777216 % 256) as u8);
    framed.push((n / 65536 % 256) as u8);
    framed.push((n / 256 % 256) as u8);
    framed.push((n % 256) as u8);
    let mut i: usize = 0;
    while i < payload.len()
        invariant
            i <= payload.len(),
            framed@ == be32(n as int) + payload@.take(i as int),
        decreases payload.len() - i,
    {
        framed.push(payload[i]);
        assert(payload@.take(i + 1) == payload@.take(i as int).push(payload@[i as int]));
        i += 1;
    }
    assert(payload@.take(payload@.len() as int) == payload@);
    framed
}

/// The payload length announced by a frame header (`u32::from_be_bytes`).
pub fn frame_len(header: [u8; 4]) -> (n: u32)
    ensures
        n == header@[0] * 16777216 + header@[1] * 65536 + header@[2] * 256 + header@[3],
{
    header[0] as u32 * 16777216 + header[1] as u32 * 65536 + header[2] as u32 * 256 + header[3] as u32
}

} // verus!
