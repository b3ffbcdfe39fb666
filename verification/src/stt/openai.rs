//! OpenAI transcription: the captured audio is sent as one WAV file. This module builds
//! that file, picks the language code the API accepts, and words the error shown when
//! the API refuses. The HTTP request belongs to the application.

use vstd::prelude::*;

use super::{le16, le32, pcm16_le, push_le16, push_le32, push_pcm16, lemma_pcm16_len};
use crate::text::{before_first, concat_str, decimal, prefix_before, push_decimal};

verus! {

/// The transcription endpoint.
pub const ENDPOINT: &'static str = "https://api.openai.com/v1/audio/transcriptions";

/// The transcription model.
pub const MODEL: &'static str = "gpt-4o-transcribe";

/// The 44-byte header of a mono 16-bit PCM WAV file holding `n` samples at `rate` Hz.
pub open spec fn wav_header(n: nat, rate: u32) -> Seq<u8> {
    seq![0x52u8, 0x49, 0x46, 0x46] // "RIFF"
        + le32((36 + 2 * n) as int)
        + seq![0x57u8, 0x41, 0x56, 0x45] // "WAVE"
        + seq![0x66u8, 0x6d, 0x74, 0x20] // "fmt "
        + le32(16) // PCM chunk size
        + le16(1) // audio format: PCM
        + le16(1) // channels
        + le32(rate as int)
        + le32(2 * rate) // byte rate
        + le16(2) // block align
        + le16(16) // bits per sample
        + seq![0x64u8, 0x61, 0x74, 0x61] // "data"
        + le32((2 * n) as int)
}

/// A mono 16-bit PCM WAV file: the header, then the samples as little-endian values.
pub open spec fn wav_file(samples: Seq<i16>, rate: u32) -> Seq<u8> {
    wav_header(samples.len(), rate) + pcm16_le(samples)
}

fn push_bytes4(out: &mut Vec<u8>, a: u8, b: u8, c: u8, d: u8)
    ensures
        final(out)@ == old(out)@ + seq![a, b, c, d],
{
    out.push(a);
    out.push(b);
    out.push(c);
    out.push(d);
    assert(final(out)@ =~= old(out)@ + seq![a, b, c, d]);
}

/// Encodes mono 16-bit PCM samples as a WAV file.
pub fn encode_wav(samples: &[i16], sample_rate: u32) -> (r: Vec<u8>)
    requires
        2 * sample_rate <= u32::MAX,
        36 + 2 * samples@.len() <= u32::MAX,
    ensures
        r@ == wav_file(samples@, sample_rate),
        r@.len() == 44 + 2 * samples@.len(),
{
    let n = samples.len();
    let data_len: u32 = (n * 2) as u32;
    let riff_len: u32 = 36 + data_len;
    let byte_rate: u32 = sample_rate * 2;
    let mut buf: Vec<u8> = Vec::new();
    push_bytes4(&mut buf, 0x52, 0x49, 0x46, 0x46);
    push_le32(&mut buf, riff_len);
    push_bytes4(&mut buf, 0x57, 0x41, 0x56, 0x45);
    push_bytes4(&mut buf, 0x66, 0x6d, 0x74, 0x20);
    push_le32(&mut buf, 16);
    push_le16(&mut buf, 1);
    push_le16(&mut buf, 1);
    push_le32(&mut buf, sample_rate);
    push_le32(&mut buf, byte_rate);
    push_le16(&mut buf, 2);
    push_le16(&mut buf, 16);
    push_bytes4(&mut buf, 0x64, 0x61, 0x74, 0x61);
    push_le32(&mut buf, data_len);
    let ghost header = buf@;
    assert(header =~= wav_header(samples@.len(), sample_rate));
    push_pcm16(&mut buf, samples);
    proof {
        lemma_pcm16_len(samples@);
    }
    buf
}

/// The value of four little-endian bytes.
pub open spec fn read_le32(b: Seq<u8>, at: int) -> int {
    b[at] + 256 * b[at + 1] + 65536 * b[at + 2] + 16777216 * b[at + 3]
}

/// The value of two little-endian bytes.
pub open spec fn read_le16(b: Seq<u8>, at: int) -> int {
    b[at] + 256 * b[at + 1]
}

proof fn lemma_le32_roundtrip(x: int)
    requires
        0 <= x < 0x1_0000_0000,
    ensures
        read_le32(le32(x), 0) == x,
{
    let b = le32(x);
    let q1 = x / 256;
    let q2 = x / 65536;
    let q3 = x / 16777216;
    assert(x == 256 * q1 + x % 256);
    assert(q1 == 256 * (q1 / 256) + q1 % 256);
    assert(q1 / 256 == q2) by {
        vstd::arithmetic::div_mod::lemma_div_denominator(x, 256, 256);
    }
    assert(q2 == 256 * (q2 / 256) + q2 % 256);
    assert(q2 / 256 == q3) by {
        vstd::arithmetic::div_mod::lemma_div_denominator(x, 65536, 256);
    }
    assert(q3 < 256);
    assert(q3 % 256 == q3);
    assert(b[0] == x % 256);
    assert(b[1] == q1 % 256);
    assert(b[2] == q2 % 256);
    assert(b[3] == q3 % 256);
}

proof fn lemma_le16_roundtrip(x: int)
    requires
        0 <= x < 65536,
    ensures
        read_le16(le16(x), 0) == x,
{
    let b = le16(x);
    assert(x == 256 * (x / 256) + x % 256);
    assert((x / 256) % 256 == x / 256);
}

/// A WAV file read back: its length fields, format fields and sample rate are the ones
/// the samples were encoded with.
pub proof fn lemma_wav_header_fields(samples: Seq<i16>, rate: u32)
    requires
        2 * rate <= u32::MAX,
        36 + 2 * samples.len() <= u32::MAX,
    ensures
        ({
            let w = wav_file(samples, rate);
            &&& read_le32(w, 4) == 36 + 2 * samples.len()
            &&& read_le16(w, 20) == 1
            &&& read_le16(w, 22) == 1
            &&& read_le32(w, 24) == rate
            &&& read_le32(w, 28) == 2 * rate
            &&& read_le16(w, 34) == 16
            &&& read_le32(w, 40) == 2 * samples.len()
            &&& w.len() == 44 + 2 * samples.len()
        }),
{
    let n = samples.len();
    let w = wav_file(samples, rate);
    lemma_pcm16_len(samples);
    lemma_le32_roundtrip((36 + 2 * n) as int);
    lemma_le32_roundtrip(rate as int);
    lemma_le32_roundtrip(2 * rate);
    lemma_le32_roundtrip((2 * n) as int);
    lemma_le16_roundtrip(1);
    lemma_le16_roundtrip(16);
    let h = wav_header(n, rate);
    assert(h.len() == 44);
    assert(w.subrange(4, 8) =~= le32((36 + 2 * n) as int));
    assert(w.subrange(20, 22) =~= le16(1));
    assert(w.subrange(22, 24) =~= le16(1));
    assert(w.subrange(24, 28) =~= le32(rate as int));
    assert(w.subrange(28, 32) =~= le32(2 * rate));
    assert(w.subrange(34, 36) =~= le16(16));
    assert(w.subrange(40, 44) =~= le32((2 * n) as int));
    assert(read_le32(w, 4) == read_le32(w.subrange(4, 8), 0));
    assert(read_le16(w, 20) == read_le16(w.subrange(20, 22), 0));
    assert(read_le16(w, 22) == read_le16(w.subrange(22, 24), 0));
    assert(read_le32(w, 24) == read_le32(w.subrange(24, 28), 0));
    assert(read_le32(w, 28) == read_le32(w.subrange(28, 32), 0));
    assert(read_le16(w, 34) == read_le16(w.subrange(34, 36), 0));
    assert(read_le32(w, 40) == read_le32(w.subrange(40, 44), 0));
}

/// The ISO-639-1 code OpenAI expects: the language tag up to its first `-`, or nothing
/// when that part is empty.
pub open spec fn iso_language(language: Seq<char>) -> Option<Seq<char>> {
    let base = before_first(language, '-');
    if base.len() == 0 {
        None
    } else {
        Some(base)
    }
}

/// Drops any region suffix from a language tag (`"en-US"` → `"en"`); `None` when nothing
/// is left, in which case no language is sent.
pub fn request_language(language: &str) -> (r: Option<String>)
    ensures
        match r {
            Some(l) => iso_language(language@) == Some(l@),
            None => iso_language(language@) is None,
        },
{
    let base = prefix_before(language, '-');
    if base.as_str().is_empty() {
        None
    } else {
        Some(base)
    }
}

/// `"OpenAI error {status}: {detail}"`.
pub open spec fn api_error_text(status: u16, detail: Seq<char>) -> Seq<char> {
    "OpenAI error "@ + decimal(status as nat) + ": "@ + detail
}

/// The error shown when the API answers with a failure status: the status code and the
/// API's own message (`detail`; the raw body when it carried none).
pub fn api_error_message(status: u16, detail: &str) -> (r: String)
    ensures
        r@ == api_error_text(status, detail@),
{
    let mut m = "OpenAI error ".to_owned();
    push_decimal(&mut m, status as u64);
    m.append(": ");
    m.append(detail);
    m
}

} // verus!
