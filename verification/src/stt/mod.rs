//! Speech-to-text plumbing shared by the providers: the transcript events, the audio
//! parameters, which provider a configuration selects, and the little-endian PCM
//! transport format.

use vstd::prelude::*;
use vstd::string::*;

use crate::config::{Config, ConfigView, Provider};

pub mod deepgram;
pub mod model;
pub mod openai;
pub mod whisper;

verus! {

/// An incremental transcription update.
#[derive(Debug, Clone)]
pub enum TranscriptEvent {
    /// A live, not-yet-final hypothesis (may change).
    Interim(String),
    /// A finalized segment that will not change.
    Final(String),
    /// Non-transcript progress (e.g. downloading a local model); `percent` is 0 to 100.
    Progress { message: String, percent: Option<u8> },
}

/// The abstract content of a [`TranscriptEvent`].
pub enum TranscriptEventView {
    Interim(Seq<char>),
    Final(Seq<char>),
    Progress { message: Seq<char>, percent: Option<u8> },
}

impl View for TranscriptEvent {
    type V = TranscriptEventView;

    open spec fn view(&self) -> TranscriptEventView {
        match self {
            TranscriptEvent::Interim(t) => TranscriptEventView::Interim(t@),
            TranscriptEvent::Final(t) => TranscriptEventView::Final(t@),
            TranscriptEvent::Progress { message, percent } => TranscriptEventView::Progress {
                message: message@,
                percent: *percent,
            },
        }
    }
}

/// Parameters describing the audio being streamed.
#[derive(Debug, Clone)]
pub struct StreamParams {
    pub sample_rate: u32,
    pub language: String,
}

/// Which provider runs, with what it needs.
#[derive(Debug)]
pub enum ProviderPlan {
    /// Local Whisper with the named model.
    Whisper { model: String },
    /// OpenAI with the API key.
    Openai { api_key: String },
    /// Deepgram with the API key.
    Deepgram { api_key: String },
    /// The offline mock.
    Mock,
}

/// The abstract content of a [`ProviderPlan`].
pub enum ProviderPlanView {
    Whisper { model: Seq<char> },
    Openai { api_key: Seq<char> },
    Deepgram { api_key: Seq<char> },
    Mock,
}

impl View for ProviderPlan {
    type V = ProviderPlanView;

    open spec fn view(&self) -> ProviderPlanView {
        match self {
            ProviderPlan::Whisper { model } => ProviderPlanView::Whisper { model: model@ },
            ProviderPlan::Openai { api_key } => ProviderPlanView::Openai { api_key: api_key@ },
            ProviderPlan::Deepgram { api_key } => ProviderPlanView::Deepgram { api_key: api_key@ },
            ProviderPlan::Mock => ProviderPlanView::Mock,
        }
    }
}

pub open spec fn missing_openai_key() -> Seq<char> {
    "no OpenAI API key configured (set one in Settings)"@
}

pub open spec fn missing_deepgram_key() -> Seq<char> {
    "no Deepgram API key configured (set one in Settings)"@
}

/// The provider that `cfg` selects, or the error a missing key causes.
pub open spec fn provider_plan(cfg: ConfigView, api_key: Option<Seq<char>>) -> Result<ProviderPlanView, Seq<char>> {
    match cfg.provider {
        Provider::Whisper => Ok(ProviderPlanView::Whisper { model: cfg.whisper_model }),
        Provider::Openai => match api_key {
            Some(k) => Ok(ProviderPlanView::Openai { api_key: k }),
            None => Err(missing_openai_key()),
        },
        Provider::Deepgram => match api_key {
            Some(k) => Ok(ProviderPlanView::Deepgram { api_key: k }),
            None => Err(missing_deepgram_key()),
        },
        Provider::Mock => Ok(ProviderPlanView::Mock),
    }
}

/// Selects the provider configured in `cfg`. Network providers need `api_key`; without
/// one the user-facing error message is returned.
pub fn plan(cfg: &Config, api_key: Option<String>) -> (r: Result<ProviderPlan, String>)
    ensures
        match (r, provider_plan(cfg@, match api_key { Some(k) => Some(k@), None => None })) {
            (Ok(p), Ok(q)) => p@ == q,
            (Err(e), Err(f)) => e@ == f,
            _ => false,
        },
{
    match cfg.provider {
        Provider::Whisper => Ok(ProviderPlan::Whisper { model: cfg.whisper_model.clone() }),
        Provider::Openai => match api_key {
            Some(k) => Ok(ProviderPlan::Openai { api_key: k }),
            None => Err(String::from_str("no OpenAI API key configured (set one in Settings)")),
        },
        Provider::Deepgram => match api_key {
            Some(k) => Ok(ProviderPlan::Deepgram { api_key: k }),
            None => Err(String::from_str("no Deepgram API key configured (set one in Settings)")),
        },
        Provider::Mock => Ok(ProviderPlan::Mock),
    }
}

// ----------------------------------------------------------------------------
// Little-endian PCM
// ----------------------------------------------------------------------------

/// The two's-complement 16-bit pattern of a sample, as a number in `0..65536`.
pub open spec fn u16_pattern(s: i16) -> int {
    if s < 0 {
        s + 65536
    } else {
        s as int
    }
}

/// The little-endian bytes of a value in `0..65536`.
pub open spec fn le16(x: int) -> Seq<u8> {
    seq![(x % 256) as u8, ((x / 256) % 256) as u8]
}

/// The little-endian bytes of a value in `0..2^32`.
pub open spec fn le32(x: int) -> Seq<u8> {
    seq![
        (x % 256) as u8,
        ((x / 256) % 256) as u8,
        ((x / 65536) % 256) as u8,
        ((x / 16777216) % 256) as u8,
    ]
}

/// Samples as consecutive little-endian 16-bit values (linear16).
pub open spec fn pcm16_le(samples: Seq<i16>) -> Seq<u8>
    decreases samples.len(),
{
    if samples.len() == 0 {
        seq![]
    } else {
        pcm16_le(samples.drop_last()) + le16(u16_pattern(samples.last()))
    }
}

/// Appends the little-endian bytes of `x` (below 65536).
pub(crate) fn push_le16(out: &mut Vec<u8>, x: u32)
    requires
        x < 65536,
    ensures
        final(out)@ == old(out)@ + le16(x as int),
{
    out.push((x % 256) as u8);
    out.push((x / 256) as u8);
    assert(final(out)@ =~= old(out)@ + le16(x as int));
}

/// Appends the little-endian bytes of `x`.
pub(crate) fn push_le32(out: &mut Vec<u8>, x: u32)
    ensures
        final(out)@ == old(out)@ + le32(x as int),
{
    out.push((x % 256) as u8);
    out.push(((x / 256) % 256) as u8);
    out.push(((x / 65536) % 256) as u8);
    out.push((x / 16777216) as u8);
    assert(final(out)@ =~= old(out)@ + le32(x as int));
}

/// Appends the linear16 bytes of `samples`.
pub(crate) fn push_pcm16(out: &mut Vec<u8>, samples: &[i16])
    ensures
        final(out)@ == old(out)@ + pcm16_le(samples@),
{
    let mut i: usize = 0;
    while i < samples.len()
        invariant
            i <= samples.len(),
            out@ == old(out)@ + pcm16_le(samples@.take(i as int)),
        decreases samples.len() - i,
    {
        let s = samples[i];
        let u: u32 = if s < 0 {
            (s as i32 + 65536) as u32
        } else {
            s as u32
        };
        push_le16(out, u);
        assert(samples@.take(i + 1).drop_last() == samples@.take(i as int));
        i = i + 1;
    }
    assert(samples@.take(samples.len() as int) == samples@);
}

/// Converts a mono 16-bit frame to little-endian bytes for linear16 transport.
pub fn frame_to_le_bytes(frame: &[i16]) -> (r: Vec<u8>)
    ensures
        r@ == pcm16_le(frame@),
        r@.len() == 2 * frame@.len(),
{
    let mut out: Vec<u8> = Vec::new();
    push_pcm16(&mut out, frame);
    proof {
        lemma_pcm16_len(frame@);
    }
    out
}

/// Linear16 encoding takes two bytes per sample.
pub proof fn lemma_pcm16_len(samples: Seq<i16>)
    ensures
        pcm16_le(samples).len() == 2 * samples.len(),
    decreases samples.len(),
{
    if samples.len() > 0 {
        lemma_pcm16_len(samples.drop_last());
    }
}

} // verus!
