//! Local Whisper transcription: the language hint handed to whisper.cpp and the number
//! of inference threads. Loading the model, resampling and inference belong to the
//! application.

use vstd::prelude::*;

use crate::text::{before_first, lowercase_of, prefix_before, same_text, to_lowercase, trim, trimmed};

verus! {

/// The sample rate Whisper expects.
pub const TARGET_RATE: u32 = 16_000;

/// The language Whisper is told: the tag up to its first `-`, trimmed and lower-cased;
/// `None` (auto-detect) when that is empty or `"auto"`.
pub open spec fn whisper_language(language: Seq<char>) -> Option<Seq<char>> {
    let base = lowercase_of(trimmed(before_first(language, '-')));
    if base.len() == 0 || base == "auto"@ {
        None
    } else {
        Some(base)
    }
}

/// The hint for an already lower-cased base code: none (auto-detect) when it is empty or
/// `"auto"`, the code itself otherwise.
pub fn language_hint(base: String) -> (r: Option<String>)
    ensures
        match r {
            Some(l) => l@ == base@ && base@.len() > 0 && base@ != "auto"@,
            None => base@.len() == 0 || base@ == "auto"@,
        },
{
    if base.as_str().is_empty() || same_text(base.as_str(), "auto") {
        None
    } else {
        Some(base)
    }
}

/// Whisper wants a bare ISO-639-1 code (e.g. `"en"`): drops any region suffix. An empty
/// or `"auto"` language lets Whisper auto-detect.
pub fn normalize_lang(language: &str) -> (r: Option<String>)
    ensures
        match r {
            Some(l) => whisper_language(language@) == Some(l@),
            None => whisper_language(language@) is None,
        },
{
    let first = prefix_before(language, '-');
    let t = trim(first.as_str());
    language_hint(to_lowercase(t.as_str()))
}

/// Inference threads: one less than the available parallelism, between 1 and 8; 4 when
/// the parallelism is unknown.
pub open spec fn thread_count(available: Option<usize>) -> i32 {
    match available {
        Some(n) => if n <= 2 {
            1
        } else if n - 1 >= 8 {
            8
        } else {
            (n - 1) as i32
        },
        None => 4,
    }
}

/// The number of threads to run inference on, from `std::thread::available_parallelism`.
pub fn inference_threads(available: Option<usize>) -> (r: i32)
    ensures
        r == thread_count(available),
        1 <= r <= 8,
{
    match available {
        Some(n) => {
            let m = if n >= 1 {
                n - 1
            } else {
                0
            };
            if m < 1 {
                1
            } else if m > 8 {
                8
            } else {
                m as i32
            }
        },
        None => 4,
    }
}

/// Whisper needs at least one second of audio: the number of silent samples to append to
/// a clip of `len` samples at 16 kHz.
pub fn padding_needed(len: usize) -> (r: usize)
    ensures
        r as int == if len < TARGET_RATE {
            TARGET_RATE - len
        } else {
            0
        },
{
    if len < 16_000 {
        16_000 - len
    } else {
        0
    }
}

} // verus!
