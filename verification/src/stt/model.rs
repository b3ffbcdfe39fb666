//! Local Whisper models: the small catalog of supported models, where a model file
//! lives, when a file on disk is plausibly complete, and how download progress is
//! reported. The download and the file system belong to the application.

use vstd::prelude::*;

use crate::config::{join_path, path_joined};
use crate::text::{ascii_lowercase, concat_str, decimal, eq_ignore_ascii_case, push_decimal};

verus! {

/// A model in the catalog: its configuration name, its file name, its download URL, and
/// an approximate size in bytes used to reject truncated files.
#[derive(Debug, Clone, Copy)]
pub struct ModelInfo {
    pub name: &'static str,
    pub file: &'static str,
    pub url: &'static str,
    pub approx_bytes: u64,
}

/// The abstract content of a [`ModelInfo`].
pub struct ModelInfoView {
    pub name: Seq<char>,
    pub file: Seq<char>,
    pub url: Seq<char>,
    pub approx_bytes: u64,
}

impl View for ModelInfo {
    type V = ModelInfoView;

    open spec fn view(&self) -> ModelInfoView {
        ModelInfoView { name: self.name@, file: self.file@, url: self.url@, approx_bytes: self.approx_bytes }
    }
}

/// The supported models, in order: `tiny`, `base` (the default), `base.en`, `small`.
pub open spec fn catalog() -> Seq<ModelInfoView> {
    seq![
        ModelInfoView {
            name: "tiny"@,
            file: "ggml-tiny.bin"@,
            url: "https://huggingface.co/ggerganov/whisper.cpp/resolve/main/ggml-tiny.bin"@,
            approx_bytes: 75_000_000,
        },
        ModelInfoView {
            name: "base"@,
            file: "ggml-base.bin"@,
            url: "https://huggingface.co/ggerganov/whisper.cpp/resolve/main/ggml-base.bin"@,
            approx_bytes: 142_000_000,
        },
        ModelInfoView {
            name: "base.en"@,
            file: "ggml-base.en.bin"@,
            url: "https://huggingface.co/ggerganov/whisper.cpp/resolve/main/ggml-base.en.bin"@,
            approx_bytes: 142_000_000,
        },
        ModelInfoView {
            name: "small"@,
            file: "ggml-small.bin"@,
            url: "https://huggingface.co/ggerganov/whisper.cpp/resolve/main/ggml-small.bin"@,
            approx_bytes: 466_000_000,
        },
    ]
}

/// The supported models: a good accuracy/speed balance for dictation is `base`.
pub fn models() -> (r: Vec<ModelInfo>)
    ensures
        r@.len() == catalog().len(),
        forall|i: int| 0 <= i < r@.len() ==> #[trigger] r@[i]@ == catalog()[i],
{
    let mut v: Vec<ModelInfo> = Vec::new();
    v.push(ModelInfo {
        name: "tiny",
        file: "ggml-tiny.bin",
        url: "https://huggingface.co/ggerganov/whisper.cpp/resolve/main/ggml-tiny.bin",
        approx_bytes: 75_000_000,
    });
    v.push(ModelInfo {
        name: "base",
        file: "ggml-base.bin",
        url: "https://huggingface.co/ggerganov/whisper.cpp/resolve/main/ggml-base.bin",
        approx_bytes: 142_000_000,
    });
    v.push(ModelInfo {
        name: "base.en",
        file: "ggml-base.en.bin",
        url: "https://huggingface.co/ggerganov/whisper.cpp/resolve/main/ggml-base.en.bin",
        approx_bytes: 142_000_000,
    });
    v.push(ModelInfo {
        name: "small",
        file: "ggml-small.bin",
        url: "https://huggingface.co/ggerganov/whisper.cpp/resolve/main/ggml-small.bin",
        approx_bytes: 466_000_000,
    });
    v
}

/// The first catalog entry at or after `i` whose name equals `name` ignoring ASCII case,
/// or `base` when there is none.
pub open spec fn resolve_from(name: Seq<char>, i: int) -> ModelInfoView
    decreases catalog().len() - i,
{
    if i < 0 || i >= catalog().len() {
        catalog()[1]
    } else if ascii_lowercase(catalog()[i].name) == ascii_lowercase(name) {
        catalog()[i]
    } else {
        resolve_from(name, i + 1)
    }
}

/// Looks up a model by name (ignoring ASCII case), falling back to `base` for unknown
/// names.
pub fn resolve(name: &str) -> (r: ModelInfo)
    ensures
        r@ == resolve_from(name@, 0),
{
    let ms = models();
    let mut i: usize = 0;
    while i < ms.len()
        invariant
            i <= ms.len(),
            ms@.len() == catalog().len(),
            forall|k: int| 0 <= k < ms@.len() ==> #[trigger] ms@[k]@ == catalog()[k],
            resolve_from(name@, 0) == resolve_from(name@, i as int),
        decreases ms.len() - i,
    {
        assert(ms@[i as int]@ == catalog()[i as int]);
        if eq_ignore_ascii_case(ms[i].name, name) {
            return ms[i];
        }
        i = i + 1;
    }
    assert(ms@[1]@ == catalog()[1]);
    ms[1]
}

/// The directory where models are stored, inside the data directory.
pub fn models_dir(data_dir: &str) -> (r: String)
    ensures
        r@ == path_joined(data_dir@, "models"@),
{
    join_path(data_dir, "models")
}

/// Full path to a model's file inside the models directory (whether or not it exists).
pub fn model_path(info: &ModelInfo, models_dir: &str) -> (r: String)
    ensures
        r@ == path_joined(models_dir@, info@.file),
{
    join_path(models_dir, info.file)
}

/// A file is plausibly complete when it holds at least about 80% of the expected size.
pub open spec fn complete_enough(len: u64, approx: u64) -> bool {
    len >= approx / 5 * 4
}

/// Whether a model file of `len` bytes is plausibly complete.
pub fn plausibly_complete(len: u64, info: &ModelInfo) -> (r: bool)
    ensures
        r == complete_enough(len, info.approx_bytes),
{
    len >= info.approx_bytes / 5 * 4
}

/// The size a download is measured against: the announced length, or the catalog size.
pub fn download_total(content_length: Option<u64>, info: &ModelInfo) -> (r: u64)
    ensures
        r == match content_length {
            Some(n) => n,
            None => info.approx_bytes,
        },
{
    match content_length {
        Some(n) => n,
        None => info.approx_bytes,
    }
}

/// The percentage shown for `downloaded` of `total` bytes: at most 100.
pub open spec fn percent(downloaded: u64, total: u64) -> int {
    let scaled = if downloaded * 100 > u64::MAX {
        u64::MAX as int
    } else {
        downloaded * 100
    };
    let p = scaled / (if total == 0 {
        1
    } else {
        total as int
    });
    if p > 100 {
        100
    } else {
        p
    }
}

/// Download progress: the bytes received so far and the last percentage reported.
#[derive(Debug, Clone, Copy)]
pub struct Progress {
    pub downloaded: u64,
    pub last_pct: u64,
}

impl Progress {
    /// Nothing received, nothing reported.
    pub fn new() -> (r: Progress)
        ensures
            r.downloaded == 0,
            r.last_pct == u64::MAX,
    {
        Progress { downloaded: 0, last_pct: u64::MAX }
    }

    /// Records a chunk of `len` bytes. Reports the new percentage when it is a multiple of
    /// 5 that differs from the last one reported.
    pub fn on_chunk(&mut self, len: u64, total: u64) -> (r: Option<u64>)
        requires
            old(self).downloaded + len <= u64::MAX,
        ensures
            final(self).downloaded == old(self).downloaded + len,
            ({
                let p = percent(final(self).downloaded, total);
                if p != old(self).last_pct && p % 5 == 0 {
                    r == Some(p as u64) && final(self).last_pct == p
                } else {
                    r is None && final(self).last_pct == old(self).last_pct
                }
            }),
            r matches Some(p) ==> p <= 100 && p % 5 == 0,
    {
        self.downloaded = self.downloaded + len;
        let scaled: u64 = if self.downloaded > u64::MAX / 100 {
            u64::MAX
        } else {
            self.downloaded * 100
        };
        let denom = if total >= 1 {
            total
        } else {
            1
        };
        let q = scaled / denom;
        let pct = if q < 100 {
            q
        } else {
            100
        };
        if pct != self.last_pct && pct % 5 == 0 {
            self.last_pct = pct;
            Some(pct)
        } else {
            None
        }
    }
}

/// A download percentage lies between 0 and 100, whatever the sizes.
pub proof fn lemma_percent_bounded(downloaded: u64, total: u64)
    ensures
        0 <= percent(downloaded, total) <= 100,
{
}

/// `"Downloading Whisper model '{name}'…"`.
pub fn downloading_message(info: &ModelInfo) -> (r: String)
    ensures
        r@ == "Downloading Whisper model '"@ + info@.name + "'\u{2026}"@,
{
    let mut m = "Downloading Whisper model '".to_owned();
    m.append(info.name);
    m.append("'\u{2026}");
    m
}

/// `"Downloading model '{name}'… {pct}%"`.
pub fn progress_message(info: &ModelInfo, pct: u64) -> (r: String)
    ensures
        r@ == "Downloading model '"@ + info@.name + "'\u{2026} "@ + decimal(pct as nat) + "%"@,
{
    let mut m = "Downloading model '".to_owned();
    m.append(info.name);
    m.append("'\u{2026} ");
    push_decimal(&mut m, pct);
    m.append("%");
    m
}

/// `"Model '{name}' ready"`.
pub fn ready_message(info: &ModelInfo) -> (r: String)
    ensures
        r@ == "Model '"@ + info@.name + "' ready"@,
{
    let mut m = "Model '".to_owned();
    m.append(info.name);
    m.append("' ready");
    m
}

/// `"downloaded model looks incomplete ({got} bytes); please try again"`.
pub fn incomplete_message(got: u64) -> (r: String)
    ensures
        r@ == "downloaded model looks incomplete ("@ + decimal(got as nat) + " bytes); please try again"@,
{
    let mut m = "downloaded model looks incomplete (".to_owned();
    push_decimal(&mut m, got);
    m.append(" bytes); please try again");
    m
}

} // verus!
