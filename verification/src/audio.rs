//! Audio sample handling: which input device and sample format a capture uses, and how
//! interleaved multi-channel input is down-mixed to mono 16-bit PCM by averaging each
//! frame. Talking to the audio devices belongs to the application.

use vstd::prelude::*;

use crate::text::{concat_str, same_text};

verus! {

/// The sample format a device delivers.
pub enum SampleKind {
    F32,
    I16,
    U16,
    /// Any other format, by its name.
    Other(String),
}

/// The device a capture opens.
#[derive(PartialEq, Eq, Structural, Debug, Clone, Copy)]
pub enum DevicePick {
    /// The listed device at this index.
    Listed(usize),
    /// The system's default input device.
    Default,
}

/// The error when no device can be opened.
pub open spec fn no_device_text() -> Seq<char> {
    "no input (microphone) device available"@
}

/// The name wanted, empty when none is.
pub open spec fn wanted_text(wanted: Option<&str>) -> Seq<char> {
    match wanted {
        Some(w) => w@,
        None => seq![],
    }
}

/// A device named `wanted` is listed.
pub open spec fn is_listed(names: Seq<String>, wanted: Option<&str>) -> bool {
    match wanted {
        Some(w) => exists|i: int| 0 <= i < names.len() && #[trigger] names[i]@ == w@,
        None => false,
    }
}

/// Entry point for starting microphone capture: the choices made before the stream is
/// built.
pub struct AudioCapture;

impl AudioCapture {
    /// Which device to open: the first listed device named `wanted`; otherwise (no name
    /// wanted, or none matches) the system default, if there is one.
    pub fn pick_device(names: &Vec<String>, wanted: Option<&str>, has_default: bool) -> (r: Result<DevicePick, String>)
        ensures
            is_listed(names@, wanted) ==> (r matches Ok(DevicePick::Listed(i)) && i < names@.len()
                && names@[i as int]@ == wanted_text(wanted)
                && forall|k: int| 0 <= k < i ==> #[trigger] names@[k]@ != wanted_text(wanted)),
            !is_listed(names@, wanted) && has_default ==> r == Ok::<DevicePick, String>(DevicePick::Default),
            !is_listed(names@, wanted) && !has_default ==> (r matches Err(e) && e@ == no_device_text()),
    {
        if let Some(w) = wanted {
            let mut i: usize = 0;
            while i < names.len()
                invariant
                    i <= names@.len(),
                    wanted == Some(w),
                    forall|k: int| 0 <= k < i ==> #[trigger] names@[k]@ != w@,
                decreases names.len() - i,
            {
                if same_text(names[i].as_str(), w) {
                    assert(names@[i as int]@ == w@);
                    assert(is_listed(names@, wanted));
                    return Ok(DevicePick::Listed(i));
                }
                i = i + 1;
            }
        }
        if has_default {
            Ok(DevicePick::Default)
        } else {
            Err("no input (microphone) device available".to_owned())
        }
    }

    /// Whether a stream can be built for the format: 32-bit float, signed or unsigned
    /// 16-bit samples; any other is refused as `"unsupported sample format: <name>"`.
    pub fn check_format(kind: &SampleKind) -> (r: Result<(), String>)
        ensures
            match kind {
                SampleKind::Other(name) => r matches Err(e) && e@ == "unsupported sample format: "@ + name@,
                _ => r is Ok,
            },
    {
        match kind {
            SampleKind::Other(name) => Err(concat_str("unsupported sample format: ", name.as_str())),
            _ => Ok(()),
        }
    }
}

/// The sum of a sequence of integers.
pub open spec fn sum(s: Seq<int>) -> int
    decreases s.len(),
{
    if s.len() == 0 {
        0
    } else {
        sum(s.drop_last()) + s.last()
    }
}

/// Integer division rounding toward zero (what `/` on `i32` does), for `b > 0`.
pub open spec fn tdiv(a: int, b: int) -> int {
    if a >= 0 {
        a / b
    } else {
        -((-a) / b)
    }
}

/// Averages consecutive frames of `ch` samples; the last frame may be shorter but is
/// still divided by `ch`.
pub open spec fn mix_frames(s: Seq<int>, ch: nat) -> Seq<int>
    decreases s.len(),
{
    if s.len() == 0 || ch == 0 {
        seq![]
    } else if s.len() <= ch {
        seq![tdiv(sum(s), ch as int)]
    } else {
        seq![tdiv(sum(s.take(ch as int)), ch as int)] + mix_frames(s.skip(ch as int), ch)
    }
}

/// The values of 32-bit integers.
pub open spec fn i32_values(d: Seq<i32>) -> Seq<int> {
    d.map_values(|x: i32| x as int)
}

/// The values of signed samples.
pub open spec fn i16_values(d: Seq<i16>) -> Seq<int> {
    d.map_values(|x: i16| x as int)
}

/// The values of unsigned samples, re-centred on zero (`s - 32768`).
pub open spec fn u16_values(d: Seq<u16>) -> Seq<int> {
    d.map_values(|x: u16| x - 32768)
}

/// The mono samples for interleaved `values` with `ch` channels.
pub open spec fn downmixed(values: Seq<int>, ch: nat) -> Seq<int> {
    if ch <= 1 {
        values
    } else {
        mix_frames(values, ch)
    }
}

proof fn lemma_sum_bounds(s: Seq<int>)
    requires
        forall|i: int| 0 <= i < s.len() ==> -32768 <= #[trigger] s[i] <= 32767,
    ensures
        -32768 * s.len() <= sum(s) <= 32767 * s.len(),
    decreases s.len(),
{
    if s.len() > 0 {
        lemma_sum_bounds(s.drop_last());
    }
}

/// Averages frames of `channels` values (each in `-32768..=32767`) into mono samples.
fn mix(values: &Vec<i32>, channels: usize) -> (r: Vec<i16>)
    requires
        2 <= channels <= 65535,
        forall|i: int| 0 <= i < values@.len() ==> -32768 <= #[trigger] values@[i] <= 32767,
    ensures
        i16_values(r@) == mix_frames(i32_values(values@), channels as nat),
{
    let ghost vals = i32_values(values@);
    let n = values.len();
    let mut out: Vec<i16> = Vec::new();
    let mut i: usize = 0;
    assert(vals.skip(0) == vals);
    while i < n
        invariant
            i <= n,
            n == values.len(),
            2 <= channels <= 65535,
            vals == i32_values(values@),
            forall|k: int| 0 <= k < values@.len() ==> -32768 <= #[trigger] values@[k] <= 32767,
            mix_frames(vals, channels as nat) == i16_values(out@) + mix_frames(vals.skip(i as int), channels as nat),
        decreases n - i,
    {
        let end = if n - i <= channels {
            n
        } else {
            i + channels
        };
        let mut acc: i32 = 0;
        let mut j = i;
        while j < end
            invariant
                i <= j <= end <= n,
                n == values.len(),
                end - i <= channels <= 65535,
                vals == i32_values(values@),
                forall|k: int| 0 <= k < values@.len() ==> -32768 <= #[trigger] values@[k] <= 32767,
                acc == sum(vals.subrange(i as int, j as int)),
                -32768 * (j - i) <= acc <= 32767 * (j - i),
            decreases end - j,
        {
            assert(vals.subrange(i as int, j + 1).drop_last() == vals.subrange(i as int, j as int));
            acc = acc + values[j];
            j = j + 1;
        }
        let ghost frame = vals.subrange(i as int, end as int);
        let ch = channels as u32;
        let q: i32 = if acc >= 0 {
            let a = acc as u32;
            assert(a / ch <= 32767) by (nonlinear_arith)
                requires
                    a <= 32767 * ch,
                    ch >= 2,
            ;
            (a / ch) as i32
        } else {
            let a = (-acc) as u32;
            assert(a / ch <= 32768) by (nonlinear_arith)
                requires
                    a <= 32768 * ch,
                    ch >= 2,
            ;
            -((a / ch) as i32)
        };
        assert(q == tdiv(sum(frame), channels as int));
        let ghost before = out@;
        out.push(q as i16);
        proof {
            let rest = vals.skip(i as int);
            if n - i <= channels {
                assert(rest == frame);
                assert(mix_frames(rest, channels as nat) == seq![tdiv(sum(frame), channels as int)]);
                assert(vals.skip(end as int).len() == 0);
            } else {
                assert(rest.take(channels as int) == frame);
                assert(rest.skip(channels as int) == vals.skip(end as int));
            }
            assert(i16_values(out@) == i16_values(before) + seq![q as int]);
        }
        i = end;
    }
    out
}

/// Down-mixes interleaved signed 16-bit samples to mono by averaging each frame.
pub fn downmix_i16(data: &[i16], channels: usize) -> (r: Vec<i16>)
    requires
        channels <= 65535,
    ensures
        i16_values(r@) == downmixed(i16_values(data@), channels as nat),
{
    let mut values: Vec<i32> = Vec::new();
    let mut i: usize = 0;
    while i < data.len()
        invariant
            i <= data.len(),
            values@.len() == i,
            i32_values(values@) == i16_values(data@.take(i as int)),
            forall|k: int| 0 <= k < values@.len() ==> -32768 <= #[trigger] values@[k] <= 32767,
        decreases data.len() - i,
    {
        let ghost before = values@;
        values.push(data[i] as i32);
        assert(forall|k: int| 0 <= k < i ==> values@[k] == before[k]);
        assert forall|k: int| 0 <= k < i + 1 implies #[trigger] i32_values(values@)[k] == i16_values(data@.take(i + 1))[k] by {
            if k < i {
                assert(i32_values(before)[k] == i16_values(data@.take(i as int))[k]);
            }
        }
        assert(i32_values(values@) =~= i16_values(data@.take(i + 1)));
        i = i + 1;
    }
    assert(data@.take(data.len() as int) == data@);
    if channels <= 1 {
        let mut out: Vec<i16> = Vec::new();
        let mut k: usize = 0;
        while k < data.len()
            invariant
                k <= data.len(),
                out@ == data@.take(k as int),
            decreases data.len() - k,
        {
            out.push(data[k]);
            assert(data@.take(k + 1) == data@.take(k as int).push(data@[k as int]));
            k = k + 1;
        }
        return out;
    }
    mix(&values, channels)
}

/// Down-mixes interleaved unsigned 16-bit samples to mono: each sample is re-centred
/// (`s - 32768`), then each frame is averaged.
pub fn downmix_u16(data: &[u16], channels: usize) -> (r: Vec<i16>)
    requires
        channels <= 65535,
    ensures
        i16_values(r@) == downmixed(u16_values(data@), channels as nat),
{
    let mut values: Vec<i32> = Vec::new();
    let mut i: usize = 0;
    while i < data.len()
        invariant
            i <= data.len(),
            values@.len() == i,
            i32_values(values@) == u16_values(data@.take(i as int)),
            forall|k: int| 0 <= k < values@.len() ==> -32768 <= #[trigger] values@[k] <= 32767,
        decreases data.len() - i,
    {
        let ghost before = values@;
        values.push(data[i] as i32 - 32768);
        assert(forall|k: int| 0 <= k < i ==> values@[k] == before[k]);
        assert forall|k: int| 0 <= k < i + 1 implies #[trigger] i32_values(values@)[k] == u16_values(data@.take(i + 1))[k] by {
            if k < i {
                assert(i32_values(before)[k] == u16_values(data@.take(i as int))[k]);
            }
        }
        assert(i32_values(values@) =~= u16_values(data@.take(i + 1)));
        i = i + 1;
    }
    assert(data@.take(data.len() as int) == data@);
    if channels <= 1 {
        let mut out: Vec<i16> = Vec::new();
        let mut k: usize = 0;
        while k < values.len()
            invariant
                k <= values.len(),
                forall|m: int| 0 <= m < values@.len() ==> -32768 <= #[trigger] values@[m] <= 32767,
                out@.len() == k,
                i16_values(out@) == i32_values(values@).take(k as int),
            decreases values.len() - k,
        {
            let ghost before = out@;
            out.push(values[k] as i16);
            assert(forall|m: int| 0 <= m < k ==> out@[m] == before[m]);
            assert(i16_values(out@) =~= i32_values(values@).take(k + 1));
            k = k + 1;
        }
        assert(i32_values(values@).take(values.len() as int) == i32_values(values@));
        return out;
    }
    mix(&values, channels)
}

} // verus!
