use vstd::prelude::*;

use crate::error::PipelineError;
use crate::options::{resolve_output_width, resolved_depth, ConversionOptions, Depth, ModalityLut, VoiLut};
use crate::sample::{fits_i64, modality_apply, modality_value, PixelBuffer, Rescale, Window, INTENSITY_UNIT};
use crate::stats::{is_greatest, is_least};
use crate::text::{push_padded, push_str, string_from_chars, zero_padded};

verus! {

/// The VOI step of a resolved transform.
#[derive(Debug, Clone, Copy, PartialEq, Eq, Structural)]
pub enum VoiStep {
    Identity,
    /// Clip to `[center - width / 2, center + width / 2]`.
    Clip(Window),
    /// Map the observed range `[lo, hi]` of the frame onto `[0, 1]`.
    Normalize { lo: i64, hi: i64 },
}

/// The conversion in force for one frame: modality step, VOI step, and
/// whether a window of zero width was turned into the identity.
#[derive(Debug, Clone, Copy, PartialEq, Eq, Structural)]
pub struct Transform {
    pub modality: Option<Rescale>,
    pub voi: VoiStep,
    pub advisory: bool,
}

/// One exported frame, quantized to its depth, in row, column, sample order.
pub struct RasterImage {
    pub frame: u32,
    pub rows: u32,
    pub columns: u32,
    pub samples_per_pixel: u16,
    pub depth: Depth,
    pub transform: Transform,
    pub pixels: Vec<u16>,
}

pub open spec fn clamp(x: int, lo: int, hi: int) -> int {
    if x < lo {
        lo
    } else if x > hi {
        hi
    } else {
        x
    }
}

/// Largest sample value of a depth.
pub open spec fn depth_max(d: Depth) -> int {
    match d {
        Depth::Eight => 255,
        Depth::Sixteen => 65535,
    }
}

/// Display value of an intensity given twice over (`d2 = 2 * v`): clamped
/// to `[0, max]` and rounded half up.
pub open spec fn quantize_doubled(d2: int, max: int) -> int {
    (clamp(d2, 0, 2 * max * INTENSITY_UNIT) + INTENSITY_UNIT) / (2 * INTENSITY_UNIT)
}

/// Display value of intensity `v` after the VOI step.
pub open spec fn display_value(v: int, voi: VoiStep, max: int) -> int {
    match voi {
        VoiStep::Identity => quantize_doubled(2 * v, max),
        VoiStep::Clip(w) => quantize_doubled(
            clamp(2 * v, 2 * w.center - w.width, 2 * w.center + w.width),
            max,
        ),
        VoiStep::Normalize { lo, hi } => if hi == lo {
            0
        } else if 2 * (v - lo) >= hi - lo {
            1
        } else {
            0
        },
    }
}

/// Intensities of one frame under a modality step.
pub open spec fn frame_values(b: &PixelBuffer, frame: int, modality: Option<Rescale>) -> Seq<int> {
    Seq::new(
        b.frame_len() as nat,
        |j: int| modality_value(b.samples@[frame * b.frame_len() + j] as int, modality),
    )
}

/// The VOI step that a window gives: clipping when its width is positive,
/// else the identity with an advisory.
pub open spec fn window_step(w: Window, t: Transform) -> bool {
    if w.width > 0 {
        t.voi == VoiStep::Clip(w) && !t.advisory
    } else {
        t.voi == VoiStep::Identity && t.advisory
    }
}

/// `t` is the transform that `options` select for `frame` of `b`.
pub open spec fn is_resolved(t: Transform, b: &PixelBuffer, frame: int, o: ConversionOptions) -> bool {
    &&& t.modality == (if o.modality == ModalityLut::Default {
        b.effective_rescale_spec(frame)
    } else {
        None
    })
    &&& match o.voi {
        VoiLut::Identity => t.voi == VoiStep::Identity && !t.advisory,
        VoiLut::Custom(w) => window_step(w, t),
        VoiLut::Normalize => {
            &&& t.voi is Normalize
            &&& !t.advisory
            &&& b.frame_len() == 0 ==> t.voi == VoiStep::Normalize { lo: 0, hi: 0 }
            &&& b.frame_len() > 0 ==> is_least(
                t.voi->lo as int,
                frame_values(b, frame, t.modality),
            ) && is_greatest(t.voi->hi as int, frame_values(b, frame, t.modality))
        },
        VoiLut::Default => match b.effective_window_spec(frame) {
            Some(w) => window_step(w, t),
            None => t.voi == VoiStep::Identity && !t.advisory,
        },
    }
}

/// `img` is frame `frame` of `b` exported under `o`.
pub open spec fn is_export(img: RasterImage, b: &PixelBuffer, frame: int, o: ConversionOptions) -> bool {
    &&& img.frame == frame
    &&& img.rows == b.rows
    &&& img.columns == b.columns
    &&& img.samples_per_pixel == b.samples_per_pixel
    &&& img.depth == resolved_depth(o.width, b.bits_allocated)
    &&& is_resolved(img.transform, b, frame, o)
    &&& img.pixels@.len() == b.frame_len()
    &&& forall|j: int|
        0 <= j < b.frame_len() ==> #[trigger] img.pixels@[j] as int == display_value(
            frame_values(b, frame, img.transform.modality)[j],
            img.transform.voi,
            depth_max(img.depth),
        )
}

/// Sample `j` of frame `f` lies inside the buffer, and belongs to frame `f`.
proof fn lemma_frame_position(b: &PixelBuffer, f: int, j: int)
    requires
        b.wf(),
        0 <= f < b.frame_count,
        0 <= j < b.frame_len(),
    ensures
        0 <= f * b.frame_len() + j < b.samples@.len(),
        b.frame_of(f * b.frame_len() + j) == f,
{
    let l = b.frame_len();
    assert(0 <= f * l + j < b.frame_count * l) by (nonlinear_arith)
        requires
            0 <= f < b.frame_count,
            0 <= j < l,
    ;
    vstd::arithmetic::div_mod::lemma_fundamental_div_mod_converse(f * l + j, l, f, j);
}

/// Modality intensities of one frame fit in 64 bits.
proof fn lemma_frame_values_fit(b: &PixelBuffer, f: int, m: Option<Rescale>, j: int)
    requires
        b.wf(),
        0 <= f < b.frame_count,
        0 <= j < b.frame_len(),
        m == b.effective_rescale_spec(f) || m is None,
    ensures
        fits_i64(frame_values(b, f, m)[j]),
        -0x1_0000_0000 <= b.samples@[f * b.frame_len() + j] <= 0x1_0000_0000,
{
    lemma_frame_position(b, f, j);
    let i = f * b.frame_len() + j;
    assert(fits_i64(b.intensity(i)));
    let raw = b.samples@[i] as int;
    assert(-0x1_0000_0000 <= raw <= 0x1_0000_0000);
    if m is None {
        assert(-0x1_0000_0000_0000_0000 <= raw * 1_000_000 <= 0x1_0000_0000_0000_0000)
            by (nonlinear_arith)
            requires
                -0x1_0000_0000 <= raw <= 0x1_0000_0000,
        ;
    }
}

/// Selects the transform for one frame.
pub fn resolve_transform(buffer: &PixelBuffer, frame: u32, options: ConversionOptions) -> (t: Transform)
    requires
        buffer.wf(),
        frame < buffer.frame_count,
    ensures
        is_resolved(t, buffer, frame as int, options),
{
    let modality = match options.modality {
        ModalityLut::Default => buffer.effective_rescale(frame as usize),
        ModalityLut::Disabled => None,
    };
    match options.voi {
        VoiLut::Identity => Transform { modality, voi: VoiStep::Identity, advisory: false },
        VoiLut::Custom(w) => from_window(modality, w),
        VoiLut::Normalize => {
            let (lo, hi) = frame_range(buffer, frame, modality);
            Transform { modality, voi: VoiStep::Normalize { lo, hi }, advisory: false }
        },
        VoiLut::Default => match buffer.effective_window(frame as usize) {
            Some(w) => from_window(modality, w),
            None => Transform { modality, voi: VoiStep::Identity, advisory: false },
        },
    }
}

fn from_window(modality: Option<Rescale>, w: Window) -> (t: Transform)
    ensures
        window_step(w, t),
        t.modality == modality,
{
    if w.width > 0 {
        Transform { modality, voi: VoiStep::Clip(w), advisory: false }
    } else {
        Transform { modality, voi: VoiStep::Identity, advisory: true }
    }
}

/// Least and greatest intensity of one frame, `(0, 0)` for an empty frame.
fn frame_range(buffer: &PixelBuffer, frame: u32, modality: Option<Rescale>) -> (r: (i64, i64))
    requires
        buffer.wf(),
        frame < buffer.frame_count,
        modality == buffer.effective_rescale_spec(frame as int) || modality is None,
    ensures
        buffer.frame_len() == 0 ==> r == (0i64, 0i64),
        buffer.frame_len() > 0 ==> is_least(r.0 as int, frame_values(buffer, frame as int, modality))
            && is_greatest(r.1 as int, frame_values(buffer, frame as int, modality)),
{
    let flen = buffer.frame_length();
    if flen == 0 {
        return (0, 0);
    }
    let ghost vals = frame_values(buffer, frame as int, modality);
    proof {
        lemma_frame_position(buffer, frame as int, flen - 1);
    }
    let fu = frame as usize;
    let len = buffer.samples.len();
    assert(fu * flen < len);
    let base = fu * flen;
    proof {
        lemma_frame_values_fit(buffer, frame as int, modality, 0);
    }
    let first = modality_apply(buffer.samples[base], modality) as i64;
    let mut lo = first;
    let mut hi = first;
    let ghost mut lo_at: int = 0;
    let ghost mut hi_at: int = 0;
    let mut j: usize = 0;
    while j < flen
        invariant
            buffer.wf(),
            frame < buffer.frame_count,
            modality == buffer.effective_rescale_spec(frame as int) || modality is None,
            flen as int == buffer.frame_len(),
            flen > 0,
            base as int == frame as int * flen,
            vals == frame_values(buffer, frame as int, modality),
            j <= flen,
            0 <= lo_at < flen && vals[lo_at] == lo,
            0 <= hi_at < flen && vals[hi_at] == hi,
            forall|k: int| 0 <= k < j ==> lo <= #[trigger] vals[k] <= hi,
        decreases flen - j,
    {
        proof {
            lemma_frame_values_fit(buffer, frame as int, modality, j as int);
            lemma_frame_position(buffer, frame as int, j as int);
        }
        assert(base + j < buffer.samples.len());
        let v = modality_apply(buffer.samples[base + j], modality) as i64;
        assert(vals[j as int] == v);
        if v < lo {
            lo = v;
            proof {
                lo_at = j as int;
            }
        }
        if v > hi {
            hi = v;
            proof {
                hi_at = j as int;
            }
        }
        j = j + 1;
    }
    (lo, hi)
}

/// Rounds a doubled intensity, clamped to `[0, max]`, to a display value.
fn quantize(d2: i128, max: u16) -> (r: u16)
    ensures
        r as int == quantize_doubled(d2 as int, max as int),
{
    let top = 2 * (max as i128) * 1_000_000;
    let c: i128 = if d2 < 0 {
        0
    } else if d2 > top {
        top
    } else {
        d2
    };
    let q = (c as u128 + 1_000_000) / 2_000_000;
    assert(q <= max as int) by (nonlinear_arith)
        requires
            q == (c + 1_000_000) / 2_000_000,
            0 <= c <= 2 * (max as int) * 1_000_000,
    ;
    q as u16
}

/// Display value of one intensity.
fn display(v: i64, voi: VoiStep, max: u16) -> (r: u16)
    ensures
        r as int == display_value(v as int, voi, max as int),
{
    match voi {
        VoiStep::Identity => quantize(2 * (v as i128), max),
        VoiStep::Clip(w) => {
            let d2 = 2 * (v as i128);
            let lo = 2 * (w.center as i128) - w.width as i128;
            let hi = 2 * (w.center as i128) + w.width as i128;
            let c = if d2 < lo {
                lo
            } else if d2 > hi {
                hi
            } else {
                d2
            };
            quantize(c, max)
        },
        VoiStep::Normalize { lo, hi } => {
            if hi == lo {
                0
            } else if 2 * (v as i128 - lo as i128) >= hi as i128 - lo as i128 {
                1
            } else {
                0
            }
        },
    }
}

/// Exports one frame: `FrameOutOfRange` exactly when `frame` is not below
/// the frame count, else the frame under its transform, quantized.
pub fn export_frame(buffer: &PixelBuffer, frame: u32, options: ConversionOptions) -> (r: Result<
    RasterImage,
    PipelineError,
>)
    requires
        buffer.wf(),
    ensures
        frame >= buffer.frame_count <==> r is Err,
        r is Err ==> r == Err::<RasterImage, PipelineError>(PipelineError::FrameOutOfRange),
        r is Ok ==> is_export(r->Ok_0, buffer, frame as int, options),
{
    if frame >= buffer.frame_count {
        return Err(PipelineError::FrameOutOfRange);
    }
    let t = resolve_transform(buffer, frame, options);
    let depth = resolve_output_width(options.width, buffer.bits_allocated);
    let max: u16 = match depth {
        Depth::Eight => 255,
        Depth::Sixteen => 65535,
    };
    let flen = buffer.frame_length();
    let base: usize = if flen == 0 {
        0
    } else {
        proof {
            lemma_frame_position(buffer, frame as int, flen - 1);
        }
        let fu = frame as usize;
        let len = buffer.samples.len();
        assert(fu * flen < len);
        fu * flen
    };
    let mut pixels: Vec<u16> = Vec::new();
    let mut j: usize = 0;
    while j < flen
        invariant
            buffer.wf(),
            frame < buffer.frame_count,
            t.modality == buffer.effective_rescale_spec(frame as int) || t.modality is None,
            flen as int == buffer.frame_len(),
            flen > 0 ==> base as int == frame as int * flen,
            max as int == depth_max(depth),
            j <= flen,
            pixels@.len() == j,
            forall|k: int|
                0 <= k < j ==> #[trigger] pixels@[k] as int == display_value(
                    frame_values(buffer, frame as int, t.modality)[k],
                    t.voi,
                    max as int,
                ),
        decreases flen - j,
    {
        proof {
            lemma_frame_values_fit(buffer, frame as int, t.modality, j as int);
            lemma_frame_position(buffer, frame as int, j as int);
        }
        assert(base + j < buffer.samples.len());
        let v = modality_apply(buffer.samples[base + j], t.modality) as i64;
        pixels.push(display(v, t.voi, max));
        j = j + 1;
    }
    Ok(
        RasterImage {
            frame,
            rows: buffer.rows,
            columns: buffer.columns,
            samples_per_pixel: buffer.samples_per_pixel,
            depth,
            transform: t,
            pixels,
        },
    )
}

/// Exports the requested frame, or every frame in ascending order when none
/// is requested. A requested frame that is not below the frame count is
/// `FrameOutOfRange`, and then nothing is exported.
pub fn export_frames(buffer: &PixelBuffer, frame: Option<u32>, options: ConversionOptions) -> (r:
    Result<Vec<RasterImage>, PipelineError>)
    requires
        buffer.wf(),
    ensures
        frame is Some && frame->0 >= buffer.frame_count <==> r is Err,
        r is Err ==> r == Err::<Vec<RasterImage>, PipelineError>(PipelineError::FrameOutOfRange),
        r is Ok && frame is Some ==> r->Ok_0@.len() == 1 && is_export(
            r->Ok_0@[0],
            buffer,
            frame->0 as int,
            options,
        ),
        r is Ok && frame is None ==> r->Ok_0@.len() == buffer.frame_count && forall|i: int|
            0 <= i < buffer.frame_count ==> is_export(#[trigger] r->Ok_0@[i], buffer, i, options),
{
    match frame {
        Some(f) => {
            let img = export_frame(buffer, f, options)?;
            let mut out: Vec<RasterImage> = Vec::new();
            out.push(img);
            Ok(out)
        },
        None => {
            let mut out: Vec<RasterImage> = Vec::new();
            let mut f: u32 = 0;
            while f < buffer.frame_count
                invariant
                    buffer.wf(),
                    f <= buffer.frame_count,
                    out@.len() == f,
                    forall|i: int| 0 <= i < f ==> is_export(#[trigger] out@[i], buffer, i, options),
                decreases buffer.frame_count - f,
            {
                let img = match export_frame(buffer, f, options) {
                    Ok(img) => img,
                    Err(e) => {
                        return Err(e);
                    },
                };
                out.push(img);
                f = f + 1;
            }
            Ok(out)
        },
    }
}

/// File name of one frame of a multi-frame export:
/// `<stem>_frame<NNN>.<ext>`, the index zero-padded to three digits.
pub fn frame_file_name(stem: &str, frame: u32, extension: &str) -> (r: String)
    ensures
        r@ == stem@ + "_frame"@ + zero_padded(frame as nat, 3) + "."@ + extension@,
{
    let mut out: Vec<char> = Vec::new();
    push_str(&mut out, stem);
    push_str(&mut out, "_frame");
    push_padded(&mut out, frame, 3);
    push_str(&mut out, ".");
    push_str(&mut out, extension);
    proof {
        assert(out@ =~= stem@ + "_frame"@ + zero_padded(frame as nat, 3) + "."@ + extension@);
    }
    string_from_chars(&out)
}

} // verus!
