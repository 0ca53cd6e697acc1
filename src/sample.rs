use vstd::prelude::*;

use crate::error::PipelineError;

verus! {

/// Fixed-point unit of every intensity: an integer `n` stands for the value
/// `n / INTENSITY_UNIT`. Rescale slopes and intercepts, window centers and
/// widths use the same unit.
pub const INTENSITY_UNIT: i64 = 1_000_000;

/// Whether stored samples are two's complement or plain binary.
#[derive(Debug, Clone, Copy, PartialEq, Eq, Structural)]
pub enum Signedness {
    Unsigned,
    Signed,
}

/// Modality rescale `value = raw * slope + intercept`, both in intensity units.
#[derive(Debug, Clone, Copy, PartialEq, Eq, Structural)]
pub struct Rescale {
    pub slope: i64,
    pub intercept: i64,
}

/// A VOI window, center and width in intensity units.
#[derive(Debug, Clone, Copy, PartialEq, Eq, Structural)]
pub struct Window {
    pub center: i64,
    pub width: i64,
}

/// Smallest stored value that a sample of the given width and signedness holds.
pub open spec fn native_min(bits: u16, sign: Signedness) -> int {
    match sign {
        Signedness::Unsigned => 0,
        Signedness::Signed => -pow2_int(bits - 1),
    }
}

/// Largest stored value that a sample of the given width and signedness holds.
pub open spec fn native_max(bits: u16, sign: Signedness) -> int {
    match sign {
        Signedness::Unsigned => pow2_int(bits as int) - 1,
        Signedness::Signed => pow2_int(bits - 1) - 1,
    }
}

/// Two to the power `n`, for the three native widths and their halves.
pub open spec fn pow2_int(n: int) -> int {
    if n == 7 {
        0x80
    } else if n == 8 {
        0x100
    } else if n == 15 {
        0x8000
    } else if n == 16 {
        0x1_0000
    } else if n == 31 {
        0x8000_0000
    } else {
        0x1_0000_0000
    }
}

/// Value of one raw sample after the modality step.
pub open spec fn modality_value(raw: int, rescale: Option<Rescale>) -> int {
    match rescale {
        Some(r) => raw * r.slope + r.intercept,
        None => raw * INTENSITY_UNIT,
    }
}

pub open spec fn fits_i64(v: int) -> bool {
    i64::MIN <= v <= i64::MAX
}

/// One decoded pixel buffer: its geometry, its sample format, its optional
/// buffer-level and per-frame rescale and window, and its raw samples in
/// frame, row, column, sample order.
pub struct PixelBuffer {
    pub rows: u32,
    pub columns: u32,
    pub frame_count: u32,
    pub samples_per_pixel: u16,
    pub bits_allocated: u16,
    pub bits_stored: u16,
    pub high_bit: u16,
    pub signedness: Signedness,
    pub photometric_interpretation: String,
    pub planar_configuration: Option<u16>,
    pub rescale: Option<Rescale>,
    pub frame_rescales: Vec<Option<Rescale>>,
    pub window: Option<Window>,
    pub frame_windows: Vec<Option<Window>>,
    pub samples: Vec<i64>,
}

impl PixelBuffer {
    /// Number of samples in one frame.
    pub open spec fn frame_len(&self) -> int {
        self.rows as int * self.columns as int * self.samples_per_pixel as int
    }

    /// Rescale in force for a frame: its own if it has one, else the buffer's.
    pub open spec fn effective_rescale_spec(&self, frame: int) -> Option<Rescale> {
        if 0 <= frame < self.frame_rescales@.len() && self.frame_rescales@[frame] is Some {
            self.frame_rescales@[frame]
        } else {
            self.rescale
        }
    }

    /// Window in force for a frame: its own if it has one, else the buffer's.
    pub open spec fn effective_window_spec(&self, frame: int) -> Option<Window> {
        if 0 <= frame < self.frame_windows@.len() && self.frame_windows@[frame] is Some {
            self.frame_windows@[frame]
        } else {
            self.window
        }
    }

    /// Frame that the sample at flat index `i` belongs to.
    pub open spec fn frame_of(&self, i: int) -> int {
        i / self.frame_len()
    }

    /// Intensity of the sample at flat index `i` after the modality step.
    pub open spec fn intensity(&self, i: int) -> int {
        modality_value(self.samples@[i] as int, self.effective_rescale_spec(self.frame_of(i)))
    }

    /// The intensities of all frames, in sample order.
    pub open spec fn intensities(&self) -> Seq<int> {
        Seq::new(self.samples@.len(), |i: int| self.intensity(i))
    }

    /// The raw samples of all frames as integers.
    pub open spec fn raw_values(&self) -> Seq<int> {
        Seq::new(self.samples@.len(), |i: int| self.samples@[i] as int)
    }

    pub open spec fn format_ok(&self) -> bool {
        &&& (self.bits_allocated == 8 || self.bits_allocated == 16 || self.bits_allocated == 32)
        &&& 1 <= self.bits_stored <= self.bits_allocated
        &&& self.high_bit == self.bits_stored - 1
        &&& self.frame_count >= 1
    }

    /// The buffer's invariant: a consistent format, one sample per position of
    /// every frame, each sample within its native range, and every
    /// intensity representable in 64 bits.
    pub open spec fn wf(&self) -> bool {
        &&& self.format_ok()
        &&& self.samples@.len() == self.frame_count as int * self.frame_len()
        &&& forall|i: int|
            0 <= i < self.samples@.len() ==> native_min(self.bits_allocated, self.signedness)
                <= #[trigger] self.samples@[i] <= native_max(self.bits_allocated, self.signedness)
        &&& forall|i: int| 0 <= i < self.samples@.len() ==> fits_i64(#[trigger] self.intensity(i))
    }
}


/// Modality step for one raw sample.
pub fn modality_apply(raw: i64, rescale: Option<Rescale>) -> (r: i128)
    requires
        -0x1_0000_0000 <= raw <= 0x1_0000_0000,
    ensures
        r as int == modality_value(raw as int, rescale),
{
    match rescale {
        Some(rs) => {
            let a = raw as i128;
            let b = rs.slope as i128;
            assert(-0x1_0000_0000_0000_0000_0000_0000 <= a * b <= 0x1_0000_0000_0000_0000_0000_0000)
                by (nonlinear_arith)
                requires
                    -0x1_0000_0000 <= a <= 0x1_0000_0000,
                    -0x8000_0000_0000_0000 <= b <= 0x8000_0000_0000_0000,
            ;
            a * b + rs.intercept as i128
        },
        None => {
            let a = raw as i128;
            assert(-0x1_0000_0000_0000_0000 <= a * 1_000_000 <= 0x1_0000_0000_0000_0000)
                by (nonlinear_arith)
                requires
                    -0x1_0000_0000 <= a <= 0x1_0000_0000,
            ;
            a * 1_000_000
        },
    }
}

/// Whether `raw` lies in the native range of the given width and signedness.
pub fn in_native_range(raw: i64, bits: u16, sign: Signedness) -> (r: bool)
    requires
        bits == 8 || bits == 16 || bits == 32,
    ensures
        r == (native_min(bits, sign) <= raw <= native_max(bits, sign)),
{
    match sign {
        Signedness::Unsigned => {
            if bits == 8 {
                0 <= raw && raw <= 0xff
            } else if bits == 16 {
                0 <= raw && raw <= 0xffff
            } else {
                0 <= raw && raw <= 0xffff_ffff
            }
        },
        Signedness::Signed => {
            if bits == 8 {
                -0x80 <= raw && raw <= 0x7f
            } else if bits == 16 {
                -0x8000 <= raw && raw <= 0x7fff
            } else {
                -0x8000_0000 <= raw && raw <= 0x7fff_ffff
            }
        },
    }
}

/// Number of pixel positions in a frame of the given size.
fn frame_area(rows: u32, columns: u32) -> (r: u128)
    ensures
        r as int == rows as int * columns as int,
        r <= 0xffff_ffff_ffff_ffff,
{
    let a = rows as u128;
    let b = columns as u128;
    assert(a * b <= 0xffff_ffff_ffff_ffff) by (nonlinear_arith)
        requires
            a <= 0xffff_ffff,
            b <= 0xffff_ffff,
    ;
    a * b
}

impl PixelBuffer {
    /// Rescale in force for `frame` (see `effective_rescale_spec`).
    pub fn effective_rescale(&self, frame: usize) -> (r: Option<Rescale>)
        ensures
            r == self.effective_rescale_spec(frame as int),
    {
        if frame < self.frame_rescales.len() {
            match self.frame_rescales[frame] {
                Some(rs) => {
                    return Some(rs);
                },
                None => {},
            }
        }
        self.rescale
    }

    /// Window in force for `frame` (see `effective_window_spec`).
    pub fn effective_window(&self, frame: usize) -> (r: Option<Window>)
        ensures
            r == self.effective_window_spec(frame as int),
    {
        if frame < self.frame_windows.len() {
            match self.frame_windows[frame] {
                Some(w) => {
                    return Some(w);
                },
                None => {},
            }
        }
        self.window
    }

    /// Number of samples in one frame.
    pub fn frame_length(&self) -> (r: usize)
        requires
            self.wf(),
        ensures
            r as int == self.frame_len(),
    {
        let n = frame_area(self.rows, self.columns);
        let spp = self.samples_per_pixel as u128;
        assert(n * spp <= 0xffff_ffff_ffff_ffff_ffff_ffff) by (nonlinear_arith)
            requires
                n <= 0xffff_ffff_ffff_ffff,
                spp <= 0xffff,
        ;
        let m = n * spp;
        let len = self.samples.len();
        assert(m as int == self.frame_len());
        assert(m <= self.samples@.len()) by (nonlinear_arith)
            requires
                m == self.frame_len(),
                m >= 0,
                self.samples@.len() == self.frame_count as int * m,
                self.frame_count >= 1,
        ;
        m as usize
    }

    /// Checks the buffer's invariant; `Ok` holds the buffer exactly when it is
    /// well formed, `InvalidArgument` comes otherwise.
    pub fn validated(self) -> (r: Result<PixelBuffer, PipelineError>)
        ensures
            self.wf() ==> r == Ok::<PixelBuffer, PipelineError>(self),
            !self.wf() ==> r == Err::<PixelBuffer, PipelineError>(PipelineError::InvalidArgument),
    {
        if !(self.bits_allocated == 8 || self.bits_allocated == 16 || self.bits_allocated == 32) {
            return Err(PipelineError::InvalidArgument);
        }
        if self.bits_stored < 1 || self.bits_stored > self.bits_allocated {
            return Err(PipelineError::InvalidArgument);
        }
        if self.high_bit != self.bits_stored - 1 || self.frame_count < 1 {
            return Err(PipelineError::InvalidArgument);
        }
        let n = frame_area(self.rows, self.columns);
        let spp = self.samples_per_pixel as u128;
        assert(n * spp <= 0xffff_ffff_ffff_ffff_ffff_ffff) by (nonlinear_arith)
            requires
                n <= 0xffff_ffff_ffff_ffff,
                spp <= 0xffff,
        ;
        let m = n * spp;
        let fc = self.frame_count as u128;
        assert(m * fc <= 0xffff_ffff_ffff_ffff_ffff_ffff_ffff_ffff) by (nonlinear_arith)
            requires
                m <= 0xffff_ffff_ffff_ffff_ffff_ffff,
                fc <= 0xffff_ffff,
        ;
        let total = m * fc;
        assert(m as int == self.frame_len());
        assert(total as int == self.frame_count as int * self.frame_len()) by (nonlinear_arith)
            requires
                total == m * fc,
                m as int == self.frame_len(),
                fc == self.frame_count,
        ;
        if total != self.samples.len() as u128 {
            return Err(PipelineError::InvalidArgument);
        }
        assert(m <= total) by (nonlinear_arith)
            requires
                total == m * fc,
                fc >= 1,
        ;
        let flen = m as usize;
        let len = self.samples.len();
        let mut i: usize = 0;
        while i < len
            invariant
                self.format_ok(),
                flen as int == self.frame_len(),
                len == self.samples@.len(),
                self.samples@.len() == self.frame_count as int * self.frame_len(),
                i <= len,
                forall|k: int|
                    0 <= k < i ==> native_min(self.bits_allocated, self.signedness)
                        <= #[trigger] self.samples@[k] <= native_max(
                        self.bits_allocated,
                        self.signedness,
                    ),
                forall|k: int| 0 <= k < i ==> fits_i64(#[trigger] self.intensity(k)),
            decreases len - i,
        {
            let raw = self.samples[i];
            if !in_native_range(raw, self.bits_allocated, self.signedness) {
                assert(!self.wf());
                return Err(PipelineError::InvalidArgument);
            }
            let frame = i / flen;
            let v = modality_apply(raw, self.effective_rescale(frame));
            if v < i64::MIN as i128 || v > i64::MAX as i128 {
                assert(!fits_i64(self.intensity(i as int)));
                return Err(PipelineError::InvalidArgument);
            }
            i = i + 1;
        }
        Ok(self)
    }

    /// The intensity of every sample after the modality step.
    pub fn modality_intensities(&self) -> (r: Vec<i64>)
        requires
            self.wf(),
        ensures
            r@.len() == self.samples@.len(),
            forall|i: int| 0 <= i < r@.len() ==> r@[i] as int == #[trigger] self.intensity(i),
    {
        let flen = self.frame_length();
        let len = self.samples.len();
        let mut out: Vec<i64> = Vec::new();
        let mut i: usize = 0;
        while i < len
            invariant
                self.wf(),
                flen as int == self.frame_len(),
                len == self.samples@.len(),
                i <= len,
                out@.len() == i,
                forall|k: int| 0 <= k < i ==> out@[k] as int == #[trigger] self.intensity(k),
            decreases len - i,
        {
            let raw = self.samples[i];
            assert(native_min(self.bits_allocated, self.signedness) <= self.samples@[i as int]);
            assert(self.samples@[i as int] <= native_max(self.bits_allocated, self.signedness));
            let v = modality_apply(raw, self.effective_rescale(i / flen));
            assert(fits_i64(self.intensity(i as int)));
            out.push(v as i64);
            i = i + 1;
        }
        out
    }
}

} // verus!
