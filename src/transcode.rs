use vstd::prelude::*;

use crate::error::PipelineError;
use crate::options::{resolve_output_width, resolved_depth, Depth, OutputWidth};
use crate::sample::{in_native_range, native_max, native_min, PixelBuffer, Signedness};
use crate::stats::{is_greatest, is_least, is_median_of, total, total_squares, Median};

verus! {

/// The uncompressed transfer syntaxes a buffer can be re-encoded under.
#[derive(Debug, Clone, Copy, PartialEq, Eq, Structural)]
pub enum UncompressedTransferSyntax {
    ExplicitVRLittleEndian,
    ImplicitVRLittleEndian,
}

/// Transfer syntax as a command line names it.
#[derive(Debug, Clone, Copy, PartialEq, Eq, Structural)]
pub enum TransferSyntax {
    ExplicitVrLittleEndian,
    ImplicitVrLittleEndian,
}

/// Operation that a batch run applies to every file.
#[derive(Debug, Clone, Copy, PartialEq, Eq, Structural)]
pub enum BatchOperation {
    Anonymize,
    Validate,
}

/// Representation of the rewritten pixel element: narrow (one byte per
/// sample) or wide (little-endian words).
#[derive(Debug, Clone, Copy, PartialEq, Eq, Structural)]
pub enum PixelVr {
    OB,
    OW,
}

/// SOP class identifier used when the source carries none.
pub const DEFAULT_SOP_CLASS_UID: &'static str = "1.2.840.10008.5.1.4.1.1.7";

/// SOP instance identifier used when the source carries none; a caller
/// replaces it before the object is stored.
pub const DEFAULT_SOP_INSTANCE_UID: &'static str = "1.2.3.4.5";

pub open spec fn uid_of(ts: UncompressedTransferSyntax) -> Seq<char> {
    match ts {
        UncompressedTransferSyntax::ExplicitVRLittleEndian => "1.2.840.10008.1.2.1"@,
        UncompressedTransferSyntax::ImplicitVRLittleEndian => "1.2.840.10008.1.2"@,
    }
}

impl UncompressedTransferSyntax {
    /// The transfer syntax UID.
    pub fn uid(self) -> (r: &'static str)
        ensures
            r@ == uid_of(self),
    {
        match self {
            UncompressedTransferSyntax::ExplicitVRLittleEndian => "1.2.840.10008.1.2.1",
            UncompressedTransferSyntax::ImplicitVRLittleEndian => "1.2.840.10008.1.2",
        }
    }

    /// The transfer syntax that `uid` names; any other UID is `UnsupportedTarget`.
    pub fn from_uid(uid: &str) -> (r: Result<UncompressedTransferSyntax, PipelineError>)
        ensures
            uid@ == uid_of(UncompressedTransferSyntax::ExplicitVRLittleEndian) ==> r == Ok::<
                UncompressedTransferSyntax,
                PipelineError,
            >(UncompressedTransferSyntax::ExplicitVRLittleEndian),
            uid@ == uid_of(UncompressedTransferSyntax::ImplicitVRLittleEndian) ==> r == Ok::<
                UncompressedTransferSyntax,
                PipelineError,
            >(UncompressedTransferSyntax::ImplicitVRLittleEndian),
            uid@ != uid_of(UncompressedTransferSyntax::ExplicitVRLittleEndian) && uid@ != uid_of(
                UncompressedTransferSyntax::ImplicitVRLittleEndian,
            ) ==> r == Err::<UncompressedTransferSyntax, PipelineError>(
                PipelineError::UnsupportedTarget,
            ),
    {
        proof {
            reveal_strlit("1.2.840.10008.1.2.1");
            reveal_strlit("1.2.840.10008.1.2");
            assert(uid_of(UncompressedTransferSyntax::ExplicitVRLittleEndian).len() == 19);
            assert(uid_of(UncompressedTransferSyntax::ImplicitVRLittleEndian).len() == 17);
        }
        let given = String::from_str(uid);
        let explicit = String::from_str(UncompressedTransferSyntax::ExplicitVRLittleEndian.uid());
        let implicit = String::from_str(UncompressedTransferSyntax::ImplicitVRLittleEndian.uid());
        if given == explicit {
            Ok(UncompressedTransferSyntax::ExplicitVRLittleEndian)
        } else if given == implicit {
            Ok(UncompressedTransferSyntax::ImplicitVRLittleEndian)
        } else {
            Err(PipelineError::UnsupportedTarget)
        }
    }
}

impl From<TransferSyntax> for UncompressedTransferSyntax {
    fn from(value: TransferSyntax) -> (r: UncompressedTransferSyntax) {
        match value {
            TransferSyntax::ExplicitVrLittleEndian => UncompressedTransferSyntax::ExplicitVRLittleEndian,
            TransferSyntax::ImplicitVrLittleEndian => UncompressedTransferSyntax::ImplicitVRLittleEndian,
        }
    }
}

impl vstd::std_specs::convert::FromSpecImpl<TransferSyntax> for UncompressedTransferSyntax {
    open spec fn obeys_from_spec() -> bool {
        true
    }

    open spec fn from_spec(v: TransferSyntax) -> UncompressedTransferSyntax {
        match v {
            TransferSyntax::ExplicitVrLittleEndian => UncompressedTransferSyntax::ExplicitVRLittleEndian,
            TransferSyntax::ImplicitVrLittleEndian => UncompressedTransferSyntax::ImplicitVRLittleEndian,
        }
    }
}

/// Native samples packed at a depth: one two's complement byte each at
/// eight bits, a little-endian two's complement word each at sixteen.
pub open spec fn packed(samples: Seq<i64>, d: Depth) -> Seq<u8> {
    match d {
        Depth::Eight => Seq::new(samples.len(), |i: int| (samples[i] as int % 256) as u8),
        Depth::Sixteen => Seq::new(
            2 * samples.len(),
            |k: int|
                if k % 2 == 0 {
                    (samples[k / 2] as int % 65536 % 256) as u8
                } else {
                    (samples[k / 2] as int % 65536 / 256) as u8
                },
        ),
    }
}

/// Samples read back from packed bytes in the given signedness.
pub open spec fn unpacked(bytes: Seq<u8>, d: Depth, sign: Signedness) -> Seq<int> {
    match d {
        Depth::Eight => Seq::new(
            bytes.len(),
            |i: int|
                if sign == Signedness::Signed && bytes[i] >= 128 {
                    bytes[i] - 256
                } else {
                    bytes[i] as int
                },
        ),
        Depth::Sixteen => Seq::new(
            bytes.len() / 2,
            |i: int|
                {
                    let w = bytes[2 * i] + 256 * bytes[2 * i + 1];
                    if sign == Signedness::Signed && w >= 32768 {
                        w - 65536
                    } else {
                        w
                    }
                },
        ),
    }
}

/// Low `8 * bytes` bits of a value, as an unsigned number.
fn wrap_unsigned(v: i64, modulus: u128) -> (r: u128)
    requires
        modulus == 256 || modulus == 65536,
    ensures
        r as int == v as int % modulus as int,
        r < modulus,
{
    if v >= 0 {
        (v as u128) % modulus
    } else {
        let u = (v as i128 + 0x1_0000_0000_0000_0000) as u128;
        assert((v as int + 0x1_0000_0000_0000_0000) % (modulus as int) == v as int % (modulus as int))
            by {
            vstd::arithmetic::div_mod::lemma_mod_add_multiples_vanish(
                v as int,
                modulus as int,
            );
            if modulus == 256 {
                assert(0x1_0000_0000_0000_0000 == 0x1_0000_0000_0000_00 * 256);
                vstd::arithmetic::div_mod::lemma_mod_multiples_vanish(
                    0x1_0000_0000_0000_00,
                    v as int,
                    256,
                );
            } else {
                assert(0x1_0000_0000_0000_0000 == 0x1_0000_0000_0000 * 65536);
                vstd::arithmetic::div_mod::lemma_mod_multiples_vanish(
                    0x1_0000_0000_0000,
                    v as int,
                    65536,
                );
            }
        }
        u % modulus
    }
}

/// Packs native samples at a depth (see `packed`).
pub fn pack_samples(samples: &Vec<i64>, depth: Depth) -> (r: Vec<u8>)
    ensures
        r@ == packed(samples@, depth),
{
    let n = samples.len();
    let mut out: Vec<u8> = Vec::new();
    let mut i: usize = 0;
    while i < n
        invariant
            n == samples@.len(),
            i <= n,
            depth == Depth::Eight ==> out@ =~= packed(samples@.take(i as int), depth),
            depth == Depth::Sixteen ==> out@ =~= packed(samples@.take(i as int), depth),
        decreases n - i,
    {
        let v = samples[i];
        match depth {
            Depth::Eight => {
                let b = wrap_unsigned(v, 256) as u8;
                out.push(b);
                assert(out@ =~= packed(samples@.take(i + 1), depth));
            },
            Depth::Sixteen => {
                let w = wrap_unsigned(v, 65536);
                out.push((w % 256) as u8);
                out.push((w / 256) as u8);
                assert forall|k: int| 0 <= k < 2 * (i + 1) implies #[trigger] out@[k] == packed(
                    samples@.take(i + 1),
                    depth,
                )[k] by {
                    if k < 2 * i {
                        assert(k / 2 < i) by (nonlinear_arith)
                            requires
                                0 <= k < 2 * i,
                        ;
                    } else {
                        assert(k / 2 == i) by (nonlinear_arith)
                            requires
                                2 * i <= k < 2 * i + 2,
                        ;
                    }
                }
                assert(out@ =~= packed(samples@.take(i + 1), depth));
            },
        }
        i = i + 1;
    }
    assert(samples@.take(n as int) =~= samples@);
    out
}

/// A buffer re-encoded under an uncompressed transfer syntax: the new
/// pixel element and the identifiers of the regenerated header.
pub struct TranscodePlan {
    pub transfer_syntax_uid: String,
    pub pixel_vr: PixelVr,
    pub pixel_bytes: Vec<u8>,
    pub sop_class_uid: String,
    pub sop_instance_uid: String,
}

/// Bits per sample of a depth.
pub open spec fn depth_bits(d: Depth) -> u16 {
    match d {
        Depth::Eight => 8,
        Depth::Sixteen => 16,
    }
}

/// Every sample lies in the range that a sample of depth `d` holds in the
/// given signedness, so packing keeps its value.
pub open spec fn depth_holds(samples: Seq<i64>, d: Depth, sign: Signedness) -> bool {
    forall|i: int|
        0 <= i < samples.len() ==> native_min(depth_bits(d), sign) <= #[trigger] samples[i]
            <= native_max(depth_bits(d), sign)
}

/// The samples as integers.
pub open spec fn sample_values(samples: Seq<i64>) -> Seq<int> {
    Seq::new(samples.len(), |i: int| samples[i] as int)
}

fn fits_depth(samples: &Vec<i64>, d: Depth, sign: Signedness) -> (r: bool)
    ensures
        r == depth_holds(samples@, d, sign),
{
    let bits: u16 = match d {
        Depth::Eight => 8,
        Depth::Sixteen => 16,
    };
    let n = samples.len();
    let mut i: usize = 0;
    while i < n
        invariant
            n == samples@.len(),
            i <= n,
            bits == depth_bits(d),
            forall|k: int|
                0 <= k < i ==> native_min(bits, sign) <= #[trigger] samples@[k] <= native_max(
                    bits,
                    sign,
                ),
        decreases n - i,
    {
        if !in_native_range(samples[i], bits, sign) {
            return false;
        }
        i = i + 1;
    }
    true
}

/// Re-encodes the native samples of a buffer: no rescale or window is
/// applied, the samples are packed at the resolved depth, and the pixel
/// representation follows that depth. The source's SOP identifiers are
/// kept, or the defaults stand in for them. A buffer with a sample that the
/// resolved depth cannot hold is `InvalidArgument`, so re-encoded values
/// never differ from the stored ones: reading the bytes back gives the
/// samples.
pub fn transcode(
    buffer: &PixelBuffer,
    target: UncompressedTransferSyntax,
    width: OutputWidth,
    sop_class_uid: Option<String>,
    sop_instance_uid: Option<String>,
) -> (r: Result<TranscodePlan, PipelineError>)
    ensures
        !depth_holds(
            buffer.samples@,
            resolved_depth(width, buffer.bits_allocated),
            buffer.signedness,
        ) ==> r == Err::<TranscodePlan, PipelineError>(PipelineError::InvalidArgument),
        depth_holds(
            buffer.samples@,
            resolved_depth(width, buffer.bits_allocated),
            buffer.signedness,
        ) ==> r is Ok && {
            let p = r->Ok_0;
            let d = resolved_depth(width, buffer.bits_allocated);
            &&& p.transfer_syntax_uid@ == uid_of(target)
            &&& p.pixel_bytes@ == packed(buffer.samples@, d)
            &&& unpacked(p.pixel_bytes@, d, buffer.signedness) == sample_values(buffer.samples@)
            &&& p.pixel_vr == (if d == Depth::Sixteen {
                PixelVr::OW
            } else {
                PixelVr::OB
            })
            &&& p.sop_class_uid@ == (match sop_class_uid {
                Some(s) => s@,
                None => DEFAULT_SOP_CLASS_UID@,
            })
            &&& p.sop_instance_uid@ == (match sop_instance_uid {
                Some(s) => s@,
                None => DEFAULT_SOP_INSTANCE_UID@,
            })
        },
{
    let depth = resolve_output_width(width, buffer.bits_allocated);
    if !fits_depth(&buffer.samples, depth, buffer.signedness) {
        return Err(PipelineError::InvalidArgument);
    }
    let pixel_bytes = pack_samples(&buffer.samples, depth);
    proof {
        lemma_pack_round_trip(buffer.samples@, depth, buffer.signedness);
    }
    let pixel_vr = match depth {
        Depth::Sixteen => PixelVr::OW,
        Depth::Eight => PixelVr::OB,
    };
    let sop_class = match sop_class_uid {
        Some(s) => s,
        None => String::from_str(DEFAULT_SOP_CLASS_UID),
    };
    let sop_instance = match sop_instance_uid {
        Some(s) => s,
        None => String::from_str(DEFAULT_SOP_INSTANCE_UID),
    };
    Ok(
        TranscodePlan {
            transfer_syntax_uid: String::from_str(target.uid()),
            pixel_vr,
            pixel_bytes,
            sop_class_uid: sop_class,
            sop_instance_uid: sop_instance,
        },
    )
}

/// The packing keeps every sample that the depth holds: reading the packed
/// bytes back in the same signedness gives the samples.
pub proof fn lemma_pack_round_trip(s: Seq<i64>, d: Depth, sign: Signedness)
    requires
        depth_holds(s, d, sign),
    ensures
        unpacked(packed(s, d), d, sign) == sample_values(s),
{
    let p = packed(s, d);
    let u = unpacked(p, d, sign);
    assert forall|i: int| 0 <= i < s.len() implies u[i] == sample_values(s)[i] by {
        let v = s[i] as int;
        assert(native_min(depth_bits(d), sign) <= s[i] <= native_max(depth_bits(d), sign));
        match d {
            Depth::Eight => {
                assert(p[i] == (v % 256) as u8);
            },
            Depth::Sixteen => {
                assert((2 * i) / 2 == i);
                assert((2 * i + 1) / 2 == i);
                assert((2 * i) % 2 == 0);
                assert((2 * i + 1) % 2 == 1);
                let w = v % 65536;
                assert(p[2 * i] == (w % 256) as u8);
                assert(p[2 * i + 1] == (w / 256) as u8);
                assert(w % 256 + 256 * (w / 256) == w);
            },
        }
    }
    assert(u =~= sample_values(s));
}

/// Re-decoding a transcoded buffer gives the same statistics: a buffer that
/// differs from `b` only in samples read back from the re-encoded bytes has
/// the same sample count, shape and intensities as `b`, hence the same
/// least and greatest intensity, sum, sum of squares and central values,
/// which are all that the statistics of a buffer are made of.
pub proof fn lemma_transcode_preserves_statistics(b: &PixelBuffer, back: &PixelBuffer, d: Depth)
    requires
        b.wf(),
        depth_holds(b.samples@, d, b.signedness),
        back.frame_count == b.frame_count,
        back.rows == b.rows,
        back.columns == b.columns,
        back.samples_per_pixel == b.samples_per_pixel,
        back.rescale == b.rescale,
        back.frame_rescales@ == b.frame_rescales@,
        back.raw_values() == unpacked(packed(b.samples@, d), d, b.signedness),
    ensures
        back.samples@.len() == b.samples@.len(),
        back.intensities() == b.intensities(),
        forall|m: int| #[trigger] is_least(m, back.intensities()) == is_least(m, b.intensities()),
        forall|m: int| #[trigger] is_greatest(m, back.intensities()) == is_greatest(m, b.intensities()),
        total(back.intensities()) == total(b.intensities()),
        total_squares(back.intensities()) == total_squares(b.intensities()),
        forall|m: Median| #[trigger] is_median_of(m, back.intensities()) == is_median_of(m, b.intensities()),
{
    lemma_pack_round_trip(b.samples@, d, b.signedness);
    assert(b.raw_values() =~= sample_values(b.samples@));
    assert(back.raw_values() == b.raw_values());
    assert(back.samples@.len() == back.raw_values().len());
    assert(back.samples@.len() == b.samples@.len());
    assert forall|i: int| 0 <= i < b.samples@.len() implies back.samples@[i] == b.samples@[i] by {
        assert(back.raw_values()[i] == back.samples@[i] as int);
        assert(b.raw_values()[i] == b.samples@[i] as int);
    }
    assert forall|i: int| 0 <= i < b.samples@.len() implies back.intensity(i) == b.intensity(i) by {
        assert(back.frame_len() == b.frame_len());
        assert(back.effective_rescale_spec(b.frame_of(i)) == b.effective_rescale_spec(b.frame_of(i)));
    }
    assert(back.intensities() =~= b.intensities());
}

} // verus!
