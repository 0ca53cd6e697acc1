use vstd::prelude::*;

use crate::error::PipelineError;
use crate::sample::Window;

verus! {

/// Whether the modality rescale is applied.
#[derive(Debug, Clone, Copy, PartialEq, Eq, Structural)]
pub enum ModalityLut {
    /// Apply the buffer's rescale when it has one.
    Default,
    /// Keep the stored values.
    Disabled,
}

/// The VOI step that follows the modality step.
#[derive(Debug, Clone, Copy, PartialEq, Eq, Structural)]
pub enum VoiLut {
    Identity,
    Custom(Window),
    Normalize,
    /// Use the buffer's own window when it has one.
    Default,
}

/// Width of the quantized or re-encoded samples.
#[derive(Debug, Clone, Copy, PartialEq, Eq, Structural)]
pub enum OutputWidth {
    Auto,
    Force8,
    Force16,
}

/// Bit depth that a width resolves to.
#[derive(Debug, Clone, Copy, PartialEq, Eq, Structural)]
pub enum Depth {
    Eight,
    Sixteen,
}

/// An immutable conversion configuration, validated when it is made.
#[derive(Debug, Clone, Copy, PartialEq, Eq, Structural)]
pub struct ConversionOptions {
    pub modality: ModalityLut,
    pub voi: VoiLut,
    pub width: OutputWidth,
}

/// Export flags as a caller states them.
#[derive(Debug, Clone, Copy, PartialEq, Eq, Structural)]
pub struct ImageExportOptions {
    pub frame: Option<u32>,
    pub window: Option<Window>,
    pub normalize: bool,
    pub disable_modality_lut: bool,
    pub disable_voi_lut: bool,
    pub force_8bit: bool,
    pub force_16bit: bool,
}

/// A window whose width is negative is refused.
pub open spec fn window_acceptable(voi: VoiLut) -> bool {
    match voi {
        VoiLut::Custom(w) => w.width >= 0,
        _ => true,
    }
}

/// The configuration that `ConversionOptions::new` makes of its arguments:
/// forcing both widths, or a custom window of negative width, is
/// `InvalidArgument`.
pub open spec fn options_from(modality: ModalityLut, voi: VoiLut, force_8bit: bool, force_16bit: bool) -> Result<
    ConversionOptions,
    PipelineError,
> {
    if (force_8bit && force_16bit) || !window_acceptable(voi) {
        Err(PipelineError::InvalidArgument)
    } else {
        Ok(
            ConversionOptions {
                modality,
                voi,
                width: if force_16bit {
                    OutputWidth::Force16
                } else if force_8bit {
                    OutputWidth::Force8
                } else {
                    OutputWidth::Auto
                },
            },
        )
    }
}

impl ConversionOptions {
    /// The default configuration: embedded rescale and window, automatic width.
    pub fn defaults() -> (r: ConversionOptions)
        ensures
            r == (ConversionOptions {
                modality: ModalityLut::Default,
                voi: VoiLut::Default,
                width: OutputWidth::Auto,
            }),
    {
        ConversionOptions { modality: ModalityLut::Default, voi: VoiLut::Default, width: OutputWidth::Auto }
    }

    /// Makes a configuration. Forcing both widths, or a custom window of
    /// negative width, is `InvalidArgument`.
    pub fn new(modality: ModalityLut, voi: VoiLut, force_8bit: bool, force_16bit: bool) -> (r: Result<
        ConversionOptions,
        PipelineError,
    >)
        ensures
            r == options_from(modality, voi, force_8bit, force_16bit),
    {
        if force_8bit && force_16bit {
            return Err(PipelineError::InvalidArgument);
        }
        match voi {
            VoiLut::Custom(w) => {
                if w.width < 0 {
                    return Err(PipelineError::InvalidArgument);
                }
            },
            _ => {},
        }
        let width = if force_16bit {
            OutputWidth::Force16
        } else if force_8bit {
            OutputWidth::Force8
        } else {
            OutputWidth::Auto
        };
        Ok(ConversionOptions { modality, voi, width })
    }
}

/// The VOI step that export flags select: disabling wins, then an explicit
/// window, then normalization, else the default.
pub open spec fn selected_voi(o: ImageExportOptions) -> VoiLut {
    if o.disable_voi_lut {
        VoiLut::Identity
    } else if o.window is Some {
        VoiLut::Custom(o.window->0)
    } else if o.normalize {
        VoiLut::Normalize
    } else {
        VoiLut::Default
    }
}

/// Turns export flags into a conversion configuration, with the checks of
/// `ConversionOptions::new`.
pub fn build_convert_options(options: &ImageExportOptions) -> (r: Result<
    ConversionOptions,
    PipelineError,
>)
    ensures
        r == options_from(
            if options.disable_modality_lut {
                ModalityLut::Disabled
            } else {
                ModalityLut::Default
            },
            selected_voi(*options),
            options.force_8bit,
            options.force_16bit,
        ),
{
    let modality = if options.disable_modality_lut {
        ModalityLut::Disabled
    } else {
        ModalityLut::Default
    };
    let voi = if options.disable_voi_lut {
        VoiLut::Identity
    } else {
        match options.window {
            Some(w) => VoiLut::Custom(w),
            None => {
                if options.normalize {
                    VoiLut::Normalize
                } else {
                    VoiLut::Default
                }
            },
        }
    };
    ConversionOptions::new(modality, voi, options.force_8bit, options.force_16bit)
}

/// A window needs both its center and its width: both give a window,
/// neither gives none, one alone is `InvalidArgument`.
pub fn parse_window(center: Option<i64>, width: Option<i64>) -> (r: Result<
    Option<Window>,
    PipelineError,
>)
    ensures
        center is Some && width is Some ==> r == Ok::<Option<Window>, PipelineError>(
            Some(Window { center: center->0, width: width->0 }),
        ),
        center is None && width is None ==> r == Ok::<Option<Window>, PipelineError>(None),
        center is Some != width is Some ==> r == Err::<Option<Window>, PipelineError>(
            PipelineError::InvalidArgument,
        ),
{
    match (center, width) {
        (Some(c), Some(w)) => Ok(Some(Window { center: c, width: w })),
        (None, None) => Ok(None),
        _ => Err(PipelineError::InvalidArgument),
    }
}

/// Depth that a width resolves to: a forced width, else sixteen bits when
/// more than eight are allocated.
pub open spec fn resolved_depth(width: OutputWidth, bits_allocated: u16) -> Depth {
    match width {
        OutputWidth::Force16 => Depth::Sixteen,
        OutputWidth::Force8 => Depth::Eight,
        OutputWidth::Auto => if bits_allocated > 8 {
            Depth::Sixteen
        } else {
            Depth::Eight
        },
    }
}

/// Resolves an output width against the allocated bits of a buffer.
pub fn resolve_output_width(width: OutputWidth, bits_allocated: u16) -> (r: Depth)
    ensures
        r == resolved_depth(width, bits_allocated),
{
    match width {
        OutputWidth::Force16 => Depth::Sixteen,
        OutputWidth::Force8 => Depth::Eight,
        OutputWidth::Auto => if bits_allocated > 8 {
            Depth::Sixteen
        } else {
            Depth::Eight
        },
    }
}

} // verus!
