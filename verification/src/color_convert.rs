use vstd::prelude::*;
use crate::err::Error;

verus! {

/// Color-space codes as the engine reports them in its image descriptor.
pub const CLRSPC_UNKNOWN: i32 = -1;
pub const CLRSPC_UNSPECIFIED: i32 = 0;
pub const CLRSPC_SRGB: i32 = 1;
pub const CLRSPC_GRAY: i32 = 2;
pub const CLRSPC_SYCC: i32 = 3;
pub const CLRSPC_EYCC: i32 = 4;
pub const CLRSPC_CMYK: i32 = 5;

/// A concrete delivery color space. The engine's "unknown" and "unspecified"
/// reports are not part of this set: they are resolution failures, never
/// output states.
#[derive(Clone, Copy, Debug, PartialEq, Eq, Structural)]
pub enum ColorSpace {
    CMYK,
    EYCC,
    GRAY,
    SRGB,
    SYCC,
}

/// The color-space value as the engine reports it, including the two
/// non-concrete reports.
#[derive(Clone, Copy, Debug, PartialEq, Eq, Structural)]
pub enum ColorSpaceValue {
    CMYK,
    EYCC,
    GRAY,
    SRGB,
    SYCC,
    Unknown(i32),
    Unspecified,
}

impl ColorSpaceValue {
    /// The concrete color space a reported value stands for, if any.
    pub open spec fn spec_determined(self) -> Option<ColorSpace> {
        match self {
            ColorSpaceValue::CMYK => Some(ColorSpace::CMYK),
            ColorSpaceValue::EYCC => Some(ColorSpace::EYCC),
            ColorSpaceValue::GRAY => Some(ColorSpace::GRAY),
            ColorSpaceValue::SRGB => Some(ColorSpace::SRGB),
            ColorSpaceValue::SYCC => Some(ColorSpace::SYCC),
            ColorSpaceValue::Unknown(_) => None,
            ColorSpaceValue::Unspecified => None,
        }
    }

    pub fn determined(&self) -> (r: Option<ColorSpace>)
        ensures
            r == self.spec_determined(),
    {
        match *self {
            ColorSpaceValue::CMYK => Some(ColorSpace::CMYK),
            ColorSpaceValue::EYCC => Some(ColorSpace::EYCC),
            ColorSpaceValue::GRAY => Some(ColorSpace::GRAY),
            ColorSpaceValue::SRGB => Some(ColorSpace::SRGB),
            ColorSpaceValue::SYCC => Some(ColorSpace::SYCC),
            ColorSpaceValue::Unknown(_) | ColorSpaceValue::Unspecified => None,
        }
    }

    /// How an engine-reported code decodes: every code outside the known set
    /// is kept as `Unknown` with its raw value.
    pub open spec fn spec_from_i32(val: i32) -> ColorSpaceValue {
        if val == CLRSPC_CMYK {
            ColorSpaceValue::CMYK
        } else if val == CLRSPC_EYCC {
            ColorSpaceValue::EYCC
        } else if val == CLRSPC_GRAY {
            ColorSpaceValue::GRAY
        } else if val == CLRSPC_SRGB {
            ColorSpaceValue::SRGB
        } else if val == CLRSPC_SYCC {
            ColorSpaceValue::SYCC
        } else if val == CLRSPC_UNSPECIFIED {
            ColorSpaceValue::Unspecified
        } else {
            ColorSpaceValue::Unknown(val)
        }
    }

    pub fn from_i32(val: i32) -> (r: Self)
        ensures
            r == Self::spec_from_i32(val),
    {
        if val == CLRSPC_CMYK {
            ColorSpaceValue::CMYK
        } else if val == CLRSPC_EYCC {
            ColorSpaceValue::EYCC
        } else if val == CLRSPC_GRAY {
            ColorSpaceValue::GRAY
        } else if val == CLRSPC_SRGB {
            ColorSpaceValue::SRGB
        } else if val == CLRSPC_SYCC {
            ColorSpaceValue::SYCC
        } else if val == CLRSPC_UNSPECIFIED {
            ColorSpaceValue::Unspecified
        } else {
            ColorSpaceValue::Unknown(val)
        }
    }
}

/// The delivery color space for a decoded image: the engine-reported value
/// when it is concrete, else the caller's fallback when one is configured,
/// else a failure that tells the two non-concrete reports apart.
pub open spec fn spec_resolve_color_space(
    raw: ColorSpaceValue,
    fallback: Option<ColorSpace>,
) -> Result<ColorSpace, Error> {
    match raw.spec_determined() {
        Some(cs) => Ok(cs),
        None => match fallback {
            Some(cs) => Ok(cs),
            None => if raw is Unspecified {
                Err(Error::UnspecifiedColorSpace)
            } else {
                Err(Error::UnknownColorSpace)
            },
        },
    }
}

pub fn resolve_color_space(raw: ColorSpaceValue, fallback: Option<ColorSpace>) -> (r: Result<
    ColorSpace,
    Error,
>)
    ensures
        r == spec_resolve_color_space(raw, fallback),
{
    match raw.determined() {
        Some(cs) => Ok(cs),
        None => match fallback {
            Some(cs) => Ok(cs),
            None => match raw {
                ColorSpaceValue::Unspecified => Err(Error::UnspecifiedColorSpace),
                _ => Err(Error::UnknownColorSpace),
            },
        },
    }
}

/// Up to four raw component samples remapped into packed RGBA order by the
/// delivery color space: SRGB passes samples through, GRAY broadcasts the
/// single plane with opaque alpha.
pub open spec fn spec_convert_to_rgba(cs: ColorSpace, source: Seq<u8>) -> Seq<u8>
    recommends
        source.len() == 4,
{
    match cs {
        ColorSpace::GRAY => seq![source[0], source[0], source[0], 255u8],
        _ => source,
    }
}

impl ColorSpace {
    /// Remaps one pixel's raw component samples into RGBA byte order. Only
    /// the SRGB pass-through and the GRAY broadcast are implemented; other
    /// concrete spaces have no conversion here and are refused upstream.
    pub fn convert_to_rgba_raw(&self, source: [u8; 4]) -> (r: [u8; 4])
        requires
            *self is SRGB || *self is GRAY,
        ensures
            r@ == spec_convert_to_rgba(*self, source@),
    {
        match *self {
            ColorSpace::SRGB => source,
            ColorSpace::GRAY => [source[0], source[0], source[0], 255],
            _ => source,
        }
    }
}

} // verus!
